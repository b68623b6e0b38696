//! Splitting the text of a message into words, with the quoting and escaping
//! of a POSIX shell.

use vstd::prelude::*;
use vstd::string::StringExecFns;

verus! {

/// What `shlex::split` makes of a text: the words in their order, or `None`
/// where the text ends inside a quotation or right after an unescaped
/// backslash.
pub uninterp spec fn shlex_split(text: Seq<char>) -> Option<Seq<Seq<char>>>;

/// Whether a character opens a quotation or escapes the character after it.
pub open spec fn is_quoting(c: char) -> bool {
    c == '"' || c == '\'' || c == '\\'
}

/// Whether a text holds a character that opens a quotation or escapes.
pub open spec fn has_quoting(text: Seq<char>) -> bool {
    exists|i: int| 0 <= i < text.len() && is_quoting(#[trigger] text[i])
}

/// The sentence that tells a user that the text could not be split.
pub const UNTERMINATED: &'static str =
    "could not split the message into words: a quotation is not closed or a backslash ends the text";

/// The text of a message could not be split into words.
#[derive(Clone, Copy, Debug, PartialEq, Eq, Structural)]
pub enum TokenizeError {
    /// The text ends inside a quotation or right after a backslash.
    Unterminated,
}

impl TokenizeError {
    /// The sentence that tells a user what was wrong with the message.
    pub open spec fn message_text(self) -> Seq<char> {
        UNTERMINATED@
    }

    /// Returns the sentence that tells a user what was wrong with the message.
    pub fn message(&self) -> (text: String)
        ensures
            text@ == self.message_text(),
    {
        String::from_str(UNTERMINATED)
    }
}

/// Calls `shlex::split`. The contract names the result, and adds what
/// follows from the one way in which `shlex::split` fails: a text with no
/// quotation mark and no backslash cannot end inside a quotation or after a
/// backslash, so it is split.
#[verifier::external_body]
fn split_words(text: &str) -> (words: Option<Vec<String>>)
    ensures
        words.deep_view() == shlex_split(text@),
        !has_quoting(text@) ==> words is Some,
{
    shlex::split(text)
}

/// What [`tokenize`] returns for a given outcome of the split.
pub open spec fn words_or_error(words: Option<Seq<Seq<char>>>) -> Result<
    Seq<Seq<char>>,
    TokenizeError,
> {
    match words {
        Some(found) => Ok(found),
        None => Err(TokenizeError::Unterminated),
    }
}

/// The view of a tokenizer result: the words as sequences of characters.
pub open spec fn tokens_view(tokens: Result<Vec<String>, TokenizeError>) -> Result<
    Seq<Seq<char>>,
    TokenizeError,
> {
    match tokens {
        Ok(words) => Ok(words.deep_view()),
        Err(e) => Err(e),
    }
}

/// Turns the outcome of the split into the tokenizer's result: all the words,
/// or the error and no word at all.
pub fn accept_words(words: Option<Vec<String>>) -> (tokens: Result<Vec<String>, TokenizeError>)
    ensures
        tokens_view(tokens) == words_or_error(words.deep_view()),
        words matches Some(found) ==> tokens == Ok::<Vec<String>, TokenizeError>(found),
{
    match words {
        Some(found) => Ok(found),
        None => Err(TokenizeError::Unterminated),
    }
}

/// Splits the text of a message into words. Fails, with no word returned,
/// exactly where the splitter rejects the text, which it never does where
/// the text holds no quotation mark and no backslash.
pub fn tokenize(text: &str) -> (tokens: Result<Vec<String>, TokenizeError>)
    ensures
        tokens_view(tokens) == words_or_error(shlex_split(text@)),
        !has_quoting(text@) ==> tokens is Ok,
{
    accept_words(split_words(text))
}

} // verus!
