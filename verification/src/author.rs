//! The name under which a user's words reach the language model: the display
//! name, transliterated to ASCII and reduced to its letters.

use vstd::prelude::*;
use vstd::utf8::is_ascii_chars;

verus! {

/// What `unidecode::unidecode` makes of a text: each character replaced by
/// its ASCII transliteration, which may be empty or several characters long.
pub uninterp spec fn unidecode_text(text: Seq<char>) -> Seq<char>;

/// Whether `char::is_alphabetic` holds of a character: whether it has the
/// Unicode property `Alphabetic`.
pub uninterp spec fn is_alphabetic_char(c: char) -> bool;

/// Calls `unidecode::unidecode`. The contract names the result and adds the
/// two guarantees of its documentation: the result holds ASCII characters
/// only, and a text of ASCII characters comes back as it is.
#[verifier::external_body]
fn transliterate(text: &str) -> (ascii: String)
    ensures
        ascii@ == unidecode_text(text@),
        is_ascii_chars(ascii@),
        is_ascii_chars(text@) ==> ascii@ == text@,
{
    unidecode::unidecode(text)
}

/// `char::is_alphabetic` tells whether the character has the Unicode
/// property `Alphabetic`; the contract names that answer.
pub assume_specification[ char::is_alphabetic ](c: char) -> (alphabetic: bool)
    ensures
        alphabetic == is_alphabetic_char(c),
;

/// `String::push` appends the character to the end of the string.
pub assume_specification[ String::push ](text: &mut String, c: char)
    ensures
        final(text)@ == old(text)@.push(c),
;

/// The alphabetic characters of a text, in their order.
pub open spec fn letters_of(text: Seq<char>) -> Seq<char> {
    text.filter(|c: char| is_alphabetic_char(c))
}

/// The identity derived from a display name.
pub open spec fn identity_of(display_name: Seq<char>) -> Seq<char> {
    letters_of(unidecode_text(display_name))
}

/// Keeps the alphabetic characters of a text and drops the others.
pub fn keep_letters(text: &str) -> (letters: String)
    ensures
        letters@ == letters_of(text@),
        forall|i: int| 0 <= i < letters@.len() ==> is_alphabetic_char(#[trigger] letters@[i]),
        letters@.len() <= text@.len(),
        is_ascii_chars(text@) ==> is_ascii_chars(letters@),
{
    let ghost alphabetic = |c: char| is_alphabetic_char(c);
    let mut letters = String::new();
    for c in it: text.chars()
        invariant
            it.seq() == text@,
            alphabetic == |c: char| is_alphabetic_char(c),
            letters@ == text@.take(it.index() as int).filter(alphabetic),
    {
        proof {
            let before = text@.take(it.index() as int);
            assert(text@.take(it.index() + 1) == before + seq![c]);
            Seq::filter_distributes_over_add(before, seq![c], alphabetic);
            reveal(Seq::filter);
            assert(seq![c].drop_last() == Seq::<char>::empty());
            assert(Seq::<char>::empty().filter(alphabetic) == Seq::<char>::empty());
            assert(seq![c].filter(alphabetic) == if alphabetic(c) {
                seq![c]
            } else {
                Seq::<char>::empty()
            });
        }
        if c.is_alphabetic() {
            letters.push(c);
        }
    }
    proof {
        assert(text@.take(text@.len() as int) == text@);
        text@.lemma_filter_len(alphabetic);
        assert forall|i: int| 0 <= i < letters@.len() implies is_alphabetic_char(
            #[trigger] letters@[i],
        ) by {
            text@.lemma_filter_pred(alphabetic, i);
        }
        if is_ascii_chars(text@) {
            assert forall|i: int| 0 <= i < letters@.len() implies '\0' <= #[trigger] letters@[i]
                <= '\u{7f}' by {
                assert(letters@.contains(letters@[i]));
                text@.lemma_filter_contains_rev(alphabetic, letters@[i]);
                let at: int = choose|at: int| 0 <= at < text@.len() && text@[at] == letters@[i];
                assert('\0' <= text@[at] <= '\u{7f}');
            }
        }
    }
    letters
}

/// Derives the identity of an author from the display name: absent where the
/// author has no display name, else the letters of its transliteration. An
/// identity holds ASCII characters only, all of them alphabetic; a display
/// name of ASCII characters is reduced to its letters and not changed
/// otherwise.
pub fn author_identity(display_name: &Option<String>) -> (identity: Option<String>)
    ensures
        identity.deep_view() == (match display_name {
            Some(name) => Some(identity_of(name@)),
            None => None,
        }),
        identity matches Some(letters) ==> is_ascii_chars(letters@) && forall|i: int|
            0 <= i < letters@.len() ==> is_alphabetic_char(#[trigger] letters@[i]),
        display_name matches Some(name) ==> (is_ascii_chars(name@) ==> identity.deep_view()
            == Some(letters_of(name@))),
{
    match display_name {
        Some(name) => {
            let ascii = transliterate(name.as_str());
            Some(keep_letters(ascii.as_str()))
        },
        None => None,
    }
}

} // verus!
