//! The command grammar: which words make which command.
//!
//! The words are those of a message after the leading mention of the bot has
//! been dropped. The first word names the command:
//!
//! | command                      | arguments                                   |
//! |------------------------------|---------------------------------------------|
//! | `chat <message...>`          | one word or more, joined by single spaces   |
//! | `init <description...>`      | one word or more, joined by single spaces   |
//! | `image <description...>`     | one word or more; `--model dalle3|dalle2` may stand once among them |
//! | `vision <link> <question...>`| the link, then one word or more             |
//!
//! A first word `-h` or `--help`, the word `help` alone or before the name of
//! a command, and `-h` or `--help` anywhere after the name of a command ask
//! for the usage text. Everything else matches nothing, and is then read as
//! an implicit `chat` whose message is all the words written together.

use crate::image_model::ImageModel;
use crate::words::{
    find_word, first_position, is_word, join_words, joined, lemma_first_position,
    lemma_first_position_is, without_pair, words_from,
};
use vstd::prelude::*;
use vstd::string::StringExecFns;

verus! {

/// A command of the bot.
#[derive(Clone, Debug, PartialEq, Eq)]
pub enum Command {
    /// Ask the language model.
    Chat { message: String },
    /// Replace the persona description.
    Init { description: String },
    /// Generate an image.
    Image { description: String, model: Option<ImageModel> },
    /// Ask the language model about an image.
    Vision { link: String, question: String },
}

/// A command, with its texts as sequences of characters.
pub enum CommandView {
    Chat { message: Seq<char> },
    Init { description: Seq<char> },
    Image { description: Seq<char>, model: Option<ImageModel> },
    Vision { link: Seq<char>, question: Seq<char> },
}

impl View for Command {
    type V = CommandView;

    open spec fn view(&self) -> CommandView {
        match self {
            Command::Chat { message } => CommandView::Chat { message: message@ },
            Command::Init { description } => CommandView::Init { description: description@ },
            Command::Image { description, model } => CommandView::Image {
                description: description@,
                model: *model,
            },
            Command::Vision { link, question } => CommandView::Vision {
                link: link@,
                question: question@,
            },
        }
    }
}

/// What the grammar makes of a list of words.
#[derive(Clone, Debug, PartialEq, Eq)]
pub enum Parsed {
    /// The words are this command.
    Matched(Command),
    /// The words ask for the usage text.
    HelpRequested,
    /// The words are no command and no request for help.
    NoMatch,
}

/// A [`Parsed`], with its texts as sequences of characters.
pub enum ParsedView {
    Matched(CommandView),
    HelpRequested,
    NoMatch,
}

impl View for Parsed {
    type V = ParsedView;

    open spec fn view(&self) -> ParsedView {
        match self {
            Parsed::Matched(command) => ParsedView::Matched(command@),
            Parsed::HelpRequested => ParsedView::HelpRequested,
            Parsed::NoMatch => ParsedView::NoMatch,
        }
    }
}

/// Why no command came out of a list of words.
#[derive(Clone, Copy, Debug, PartialEq, Eq, Structural)]
pub enum ParseError {
    /// The user asked for the usage text.
    HelpRequested,
}

/// The usage text.
pub const USAGE: &'static str =
    "Usage: <command> <arguments>\n\nCommands:\n  chat <message...>             ask the bot\n  init <description...>         tell the bot who it is\n  image <description...>        draw an image (--model dalle3|dalle2)\n  vision <link> <question...>   ask about the image at a link\n  help                          show this text";

impl ParseError {
    /// The text that tells a user what came of the message.
    pub open spec fn message_text(self) -> Seq<char> {
        USAGE@
    }

    /// Returns the text that tells a user what came of the message.
    pub fn message(&self) -> (text: String)
        ensures
            text@ == self.message_text(),
    {
        String::from_str(USAGE)
    }
}

/// The separator between the words of a message or description.
pub open spec fn space() -> Seq<char> {
    " "@
}

/// The flag that picks the image model.
pub open spec fn model_flag() -> Seq<char> {
    "--model"@
}

/// Whether a word is one of the two flags that ask for help.
pub open spec fn is_help_flag(word: Seq<char>) -> bool {
    word == "-h"@ || word == "--help"@
}

/// Whether a word names a command.
pub open spec fn is_command_name(word: Seq<char>) -> bool {
    word == "chat"@ || word == "init"@ || word == "image"@ || word == "vision"@
}

/// Whether one of the words is a flag that asks for help.
pub open spec fn asks_help(words: Seq<Seq<char>>) -> bool {
    exists|i: int| 0 <= i < words.len() && is_help_flag(#[trigger] words[i])
}

/// Whether the words, of which the first is `help`, ask for the usage text:
/// `help` alone, or `help` and the name of a command.
pub open spec fn help_word_asks(words: Seq<Seq<char>>) -> bool {
    words.len() == 1 || (words.len() == 2 && is_command_name(words[1]))
}

/// The arguments of `chat`: one word or more, joined by single spaces.
pub open spec fn chat_spec(rest: Seq<Seq<char>>) -> ParsedView {
    if rest.len() == 0 {
        ParsedView::NoMatch
    } else {
        ParsedView::Matched(CommandView::Chat { message: joined(rest, space()) })
    }
}

/// The arguments of `init`: one word or more, joined by single spaces.
pub open spec fn init_spec(rest: Seq<Seq<char>>) -> ParsedView {
    if rest.len() == 0 {
        ParsedView::NoMatch
    } else {
        ParsedView::Matched(CommandView::Init { description: joined(rest, space()) })
    }
}

/// The arguments of `vision`: the link, then the question of one word or more.
pub open spec fn vision_spec(rest: Seq<Seq<char>>) -> ParsedView {
    if rest.len() < 2 {
        ParsedView::NoMatch
    } else {
        ParsedView::Matched(
            CommandView::Vision { link: rest[0], question: joined(rest.skip(1), space()) },
        )
    }
}

/// An image command of the given words and model, if there is a word.
pub open spec fn described(words: Seq<Seq<char>>, model: Option<ImageModel>) -> ParsedView {
    if words.len() == 0 {
        ParsedView::NoMatch
    } else {
        ParsedView::Matched(CommandView::Image { description: joined(words, space()), model })
    }
}

/// The arguments of `image`. Without `--model` all the words describe the
/// image. With it, the next word must select a model and `--model` must not
/// stand again; the words around the two describe the image.
pub open spec fn image_spec(rest: Seq<Seq<char>>) -> ParsedView {
    if !rest.contains(model_flag()) {
        described(rest, None)
    } else {
        let at: int = first_position(rest, model_flag());
        if at + 1 == rest.len() {
            ParsedView::NoMatch
        } else if ImageModel::of_flag(rest[at + 1]) is None {
            ParsedView::NoMatch
        } else if rest.skip(at + 2).contains(model_flag()) {
            ParsedView::NoMatch
        } else {
            described(rest.take(at) + rest.skip(at + 2), ImageModel::of_flag(rest[at + 1]))
        }
    }
}

/// What the grammar makes of a list of words.
pub open spec fn parse_spec(words: Seq<Seq<char>>) -> ParsedView {
    if words.len() == 0 {
        ParsedView::NoMatch
    } else if is_help_flag(words[0]) {
        ParsedView::HelpRequested
    } else if words[0] == "help"@ {
        if help_word_asks(words) {
            ParsedView::HelpRequested
        } else {
            ParsedView::NoMatch
        }
    } else if !is_command_name(words[0]) {
        ParsedView::NoMatch
    } else if asks_help(words.skip(1)) {
        ParsedView::HelpRequested
    } else if words[0] == "chat"@ {
        chat_spec(words.skip(1))
    } else if words[0] == "init"@ {
        init_spec(words.skip(1))
    } else if words[0] == "image"@ {
        image_spec(words.skip(1))
    } else {
        vision_spec(words.skip(1))
    }
}

/// The command that a list of words stands for: the one that the grammar
/// matches, else an implicit `chat` of all the words written together; no
/// command where the words ask for help.
pub open spec fn resolve_spec(words: Seq<Seq<char>>) -> Result<CommandView, ParseError> {
    match parse_spec(words) {
        ParsedView::Matched(command) => Ok(command),
        ParsedView::HelpRequested => Err(ParseError::HelpRequested),
        ParsedView::NoMatch => Ok(CommandView::Chat { message: joined(words, Seq::empty()) }),
    }
}

/// The view of the result of [`parse_command`].
pub open spec fn resolved_view(resolved: Result<Command, ParseError>) -> Result<
    CommandView,
    ParseError,
> {
    match resolved {
        Ok(command) => Ok(command@),
        Err(e) => Err(e),
    }
}

/// `chat` before one word or more, none of them a flag that asks for help,
/// is a chat of those words joined by single spaces; `init` likewise.
pub proof fn lemma_chat_takes_all_words(rest: Seq<Seq<char>>)
    requires
        rest.len() > 0,
        !asks_help(rest),
    ensures
        resolve_spec(seq!["chat"@] + rest) == Ok::<CommandView, ParseError>(
            CommandView::Chat { message: joined(rest, space()) },
        ),
        resolve_spec(seq!["init"@] + rest) == Ok::<CommandView, ParseError>(
            CommandView::Init { description: joined(rest, space()) },
        ),
{
    reveal_strlit("chat");
    reveal_strlit("init");
    reveal_strlit("help");
    reveal_strlit("-h");
    reveal_strlit("--help");
    assert("chat"@[0] == 'c' && "init"@[0] == 'i' && "help"@[0] == 'h');
    assert((seq!["chat"@] + rest).skip(1) =~= rest);
    assert((seq!["init"@] + rest).skip(1) =~= rest);
}

/// Words of which the first is no name of a command, not `help` and no flag
/// that asks for help match nothing, and neither does no word at all. They
/// stand for a chat of all the words written together, and no error comes
/// of them.
pub proof fn lemma_other_words_fall_back(words: Seq<Seq<char>>)
    requires
        words.len() > 0 ==> !is_command_name(words[0]) && !is_help_flag(words[0]) && words[0]
            != "help"@,
    ensures
        parse_spec(words) == ParsedView::NoMatch,
        resolve_spec(words) == Ok::<CommandView, ParseError>(
            CommandView::Chat { message: joined(words, Seq::empty()) },
        ),
{
}

/// No command comes of a list of words only where the words ask for help:
/// with a flag in front, with the word `help`, or with a flag after the name
/// of a command.
pub proof fn lemma_only_help_fails(words: Seq<Seq<char>>)
    ensures
        resolve_spec(words) is Err <==> parse_spec(words) == ParsedView::HelpRequested,
        resolve_spec(words) is Err ==> words.len() > 0 && (is_help_flag(words[0]) || (words[0]
            == "help"@ && help_word_asks(words)) || (is_command_name(words[0]) && asks_help(
            words.skip(1),
        ))),
{
}

/// `vision` before a link and one word or more, none of them a flag that
/// asks for help, asks the words about the image at the link.
pub proof fn lemma_vision_takes_link_and_question(link: Seq<char>, question: Seq<Seq<char>>)
    requires
        question.len() > 0,
        !is_help_flag(link),
        !asks_help(question),
    ensures
        resolve_spec(seq!["vision"@, link] + question) == Ok::<CommandView, ParseError>(
            CommandView::Vision { link, question: joined(question, space()) },
        ),
{
    reveal_strlit("vision");
    reveal_strlit("chat");
    reveal_strlit("init");
    reveal_strlit("image");
    reveal_strlit("help");
    reveal_strlit("-h");
    reveal_strlit("--help");
    assert("vision"@[0] == 'v' && "chat"@[0] == 'c' && "init"@[0] == 'i' && "image"@[0] == 'i'
        && "help"@[0] == 'h' && "-h"@[0] == '-' && "--help"@[0] == '-' && "vision"@.len() == 6
        && "init"@.len() == 4 && "image"@.len() == 5);
    let words = seq!["vision"@, link] + question;
    let rest = words.skip(1);
    assert(rest =~= seq![link] + question);
    assert(rest.skip(1) =~= question);
    assert(!asks_help(rest)) by {
        assert forall|i: int| 0 <= i < rest.len() implies !is_help_flag(#[trigger] rest[i]) by {
            if i > 0 {
                assert(rest[i] == question[i - 1]);
            }
        }
    }
}

/// An `image` whose words end in `--model` and the word of a model is drawn
/// with that model, and the words before the flag describe it.
pub proof fn lemma_image_takes_the_model(description: Seq<Seq<char>>, model: ImageModel)
    requires
        description.len() > 0,
        !asks_help(description),
        !description.contains(model_flag()),
    ensures
        resolve_spec(seq!["image"@] + description + seq![model_flag(), model.flag_name()]) == Ok::<
            CommandView,
            ParseError,
        >(CommandView::Image { description: joined(description, space()), model: Some(model) }),
{
    reveal_strlit("image");
    reveal_strlit("chat");
    reveal_strlit("init");
    reveal_strlit("help");
    reveal_strlit("-h");
    reveal_strlit("--help");
    reveal_strlit("--model");
    reveal_strlit("dalle3");
    reveal_strlit("dalle2");
    assert("image"@[1] == 'm' && "chat"@[0] == 'c' && "init"@[1] == 'n' && "help"@[0] == 'h');
    assert("--model"@[2] == 'm' && "--help"@[2] == 'h' && "-h"@.len() == 2 && "dalle3"@[0]
        == 'd' && "dalle2"@[0] == 'd' && "--model"@[0] == '-');
    crate::image_model::lemma_models_are_distinct();
    let words = seq!["image"@] + description + seq![model_flag(), model.flag_name()];
    let rest = words.skip(1);
    let at: int = description.len() as int;
    assert(rest =~= description + seq![model_flag(), model.flag_name()]);
    assert(!asks_help(rest)) by {
        assert forall|i: int| 0 <= i < rest.len() implies !is_help_flag(#[trigger] rest[i]) by {
            if i < at {
                assert(rest[i] == description[i]);
            }
        }
    }
    assert(first_position(rest, model_flag()) == at) by {
        assert forall|j: int| 0 <= j < at implies rest[j] != model_flag() by {
            assert(rest[j] == description[j]);
        }
        lemma_first_position_is(rest, model_flag(), at);
        lemma_first_position(rest, model_flag());
    }
    assert(rest[at] == model_flag());
    assert(rest.skip(at + 2) =~= Seq::<Seq<char>>::empty());
    assert(rest.take(at) + rest.skip(at + 2) =~= description);
}

fn word_is_help_flag(word: &String) -> (flag: bool)
    ensures
        flag == is_help_flag(word@),
{
    is_word(word, "-h") || is_word(word, "--help")
}

fn word_is_command_name(word: &String) -> (name: bool)
    ensures
        name == is_command_name(word@),
{
    is_word(word, "chat") || is_word(word, "init") || is_word(word, "image") || is_word(
        word,
        "vision",
    )
}

fn has_help_flag(words: &[String]) -> (found: bool)
    ensures
        found == asks_help(words.deep_view()),
{
    let mut i: usize = 0;
    while i < words.len()
        invariant
            i <= words.len(),
            forall|j: int| 0 <= j < i ==> !is_help_flag(#[trigger] words.deep_view()[j]),
        decreases words.len() - i,
    {
        if word_is_help_flag(&words[i]) {
            assert(is_help_flag(words.deep_view()[i as int]));
            return true;
        }
        i += 1;
    }
    false
}

fn parse_image(rest: &[String]) -> (parsed: Parsed)
    ensures
        parsed@ == image_spec(rest.deep_view()),
{
    let at: usize = find_word(rest, "--model");
    proof {
        lemma_first_position(rest.deep_view(), model_flag());
    }
    if at == rest.len() {
        if rest.len() == 0 {
            Parsed::NoMatch
        } else {
            Parsed::Matched(Command::Image { description: join_words(rest, " "), model: None })
        }
    } else if at + 1 == rest.len() {
        Parsed::NoMatch
    } else {
        match ImageModel::from_flag(rest[at + 1].as_str()) {
            None => Parsed::NoMatch,
            Some(model) => {
                let after = words_from(rest, at + 2);
                proof {
                    lemma_first_position(after.deep_view(), model_flag());
                }
                if find_word(after, "--model") < after.len() {
                    Parsed::NoMatch
                } else {
                    let words = without_pair(rest, at);
                    if words.len() == 0 {
                        Parsed::NoMatch
                    } else {
                        Parsed::Matched(
                            Command::Image {
                                description: join_words(words.as_slice(), " "),
                                model: Some(model),
                            },
                        )
                    }
                }
            },
        }
    }
}

/// Matches the words against the grammar. The words are those of a message
/// without the leading mention of the bot.
pub fn parse(words: &[String]) -> (parsed: Parsed)
    ensures
        parsed@ == parse_spec(words.deep_view()),
{
    if words.len() == 0 {
        return Parsed::NoMatch;
    }
    let name = &words[0];
    let rest = words_from(words, 1);
    if word_is_help_flag(name) {
        Parsed::HelpRequested
    } else if is_word(name, "help") {
        if words.len() == 1 || (words.len() == 2 && word_is_command_name(&words[1])) {
            Parsed::HelpRequested
        } else {
            Parsed::NoMatch
        }
    } else if !word_is_command_name(name) {
        Parsed::NoMatch
    } else if has_help_flag(rest) {
        Parsed::HelpRequested
    } else if is_word(name, "chat") {
        if rest.len() == 0 {
            Parsed::NoMatch
        } else {
            Parsed::Matched(Command::Chat { message: join_words(rest, " ") })
        }
    } else if is_word(name, "init") {
        if rest.len() == 0 {
            Parsed::NoMatch
        } else {
            Parsed::Matched(Command::Init { description: join_words(rest, " ") })
        }
    } else if is_word(name, "image") {
        parse_image(rest)
    } else {
        if rest.len() < 2 {
            Parsed::NoMatch
        } else {
            Parsed::Matched(
                Command::Vision {
                    link: rest[0].clone(),
                    question: join_words(words_from(rest, 1), " "),
                },
            )
        }
    }
}

/// Turns what the grammar found into the command to carry out: words that
/// match nothing become an implicit `chat` of all of them written together,
/// and a request for help becomes the error.
pub fn resolve(parsed: Parsed, words: &[String]) -> (resolved: Result<Command, ParseError>)
    ensures
        resolved_view(resolved) == (match parsed@ {
            ParsedView::Matched(command) => Ok::<CommandView, ParseError>(command),
            ParsedView::HelpRequested => Err(ParseError::HelpRequested),
            ParsedView::NoMatch => Ok(
                CommandView::Chat { message: joined(words.deep_view(), Seq::empty()) },
            ),
        }),
{
    match parsed {
        Parsed::Matched(command) => Ok(command),
        Parsed::HelpRequested => Err(ParseError::HelpRequested),
        Parsed::NoMatch => {
            proof {
                reveal_strlit("");
                assert(""@ =~= Seq::<char>::empty());
            }
            Ok(Command::Chat { message: join_words(words, "") })
        },
    }
}

/// Reads a command from the words of a message, without the leading mention
/// of the bot. Fails exactly where the words ask for help.
pub fn parse_command(words: &[String]) -> (resolved: Result<Command, ParseError>)
    ensures
        resolved_view(resolved) == resolve_spec(words.deep_view()),
{
    let parsed = parse(words);
    resolve(parsed, words)
}

} // verus!
