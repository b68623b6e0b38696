//! The handler of one inbound message, as a machine of stages.
//!
//! Serving a message alternates decisions with work on the outside: asking
//! the platform whether the bot was mentioned, calling the gateway, fetching
//! an image, posting the reply. The decisions are [`Handler::step`]. The
//! caller starts a message at [`Stage::Ready`] with [`Event::Received`],
//! carries out the [`Action`] that a step returns, and reports what came of
//! it as the next [`Event`], until a step returns [`Action::Nothing`].
//!
//! The only state that outlives a message is the persona description, which
//! `init` replaces and `chat` reads.

use crate::author::{author_identity, identity_of};
use crate::command::{parse_command, resolve_spec, Command, CommandView, ParseError};
use crate::gateway::{
    first_completion, first_completion_spec, first_image, first_image_spec, GatewayError,
};
use crate::image_model::ImageModel;
use crate::request::{
    caption_spec, chat_request, chat_request_spec, image_caption, image_request,
    image_request_spec, vision_request, vision_request_spec, ChatRequest, ChatRequestView,
    ContentView, ImageRequest, ImageRequestView, Role, BOT_NAME, IMAGE_FILENAME,
};
use crate::tokenizer::{shlex_split, tokenize, tokens_view, words_or_error, TokenizeError};
use crate::words::{is_word, words_from};
use vstd::prelude::*;
use vstd::string::StringExecFns;

verus! {

/// The persona description that a handler starts with.
pub const DEFAULT_DESCRIPTION: &'static str = "You are a funny bot in discord channel";

/// The reply to an `init`.
pub const ACKNOWLEDGMENT: &'static str = "Ok.";

/// How far the handling of one message has come.
#[derive(Clone, Copy, Debug, PartialEq, Eq, Structural)]
pub enum Stage {
    /// Nothing has happened yet.
    Ready,
    /// The platform is being asked whether the message mentions the bot.
    AwaitingMention,
    /// The gateway is completing a conversation.
    AwaitingCompletion,
    /// The gateway is generating an image with the given model.
    AwaitingImages { model: ImageModel },
    /// The image, generated with the given model, is being fetched.
    AwaitingBytes { model: ImageModel },
    /// The reply is being posted.
    Replying,
    /// The message is done with.
    Finished,
}

/// What happened on the outside.
#[derive(Clone, Debug, PartialEq, Eq)]
pub enum Event {
    /// A message arrived, written under the given user name.
    Received { author_name: String },
    /// The platform said whether the message mentions the bot. With the
    /// answer come the text of the message and the display name of its
    /// author, where the author has one.
    Mention { mentioned: bool, content: String, display_name: Option<String> },
    /// The gateway answered a conversation: for each completion, its text
    /// where it has one.
    Completions { choices: Vec<Option<String>> },
    /// The gateway answered an image request: the link of each image.
    Images { urls: Vec<String> },
    /// The image was fetched.
    Bytes { data: Vec<u8> },
    /// The reply was posted.
    Delivered,
    /// The work on the outside failed, for the given reason.
    Failure { reason: String },
}

/// An [`Event`], with its texts as sequences of characters.
pub enum EventView {
    Received { author_name: Seq<char> },
    Mention { mentioned: bool, content: Seq<char>, display_name: Option<Seq<char>> },
    Completions { choices: Seq<Option<Seq<char>>> },
    Images { urls: Seq<Seq<char>> },
    Bytes { data: Seq<u8> },
    Delivered,
    Failure { reason: Seq<char> },
}

impl View for Event {
    type V = EventView;

    open spec fn view(&self) -> EventView {
        match self {
            Event::Received { author_name } => EventView::Received { author_name: author_name@ },
            Event::Mention { mentioned, content, display_name } => EventView::Mention {
                mentioned: *mentioned,
                content: content@,
                display_name: display_name.deep_view(),
            },
            Event::Completions { choices } => EventView::Completions {
                choices: choices.deep_view(),
            },
            Event::Images { urls } => EventView::Images { urls: urls.deep_view() },
            Event::Bytes { data } => EventView::Bytes { data: data@ },
            Event::Delivered => EventView::Delivered,
            Event::Failure { reason } => EventView::Failure { reason: reason@ },
        }
    }
}

/// What the caller is to do next.
#[derive(Clone, Debug, PartialEq, Eq)]
pub enum Action {
    /// Nothing: the handling of the message ends here.
    Nothing,
    /// Ask the platform whether the message mentions the bot.
    CheckMention,
    /// Post the text as a reply.
    Say { text: String },
    /// Send the conversation to the gateway.
    Complete { request: ChatRequest },
    /// Send the image request to the gateway.
    Generate { request: ImageRequest },
    /// Fetch what is at the link.
    Fetch { url: String },
    /// Post the file as a reply, under the given name and with the caption.
    SendFile { data: Vec<u8>, filename: String, caption: String },
}

/// An [`Action`], with its texts as sequences of characters.
pub enum ActionView {
    Nothing,
    CheckMention,
    Say { text: Seq<char> },
    Complete { request: ChatRequestView },
    Generate { request: ImageRequestView },
    Fetch { url: Seq<char> },
    SendFile { data: Seq<u8>, filename: Seq<char>, caption: Seq<char> },
}

impl View for Action {
    type V = ActionView;

    open spec fn view(&self) -> ActionView {
        match self {
            Action::Nothing => ActionView::Nothing,
            Action::CheckMention => ActionView::CheckMention,
            Action::Say { text } => ActionView::Say { text: text@ },
            Action::Complete { request } => ActionView::Complete { request: request@ },
            Action::Generate { request } => ActionView::Generate { request: request@ },
            Action::Fetch { url } => ActionView::Fetch { url: url@ },
            Action::SendFile { data, filename, caption } => ActionView::SendFile {
                data: data@,
                filename: filename@,
                caption: caption@,
            },
        }
    }
}

/// What a handler holds: the two configured models and the persona
/// description.
pub struct HandlerView {
    pub chat_model: Seq<char>,
    pub default_image_model: ImageModel,
    pub description: Seq<char>,
}

/// What a step comes to: the handler after it, the next stage, and the action
/// for the caller.
pub struct Outcome {
    pub handler: HandlerView,
    pub stage: Stage,
    pub action: ActionView,
}

/// The words of a message after the leading mention of the bot.
pub open spec fn arguments_of(words: Seq<Seq<char>>) -> Seq<Seq<char>> {
    if words.len() == 0 {
        words
    } else {
        words.skip(1)
    }
}

/// The image model of an `image`: the one picked with `--model`, else the
/// configured default.
pub open spec fn model_or_default(picked: Option<ImageModel>, default: ImageModel) -> ImageModel {
    match picked {
        Some(model) => model,
        None => default,
    }
}

/// What the handler does with a command.
pub open spec fn dispatch_spec(
    handler: HandlerView,
    command: CommandView,
    author: Option<Seq<char>>,
) -> Outcome {
    match command {
        CommandView::Chat { message } => Outcome {
            handler,
            stage: Stage::AwaitingCompletion,
            action: ActionView::Complete {
                request: chat_request_spec(
                    handler.chat_model,
                    handler.description,
                    message,
                    author,
                ),
            },
        },
        CommandView::Init { description } => Outcome {
            handler: HandlerView { description, ..handler },
            stage: Stage::Replying,
            action: ActionView::Say { text: ACKNOWLEDGMENT@ },
        },
        CommandView::Image { description, model } => Outcome {
            handler,
            stage: Stage::AwaitingImages {
                model: model_or_default(model, handler.default_image_model),
            },
            action: ActionView::Generate {
                request: image_request_spec(
                    description,
                    model_or_default(model, handler.default_image_model),
                ),
            },
        },
        CommandView::Vision { link, question } => Outcome {
            handler,
            stage: Stage::AwaitingCompletion,
            action: ActionView::Complete {
                request: vision_request_spec(handler.chat_model, link, question, author),
            },
        },
    }
}

/// The end of a message with an error reply.
pub open spec fn refusal(handler: HandlerView, text: Seq<char>) -> Outcome {
    Outcome { handler, stage: Stage::Finished, action: ActionView::Say { text } }
}

/// What the handler does with the words of a message that mentions the bot:
/// an error reply where the text could not be split or the words ask for
/// help, else what the command asks for.
pub open spec fn respond_spec(
    handler: HandlerView,
    tokens: Result<Seq<Seq<char>>, TokenizeError>,
    author: Option<Seq<char>>,
) -> Outcome {
    match tokens {
        Err(e) => refusal(handler, e.message_text()),
        Ok(words) => match resolve_spec(arguments_of(words)) {
            Err(e) => refusal(handler, e.message_text()),
            Ok(command) => dispatch_spec(handler, command, author),
        },
    }
}

/// An event that the stage does not await changes nothing.
pub open spec fn ignored(handler: HandlerView, stage: Stage) -> Outcome {
    Outcome { handler, stage, action: ActionView::Nothing }
}

/// The end of a message with nothing more to do.
pub open spec fn done(handler: HandlerView) -> Outcome {
    Outcome { handler, stage: Stage::Finished, action: ActionView::Nothing }
}

/// The step of the handler at each stage and for each event.
pub open spec fn step_spec(handler: HandlerView, stage: Stage, event: EventView) -> Outcome {
    match (stage, event) {
        (Stage::Ready, EventView::Received { author_name }) => if author_name == BOT_NAME@ {
            done(handler)
        } else {
            Outcome { handler, stage: Stage::AwaitingMention, action: ActionView::CheckMention }
        },
        (Stage::AwaitingMention, EventView::Mention { mentioned, content, display_name }) => if mentioned {
            respond_spec(
                handler,
                words_or_error(shlex_split(content)),
                match display_name {
                    Some(name) => Some(identity_of(name)),
                    None => None,
                },
            )
        } else {
            done(handler)
        },
        (Stage::AwaitingCompletion, EventView::Completions { choices }) => match first_completion_spec(
            choices,
        ) {
            Ok(text) => Outcome { handler, stage: Stage::Replying, action: ActionView::Say { text } },
            Err(e) => refusal(handler, e.message_text()),
        },
        (Stage::AwaitingImages { model }, EventView::Images { urls }) => match first_image_spec(
            urls,
        ) {
            Ok(url) => Outcome {
                handler,
                stage: Stage::AwaitingBytes { model },
                action: ActionView::Fetch { url },
            },
            Err(e) => refusal(handler, e.message_text()),
        },
        (Stage::AwaitingBytes { model }, EventView::Bytes { data }) => Outcome {
            handler,
            stage: Stage::Replying,
            action: ActionView::SendFile {
                data,
                filename: IMAGE_FILENAME@,
                caption: caption_spec(model),
            },
        },
        (Stage::Replying, EventView::Delivered) => done(handler),
        (Stage::Ready, EventView::Failure { reason }) => ignored(handler, stage),
        (Stage::Finished, EventView::Failure { reason }) => ignored(handler, stage),
        (_, EventView::Failure { reason }) => refusal(handler, reason),
        _ => ignored(handler, stage),
    }
}

/// How many steps with an action the handling of a message can still take
/// from a stage.
pub open spec fn steps_left(stage: Stage) -> nat {
    match stage {
        Stage::Ready => 5,
        Stage::AwaitingMention => 4,
        Stage::AwaitingImages { model } => 3,
        Stage::AwaitingCompletion => 2,
        Stage::AwaitingBytes { model } => 2,
        Stage::Replying => 1,
        Stage::Finished => 0,
    }
}

/// Every step that asks the caller for work brings the message nearer to its
/// end, so the handling of a message takes five such steps at most. A step
/// that asks for nothing leaves the stage as it is or ends the message, and
/// a finished message asks for nothing more.
pub proof fn lemma_step_advances(handler: HandlerView, stage: Stage, event: EventView)
    ensures
        step_spec(handler, stage, event).action !is Nothing ==> steps_left(
            step_spec(handler, stage, event).stage,
        ) < steps_left(stage),
        step_spec(handler, stage, event).action is Nothing ==> step_spec(
            handler,
            stage,
            event,
        ).stage == stage || step_spec(handler, stage, event).stage == Stage::Finished,
        stage == Stage::Finished ==> step_spec(handler, stage, event) == ignored(handler, stage),
{
}

/// A message that the bot wrote itself is dropped at once: nothing is asked
/// of the platform or the gateway, and the handler stays as it is.
pub proof fn lemma_own_message_is_dropped(handler: HandlerView)
    ensures
        step_spec(handler, Stage::Ready, EventView::Received { author_name: BOT_NAME@ }) == done(
            handler,
        ),
{
}

/// A step never touches the configured models, and changes the persona
/// description only where the message is an `init`: then the description is
/// the one that the `init` gives.
pub proof fn lemma_only_init_writes(handler: HandlerView, stage: Stage, event: EventView)
    ensures
        step_spec(handler, stage, event).handler.chat_model == handler.chat_model,
        step_spec(handler, stage, event).handler.default_image_model
            == handler.default_image_model,
        step_spec(handler, stage, event).handler != handler ==> {
            &&& stage == Stage::AwaitingMention
            &&& event matches EventView::Mention { mentioned, content, display_name }
            &&& mentioned
            &&& shlex_split(content) matches Some(words)
            &&& resolve_spec(arguments_of(words)) matches Ok(CommandView::Init { description })
            &&& step_spec(handler, stage, event).handler.description == description
        },
{
}

/// After an `init`, the system message of the next `chat` carries exactly
/// the description that the `init` gave.
pub proof fn lemma_chat_reads_last_init(
    handler: HandlerView,
    description: Seq<char>,
    message: Seq<char>,
    init_author: Option<Seq<char>>,
    chat_author: Option<Seq<char>>,
)
    ensures
        ({
            let told = dispatch_spec(handler, CommandView::Init { description }, init_author).handler;
            let asked = dispatch_spec(told, CommandView::Chat { message }, chat_author);
            &&& asked.handler == told
            &&& asked.action matches ActionView::Complete { request }
            &&& request == chat_request_spec(handler.chat_model, description, message, chat_author)
            &&& request.messages[0].role == Role::System
            &&& request.messages[0].content == ContentView::Text(description)
        }),
{
}

/// Two `init`s leave the description of the one that was carried out last,
/// whole, whichever that is: the last writer wins and nothing of the other
/// stays. A `chat` carried out between the two reads the description of the
/// first, whole.
pub proof fn lemma_last_init_wins(
    handler: HandlerView,
    first: Seq<char>,
    second: Seq<char>,
    message: Seq<char>,
    author: Option<Seq<char>>,
)
    ensures
        ({
            let once = dispatch_spec(handler, CommandView::Init { description: first }, author).handler;
            let between = dispatch_spec(once, CommandView::Chat { message }, author);
            let twice = dispatch_spec(
                between.handler,
                CommandView::Init { description: second },
                author,
            ).handler;
            &&& once == HandlerView { description: first, ..handler }
            &&& between.action == ActionView::Complete {
                request: chat_request_spec(handler.chat_model, first, message, author),
            }
            &&& twice == HandlerView { description: second, ..handler }
        }),
{
}

/// Work that fails on the outside is answered with the reason of the failure
/// and ends the message: no failure goes unanswered but that of the answer
/// itself, and nothing is tried a second time.
pub proof fn lemma_failures_are_answered(handler: HandlerView, stage: Stage, reason: Seq<char>)
    ensures
        stage != Stage::Ready && stage != Stage::Finished ==> step_spec(
            handler,
            stage,
            EventView::Failure { reason },
        ) == refusal(handler, reason),
        stage == Stage::Ready || stage == Stage::Finished ==> step_spec(
            handler,
            stage,
            EventView::Failure { reason },
        ) == ignored(handler, stage),
{
}

/// A file is posted only once the image has been fetched, and an image is
/// fetched only from the first link of an answer that holds one. An answer
/// without images ends the message with the error as the reply.
pub proof fn lemma_no_image_no_file(handler: HandlerView, stage: Stage, event: EventView)
    ensures
        step_spec(handler, stage, event).action is SendFile ==> stage is AwaitingBytes
            && event is Bytes,
        step_spec(handler, stage, event).action is Fetch ==> {
            &&& stage is AwaitingImages
            &&& event matches EventView::Images { urls }
            &&& urls.len() > 0
            &&& step_spec(handler, stage, event).action == ActionView::Fetch { url: urls[0] }
        },
        stage is AwaitingImages && event == (EventView::Images { urls: Seq::empty() })
            ==> step_spec(handler, stage, event) == refusal(
            handler,
            GatewayError::NoImage.message_text(),
        ),
{
}

/// The state of the bot that outlives a message: the configured models and
/// the persona description.
pub struct Handler {
    chat_model: String,
    default_image_model: ImageModel,
    description: String,
}

impl View for Handler {
    type V = HandlerView;

    closed spec fn view(&self) -> HandlerView {
        HandlerView {
            chat_model: self.chat_model@,
            default_image_model: self.default_image_model,
            description: self.description@,
        }
    }
}

impl Handler {
    /// Makes a handler that sends conversations to the given model, draws
    /// with `dall-e-2` unless told otherwise, and starts with the default
    /// persona description.
    pub fn new(chat_model: &str) -> (handler: Handler)
        ensures
            handler@ == (HandlerView {
                chat_model: chat_model@,
                default_image_model: ImageModel::Dalle2,
                description: DEFAULT_DESCRIPTION@,
            }),
    {
        Handler {
            chat_model: String::from_str(chat_model),
            default_image_model: ImageModel::Dalle2,
            description: String::from_str(DEFAULT_DESCRIPTION),
        }
    }

    /// Sets the image model for an `image` without `--model`.
    pub fn with_default_image_model(self, model: ImageModel) -> (handler: Handler)
        ensures
            handler@ == (HandlerView { default_image_model: model, ..self@ }),
    {
        Handler {
            chat_model: self.chat_model,
            default_image_model: model,
            description: self.description,
        }
    }

    /// Returns the persona description as it stands.
    pub fn description(&self) -> (description: String)
        ensures
            description@ == self@.description,
    {
        self.description.clone()
    }

    /// Carries out a command as far as the handler can by itself.
    pub fn dispatch(&mut self, command: Command, author: Option<String>) -> (next: (Stage, Action))
        ensures
            final(self)@ == dispatch_spec(old(self)@, command@, author.deep_view()).handler,
            next.0 == dispatch_spec(old(self)@, command@, author.deep_view()).stage,
            next.1@ == dispatch_spec(old(self)@, command@, author.deep_view()).action,
    {
        match command {
            Command::Chat { message } => {
                let request = chat_request(
                    self.chat_model.as_str(),
                    self.description.as_str(),
                    message,
                    author,
                );
                (Stage::AwaitingCompletion, Action::Complete { request })
            },
            Command::Init { description } => {
                self.description = description;
                (Stage::Replying, Action::Say { text: String::from_str(ACKNOWLEDGMENT) })
            },
            Command::Image { description, model } => {
                let model = match model {
                    Some(picked) => picked,
                    None => self.default_image_model,
                };
                let request = image_request(description, model);
                (Stage::AwaitingImages { model }, Action::Generate { request })
            },
            Command::Vision { link, question } => {
                let request = vision_request(self.chat_model.as_str(), link, question, author);
                (Stage::AwaitingCompletion, Action::Complete { request })
            },
        }
    }

    /// Answers the words of a message that mentions the bot. `tokens` is what
    /// the tokenizer made of the text, `author` the identity of the author.
    pub fn respond(
        &mut self,
        tokens: Result<Vec<String>, TokenizeError>,
        author: Option<String>,
    ) -> (next: (Stage, Action))
        ensures
            final(self)@ == respond_spec(old(self)@, tokens_view(tokens), author.deep_view()).handler,
            next.0 == respond_spec(old(self)@, tokens_view(tokens), author.deep_view()).stage,
            next.1@ == respond_spec(old(self)@, tokens_view(tokens), author.deep_view()).action,
    {
        match tokens {
            Err(e) => (Stage::Finished, Action::Say { text: e.message() }),
            Ok(words) => {
                let arguments = words_from(words.as_slice(), 1);
                match parse_command(arguments) {
                    Err(e) => (Stage::Finished, Action::Say { text: e.message() }),
                    Ok(command) => self.dispatch(command, author),
                }
            },
        }
    }

    /// Takes the handling of a message one step further: decides, from the
    /// stage and from what happened, the next stage and what the caller is
    /// to do.
    pub fn step(&mut self, stage: Stage, event: Event) -> (next: (Stage, Action))
        ensures
            final(self)@ == step_spec(old(self)@, stage, event@).handler,
            next.0 == step_spec(old(self)@, stage, event@).stage,
            next.1@ == step_spec(old(self)@, stage, event@).action,
    {
        match event {
            Event::Received { author_name } => match stage {
                Stage::Ready => if is_word(&author_name, BOT_NAME) {
                    (Stage::Finished, Action::Nothing)
                } else {
                    (Stage::AwaitingMention, Action::CheckMention)
                },
                _ => (stage, Action::Nothing),
            },
            Event::Mention { mentioned, content, display_name } => match stage {
                Stage::AwaitingMention => if mentioned {
                    let tokens = tokenize(content.as_str());
                    let author = author_identity(&display_name);
                    self.respond(tokens, author)
                } else {
                    (Stage::Finished, Action::Nothing)
                },
                _ => (stage, Action::Nothing),
            },
            Event::Completions { choices } => match stage {
                Stage::AwaitingCompletion => match first_completion(&choices) {
                    Ok(text) => (Stage::Replying, Action::Say { text }),
                    Err(e) => (Stage::Finished, Action::Say { text: e.message() }),
                },
                _ => (stage, Action::Nothing),
            },
            Event::Images { urls } => match stage {
                Stage::AwaitingImages { model } => match first_image(&urls) {
                    Ok(url) => (Stage::AwaitingBytes { model }, Action::Fetch { url }),
                    Err(e) => (Stage::Finished, Action::Say { text: e.message() }),
                },
                _ => (stage, Action::Nothing),
            },
            Event::Bytes { data } => match stage {
                Stage::AwaitingBytes { model } => (
                    Stage::Replying,
                    Action::SendFile {
                        data,
                        filename: String::from_str(IMAGE_FILENAME),
                        caption: image_caption(model),
                    },
                ),
                _ => (stage, Action::Nothing),
            },
            Event::Delivered => match stage {
                Stage::Replying => (Stage::Finished, Action::Nothing),
                _ => (stage, Action::Nothing),
            },
            Event::Failure { reason } => match stage {
                Stage::Ready => (stage, Action::Nothing),
                Stage::Finished => (stage, Action::Nothing),
                _ => (Stage::Finished, Action::Say { text: reason }),
            },
        }
    }
}

} // verus!
