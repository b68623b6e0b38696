//! The requests that go out to the gateway, and what each command puts in
//! them.

use crate::image_model::ImageModel;
use vstd::prelude::*;
use vstd::string::StringExecFns;

verus! {

/// The name that tags the system message, and under which the bot itself
/// writes on the chat platform.
pub const BOT_NAME: &'static str = "ChatPete";

/// The file name under which a generated image is attached to the reply.
pub const IMAGE_FILENAME: &'static str = "generated_image.png";

/// Who speaks in a message of a conversation.
#[derive(Clone, Copy, Debug, PartialEq, Eq, Structural)]
pub enum Role {
    System,
    User,
}

/// One part of a message that mixes text and images.
#[derive(Clone, Debug, PartialEq, Eq)]
pub enum Part {
    /// A piece of text.
    Text { text: String },
    /// A reference to an image.
    ImageUrl { url: String },
}

/// A [`Part`], with its text as a sequence of characters.
pub enum PartView {
    Text { text: Seq<char> },
    ImageUrl { url: Seq<char> },
}

impl View for Part {
    type V = PartView;

    open spec fn view(&self) -> PartView {
        match self {
            Part::Text { text } => PartView::Text { text: text@ },
            Part::ImageUrl { url } => PartView::ImageUrl { url: url@ },
        }
    }
}

/// What a message says.
#[derive(Clone, Debug, PartialEq, Eq)]
pub enum Content {
    /// Plain text.
    Text(String),
    /// Text and images, part by part.
    Parts(Vec<Part>),
}

/// A [`Content`], with its texts as sequences of characters.
pub enum ContentView {
    Text(Seq<char>),
    Parts(Seq<PartView>),
}

impl View for Content {
    type V = ContentView;

    open spec fn view(&self) -> ContentView {
        match self {
            Content::Text(text) => ContentView::Text(text@),
            Content::Parts(parts) => ContentView::Parts(parts@.map_values(|part: Part| part@)),
        }
    }
}

/// One message of a conversation.
#[derive(Clone, Debug, PartialEq, Eq)]
pub struct ChatMessage {
    pub role: Role,
    pub content: Content,
    /// The name of the speaker, where one is known.
    pub name: Option<String>,
}

/// A [`ChatMessage`], with its texts as sequences of characters.
pub struct ChatMessageView {
    pub role: Role,
    pub content: ContentView,
    pub name: Option<Seq<char>>,
}

impl View for ChatMessage {
    type V = ChatMessageView;

    open spec fn view(&self) -> ChatMessageView {
        ChatMessageView {
            role: self.role,
            content: self.content@,
            name: self.name.deep_view(),
        }
    }
}

/// A request for a completion: the model and the conversation so far.
#[derive(Clone, Debug, PartialEq, Eq)]
pub struct ChatRequest {
    pub model: String,
    pub messages: Vec<ChatMessage>,
}

/// A [`ChatRequest`], with its texts as sequences of characters.
pub struct ChatRequestView {
    pub model: Seq<char>,
    pub messages: Seq<ChatMessageView>,
}

impl View for ChatRequest {
    type V = ChatRequestView;

    open spec fn view(&self) -> ChatRequestView {
        ChatRequestView {
            model: self.model@,
            messages: self.messages@.map_values(|message: ChatMessage| message@),
        }
    }
}

/// A request for an image: the model and what the image shall show.
#[derive(Clone, Debug, PartialEq, Eq)]
pub struct ImageRequest {
    pub model: String,
    pub prompt: String,
}

/// An [`ImageRequest`], with its texts as sequences of characters.
pub struct ImageRequestView {
    pub model: Seq<char>,
    pub prompt: Seq<char>,
}

impl View for ImageRequest {
    type V = ImageRequestView;

    open spec fn view(&self) -> ImageRequestView {
        ImageRequestView { model: self.model@, prompt: self.prompt@ }
    }
}

/// The request of a `chat`: the persona description as the system message,
/// tagged with the bot's name, then the user's message, tagged with the
/// author's identity where there is one.
pub open spec fn chat_request_spec(
    model: Seq<char>,
    persona: Seq<char>,
    message: Seq<char>,
    author: Option<Seq<char>>,
) -> ChatRequestView {
    ChatRequestView {
        model,
        messages: seq![
            ChatMessageView {
                role: Role::System,
                content: ContentView::Text(persona),
                name: Some(BOT_NAME@),
            },
            ChatMessageView { role: Role::User, content: ContentView::Text(message), name: author },
        ],
    }
}

/// The request of a `vision`: one user message of two parts, the question as
/// text and the link as an image.
pub open spec fn vision_request_spec(
    model: Seq<char>,
    link: Seq<char>,
    question: Seq<char>,
    author: Option<Seq<char>>,
) -> ChatRequestView {
    ChatRequestView {
        model,
        messages: seq![
            ChatMessageView {
                role: Role::User,
                content: ContentView::Parts(
                    seq![PartView::Text { text: question }, PartView::ImageUrl { url: link }],
                ),
                name: author,
            },
        ],
    }
}

/// The request of an `image`.
pub open spec fn image_request_spec(description: Seq<char>, model: ImageModel) -> ImageRequestView {
    ImageRequestView { model: model.api_name(), prompt: description }
}

/// The caption under a generated image, which names the model.
pub open spec fn caption_spec(model: ImageModel) -> Seq<char> {
    "Generated image ("@ + model.api_name() + ")"@
}

/// Builds the request of a `chat`.
pub fn chat_request(model: &str, persona: &str, message: String, author: Option<String>) -> (request:
    ChatRequest)
    ensures
        request@ == chat_request_spec(model@, persona@, message@, author.deep_view()),
{
    let system = ChatMessage {
        role: Role::System,
        content: Content::Text(String::from_str(persona)),
        name: Some(String::from_str(BOT_NAME)),
    };
    let user = ChatMessage { role: Role::User, content: Content::Text(message), name: author };
    let mut messages: Vec<ChatMessage> = Vec::new();
    messages.push(system);
    messages.push(user);
    let request = ChatRequest { model: String::from_str(model), messages };
    proof {
        assert(request@.messages =~= chat_request_spec(
            model@,
            persona@,
            message@,
            author.deep_view(),
        ).messages);
    }
    request
}

/// Builds the request of a `vision`.
pub fn vision_request(model: &str, link: String, question: String, author: Option<String>) -> (request:
    ChatRequest)
    ensures
        request@ == vision_request_spec(model@, link@, question@, author.deep_view()),
{
    let mut parts: Vec<Part> = Vec::new();
    parts.push(Part::Text { text: question });
    parts.push(Part::ImageUrl { url: link });
    let content = Content::Parts(parts);
    proof {
        assert(content@ == ContentView::Parts(
            seq![PartView::Text { text: question@ }, PartView::ImageUrl { url: link@ }],
        )) by {
            assert(parts@.map_values(|part: Part| part@) =~= seq![
                PartView::Text { text: question@ },
                PartView::ImageUrl { url: link@ },
            ]);
        }
    }
    let user = ChatMessage { role: Role::User, content, name: author };
    let mut messages: Vec<ChatMessage> = Vec::new();
    messages.push(user);
    let request = ChatRequest { model: String::from_str(model), messages };
    proof {
        assert(request@.messages =~= vision_request_spec(
            model@,
            link@,
            question@,
            author.deep_view(),
        ).messages);
    }
    request
}

/// Builds the request of an `image`.
pub fn image_request(description: String, model: ImageModel) -> (request: ImageRequest)
    ensures
        request@ == image_request_spec(description@, model),
{
    ImageRequest { model: model.api_value(), prompt: description }
}

/// Writes the caption under a generated image.
pub fn image_caption(model: ImageModel) -> (caption: String)
    ensures
        caption@ == caption_spec(model),
{
    let mut caption = String::from_str("Generated image (");
    let name = model.api_value();
    caption.append(name.as_str());
    caption.append(")");
    caption
}

} // verus!
