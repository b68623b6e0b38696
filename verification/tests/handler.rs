use chatpete::command::{Command, USAGE};
use chatpete::handler::{Action, Event, Handler, Stage, ACKNOWLEDGMENT, DEFAULT_DESCRIPTION};
use chatpete::image_model::ImageModel;
use chatpete::request::{chat_request, image_request, vision_request};
use chatpete::tokenizer::TokenizeError;

fn received(author_name: &str) -> Event {
    Event::Received { author_name: author_name.to_string() }
}

fn mention(content: &str, display_name: Option<&str>) -> Event {
    Event::Mention {
        mentioned: true,
        content: content.to_string(),
        display_name: display_name.map(|n| n.to_string()),
    }
}

fn say(text: &str) -> Action {
    Action::Say { text: text.to_string() }
}

/// Delivers a message that mentions the bot and returns what the handler
/// asks for after the mention was confirmed.
fn deliver(handler: &mut Handler, content: &str, display_name: Option<&str>) -> (Stage, Action) {
    assert_eq!(
        handler.step(Stage::Ready, received("someone")),
        (Stage::AwaitingMention, Action::CheckMention)
    );
    handler.step(Stage::AwaitingMention, mention(content, display_name))
}

#[test]
fn new_handler_has_the_default_description() {
    let handler = Handler::new("gpt-4o");
    assert_eq!(handler.description(), "You are a funny bot in discord channel");
    assert_eq!(handler.description(), DEFAULT_DESCRIPTION);
}

#[test]
fn own_messages_are_dropped() {
    let mut handler = Handler::new("gpt-4o");
    assert_eq!(handler.step(Stage::Ready, received("ChatPete")), (Stage::Finished, Action::Nothing));
}

#[test]
fn messages_of_others_are_checked_for_a_mention() {
    let mut handler = Handler::new("gpt-4o");
    assert_eq!(
        handler.step(Stage::Ready, received("chatpete")),
        (Stage::AwaitingMention, Action::CheckMention)
    );
}

#[test]
fn messages_without_mention_are_dropped() {
    let mut handler = Handler::new("gpt-4o");
    let event = Event::Mention {
        mentioned: false,
        content: "<@42> init You are a pirate.".to_string(),
        display_name: None,
    };
    assert_eq!(handler.step(Stage::AwaitingMention, event), (Stage::Finished, Action::Nothing));
    assert_eq!(handler.description(), DEFAULT_DESCRIPTION);
}

#[test]
fn chat_sends_persona_and_message() {
    let mut handler = Handler::new("gpt-4o");
    let next = deliver(&mut handler, "<@42> chat what is 2+2?", Some("Zoë 7"));
    assert_eq!(
        next,
        (
            Stage::AwaitingCompletion,
            Action::Complete {
                request: chat_request(
                    "gpt-4o",
                    DEFAULT_DESCRIPTION,
                    "what is 2+2?".to_string(),
                    Some("Zoe".to_string())
                )
            }
        )
    );
}

#[test]
fn init_then_chat_sends_the_new_description() {
    let mut handler = Handler::new("gpt-4o");
    let told = deliver(&mut handler, "<@42> init \"You are a pirate.\"", None);
    assert_eq!(told, (Stage::Replying, say("Ok.")));
    assert_eq!(handler.step(Stage::Replying, Event::Delivered), (Stage::Finished, Action::Nothing));
    assert_eq!(handler.description(), "You are a pirate.");

    let asked = deliver(&mut handler, "<@42> chat hello", None);
    match asked {
        (Stage::AwaitingCompletion, Action::Complete { request }) => {
            assert_eq!(request.messages.len(), 2);
            assert_eq!(request.messages[0].role, chatpete::request::Role::System);
            assert_eq!(
                request.messages[0].content,
                chatpete::request::Content::Text("You are a pirate.".to_string())
            );
            assert_eq!(
                request.messages[1].content,
                chatpete::request::Content::Text("hello".to_string())
            );
        }
        other => panic!("the chat was not sent: {:?}", other),
    }
}

#[test]
fn words_of_no_command_are_sent_as_chat() {
    let mut handler = Handler::new("gpt-4o");
    let next = deliver(&mut handler, "<@42> yo bot how are you", None);
    assert_eq!(
        next,
        (
            Stage::AwaitingCompletion,
            Action::Complete {
                request: chat_request(
                    "gpt-4o",
                    DEFAULT_DESCRIPTION,
                    "yobothowareyou".to_string(),
                    None
                )
            }
        )
    );
}

#[test]
fn mention_alone_is_sent_as_empty_chat() {
    let mut handler = Handler::new("gpt-4o");
    let next = deliver(&mut handler, "<@42>", None);
    assert_eq!(
        next,
        (
            Stage::AwaitingCompletion,
            Action::Complete {
                request: chat_request("gpt-4o", DEFAULT_DESCRIPTION, String::new(), None)
            }
        )
    );
}

#[test]
fn text_without_words_is_sent_as_empty_chat() {
    let mut handler = Handler::new("gpt-4o");
    let next = deliver(&mut handler, "# only a comment", None);
    assert_eq!(
        next,
        (
            Stage::AwaitingCompletion,
            Action::Complete {
                request: chat_request("gpt-4o", DEFAULT_DESCRIPTION, String::new(), None)
            }
        )
    );
}

#[test]
fn open_quotation_is_answered_with_the_error() {
    let mut handler = Handler::new("gpt-4o");
    let next = deliver(&mut handler, "<@42> init \"You are", None);
    assert_eq!(next, (Stage::Finished, say(&TokenizeError::Unterminated.message())));
    assert_eq!(handler.description(), DEFAULT_DESCRIPTION);
}

#[test]
fn request_for_help_is_answered_with_the_usage() {
    let mut handler = Handler::new("gpt-4o");
    assert_eq!(deliver(&mut handler, "<@42> --help", None), (Stage::Finished, say(USAGE)));
    assert_eq!(deliver(&mut handler, "<@42> image -h", None), (Stage::Finished, say(USAGE)));
}

#[test]
fn completion_is_posted() {
    let mut handler = Handler::new("gpt-4o");
    let event = Event::Completions { choices: vec![Some("4".to_string())] };
    assert_eq!(handler.step(Stage::AwaitingCompletion, event), (Stage::Replying, say("4")));
}

#[test]
fn answer_without_completion_is_an_error_reply() {
    let mut handler = Handler::new("gpt-4o");
    let event = Event::Completions { choices: Vec::new() };
    assert_eq!(
        handler.step(Stage::AwaitingCompletion, event),
        (Stage::Finished, say("the gateway returned no completion"))
    );
}

#[test]
fn completion_without_text_is_an_error_reply() {
    let mut handler = Handler::new("gpt-4o");
    let event = Event::Completions { choices: vec![None] };
    assert_eq!(
        handler.step(Stage::AwaitingCompletion, event),
        (Stage::Finished, say("the completion of the gateway carries no text"))
    );
}

#[test]
fn image_with_model_and_no_result_posts_no_file() {
    let mut handler = Handler::new("gpt-4o");
    let next = deliver(&mut handler, "<@42> image a red bicycle --model dalle3", None);
    match &next {
        (Stage::AwaitingImages { model }, Action::Generate { request }) => {
            assert_eq!(*model, ImageModel::Dalle3);
            assert_eq!(request.model, "dall-e-3");
            assert_eq!(request.prompt, "a red bicycle");
        }
        other => panic!("no image was asked for: {:?}", other),
    }
    let answered = handler.step(next.0, Event::Images { urls: Vec::new() });
    assert_eq!(answered, (Stage::Finished, say("the gateway returned no image")));
    // Nothing follows: neither a fetch nor a file.
    let late = handler.step(answered.0, Event::Bytes { data: vec![1, 2, 3] });
    assert_eq!(late, (Stage::Finished, Action::Nothing));
}

#[test]
fn image_is_fetched_and_posted() {
    let mut handler = Handler::new("gpt-4o");
    let next = deliver(&mut handler, "<@42> image a cat", None);
    assert_eq!(
        next,
        (
            Stage::AwaitingImages { model: ImageModel::Dalle2 },
            Action::Generate { request: image_request("a cat".to_string(), ImageModel::Dalle2) }
        )
    );
    let urls = vec!["https://img/1.png".to_string(), "https://img/2.png".to_string()];
    let fetch = handler.step(next.0, Event::Images { urls });
    assert_eq!(
        fetch,
        (
            Stage::AwaitingBytes { model: ImageModel::Dalle2 },
            Action::Fetch { url: "https://img/1.png".to_string() }
        )
    );
    let post = handler.step(fetch.0, Event::Bytes { data: vec![9, 8, 7] });
    assert_eq!(
        post,
        (
            Stage::Replying,
            Action::SendFile {
                data: vec![9, 8, 7],
                filename: "generated_image.png".to_string(),
                caption: "Generated image (dall-e-2)".to_string(),
            }
        )
    );
    assert_eq!(handler.step(post.0, Event::Delivered), (Stage::Finished, Action::Nothing));
}

#[test]
fn default_image_model_can_be_configured() {
    let mut handler = Handler::new("gpt-4o").with_default_image_model(ImageModel::Dalle3);
    let next = deliver(&mut handler, "<@42> image a cat", None);
    assert_eq!(
        next,
        (
            Stage::AwaitingImages { model: ImageModel::Dalle3 },
            Action::Generate { request: image_request("a cat".to_string(), ImageModel::Dalle3) }
        )
    );
    let picked = deliver(&mut handler, "<@42> image a cat --model dalle2", None);
    assert_eq!(picked.0, Stage::AwaitingImages { model: ImageModel::Dalle2 });
}

#[test]
fn vision_sends_question_and_link() {
    let mut handler = Handler::new("gpt-4o");
    let next = deliver(&mut handler, "<@42> vision https://img/cat.png what is this?", Some("Ann"));
    assert_eq!(
        next,
        (
            Stage::AwaitingCompletion,
            Action::Complete {
                request: vision_request(
                    "gpt-4o",
                    "https://img/cat.png".to_string(),
                    "what is this?".to_string(),
                    Some("Ann".to_string())
                )
            }
        )
    );
}

#[test]
fn failures_on_the_outside_are_answered_with_their_reason() {
    let mut handler = Handler::new("gpt-4o");
    let failure = || Event::Failure { reason: "APIError: quota".to_string() };
    let stages = [
        Stage::AwaitingMention,
        Stage::AwaitingCompletion,
        Stage::AwaitingImages { model: ImageModel::Dalle2 },
        Stage::AwaitingBytes { model: ImageModel::Dalle3 },
        Stage::Replying,
    ];
    for stage in stages {
        assert_eq!(handler.step(stage, failure()), (Stage::Finished, say("APIError: quota")));
    }
}

#[test]
fn failure_of_the_error_reply_ends_the_message() {
    let mut handler = Handler::new("gpt-4o");
    let event = Event::Failure { reason: "no route".to_string() };
    assert_eq!(handler.step(Stage::Finished, event), (Stage::Finished, Action::Nothing));
}

#[test]
fn events_that_are_not_awaited_change_nothing() {
    let mut handler = Handler::new("gpt-4o");
    let event = Event::Completions { choices: vec![Some("x".to_string())] };
    assert_eq!(handler.step(Stage::Ready, event), (Stage::Ready, Action::Nothing));
    assert_eq!(
        handler.step(Stage::AwaitingCompletion, Event::Delivered),
        (Stage::AwaitingCompletion, Action::Nothing)
    );
    assert_eq!(
        handler.step(Stage::Replying, received("someone")),
        (Stage::Replying, Action::Nothing)
    );
    assert_eq!(handler.description(), DEFAULT_DESCRIPTION);
}

#[test]
fn last_init_wins_in_either_order() {
    let a = "You are a pirate.";
    let b = "You are a poet.";

    let mut handler = Handler::new("gpt-4o");
    deliver(&mut handler, "<@42> init \"You are a pirate.\"", None);
    deliver(&mut handler, "<@42> init \"You are a poet.\"", None);
    assert_eq!(handler.description(), b);

    let mut handler = Handler::new("gpt-4o");
    deliver(&mut handler, "<@42> init \"You are a poet.\"", None);
    deliver(&mut handler, "<@42> init \"You are a pirate.\"", None);
    assert_eq!(handler.description(), a);
}

#[test]
fn chat_between_two_inits_reads_a_whole_description() {
    let mut handler = Handler::new("gpt-4o");
    deliver(&mut handler, "<@42> init first", None);
    let asked = deliver(&mut handler, "<@42> chat hi", None);
    deliver(&mut handler, "<@42> init second", None);
    assert_eq!(
        asked.1,
        Action::Complete {
            request: chat_request("gpt-4o", "first", "hi".to_string(), None)
        }
    );
    assert_eq!(handler.description(), "second");
}

#[test]
fn dispatch_carries_out_a_command() {
    let mut handler = Handler::new("gpt-4o");
    let next = handler.dispatch(Command::Init { description: "new".to_string() }, None);
    assert_eq!(next, (Stage::Replying, say(ACKNOWLEDGMENT)));
    assert_eq!(handler.description(), "new");
    let next = handler.dispatch(Command::Chat { message: "hi".to_string() }, None);
    assert_eq!(
        next,
        (
            Stage::AwaitingCompletion,
            Action::Complete { request: chat_request("gpt-4o", "new", "hi".to_string(), None) }
        )
    );
}

#[test]
fn respond_answers_tokens() {
    let mut handler = Handler::new("gpt-4o");
    let tokens = Ok(vec!["<@42>".to_string(), "init".to_string(), "x".to_string()]);
    assert_eq!(handler.respond(tokens, None), (Stage::Replying, say("Ok.")));
    assert_eq!(handler.description(), "x");
    assert_eq!(
        handler.respond(Err(TokenizeError::Unterminated), None),
        (Stage::Finished, say(&TokenizeError::Unterminated.message()))
    );
    assert_eq!(handler.respond(Ok(Vec::new()), None).0, Stage::AwaitingCompletion);
}
