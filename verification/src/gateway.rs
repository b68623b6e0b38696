//! Reading what the gateway answered.

use vstd::prelude::*;
use vstd::string::StringExecFns;

verus! {

/// The sentence for an answer without completion.
pub const NO_COMPLETION: &'static str = "the gateway returned no completion";

/// The sentence for a completion without text.
pub const NO_TEXT: &'static str = "the completion of the gateway carries no text";

/// The sentence for an answer without image.
pub const NO_IMAGE: &'static str = "the gateway returned no image";

/// An answer of the gateway that holds nothing to reply with.
#[derive(Clone, Copy, Debug, PartialEq, Eq, Structural)]
pub enum GatewayError {
    /// The answer to a conversation holds no completion.
    NoCompletion,
    /// The first completion carries no text.
    NoText,
    /// The answer to an image request holds no image.
    NoImage,
}

impl GatewayError {
    /// The sentence that tells a user what went wrong.
    pub open spec fn message_text(self) -> Seq<char> {
        match self {
            GatewayError::NoCompletion => NO_COMPLETION@,
            GatewayError::NoText => NO_TEXT@,
            GatewayError::NoImage => NO_IMAGE@,
        }
    }

    /// Returns the sentence that tells a user what went wrong.
    pub fn message(&self) -> (text: String)
        ensures
            text@ == self.message_text(),
    {
        match self {
            GatewayError::NoCompletion => String::from_str(NO_COMPLETION),
            GatewayError::NoText => String::from_str(NO_TEXT),
            GatewayError::NoImage => String::from_str(NO_IMAGE),
        }
    }
}

/// The text to reply with: that of the first completion.
pub open spec fn first_completion_spec(choices: Seq<Option<Seq<char>>>) -> Result<
    Seq<char>,
    GatewayError,
> {
    if choices.len() == 0 {
        Err(GatewayError::NoCompletion)
    } else {
        match choices[0] {
            Some(text) => Ok(text),
            None => Err(GatewayError::NoText),
        }
    }
}

/// The link to fetch the image from: that of the first result.
pub open spec fn first_image_spec(urls: Seq<Seq<char>>) -> Result<Seq<char>, GatewayError> {
    if urls.len() == 0 {
        Err(GatewayError::NoImage)
    } else {
        Ok(urls[0])
    }
}

/// The view of a text or an error.
pub open spec fn text_view(text: Result<String, GatewayError>) -> Result<Seq<char>, GatewayError> {
    match text {
        Ok(t) => Ok(t@),
        Err(e) => Err(e),
    }
}

/// Picks the text of the first completion. `choices` holds, for each
/// completion of the answer, its text where it has one.
pub fn first_completion(choices: &Vec<Option<String>>) -> (text: Result<String, GatewayError>)
    ensures
        text_view(text) == first_completion_spec(choices.deep_view()),
{
    if choices.len() == 0 {
        Err(GatewayError::NoCompletion)
    } else {
        match &choices[0] {
            Some(text) => Ok(text.clone()),
            None => Err(GatewayError::NoText),
        }
    }
}

/// Picks the link of the first generated image.
pub fn first_image(urls: &Vec<String>) -> (url: Result<String, GatewayError>)
    ensures
        text_view(url) == first_image_spec(urls.deep_view()),
{
    if urls.len() == 0 {
        Err(GatewayError::NoImage)
    } else {
        Ok(urls[0].clone())
    }
}

} // verus!
