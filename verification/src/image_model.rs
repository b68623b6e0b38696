//! The image models a user can pick with `--model`.

use vstd::prelude::*;
use vstd::string::StringExecFns;

verus! {

/// An image-generation model of the gateway.
#[derive(Clone, Copy, Debug, PartialEq, Eq, Structural)]
pub enum ImageModel {
    Dalle3,
    Dalle2,
}

impl ImageModel {
    /// The identifier under which the gateway knows the model.
    pub open spec fn api_name(self) -> Seq<char> {
        match self {
            ImageModel::Dalle3 => "dall-e-3"@,
            ImageModel::Dalle2 => "dall-e-2"@,
        }
    }

    /// The word after `--model` that selects the model.
    pub open spec fn flag_name(self) -> Seq<char> {
        match self {
            ImageModel::Dalle3 => "dalle3"@,
            ImageModel::Dalle2 => "dalle2"@,
        }
    }

    /// The model that a word after `--model` selects, if it selects one.
    pub open spec fn of_flag(word: Seq<char>) -> Option<ImageModel> {
        if word == ImageModel::Dalle3.flag_name() {
            Some(ImageModel::Dalle3)
        } else if word == ImageModel::Dalle2.flag_name() {
            Some(ImageModel::Dalle2)
        } else {
            None
        }
    }

    /// Returns the identifier under which the gateway knows the model.
    pub fn api_value(&self) -> (name: String)
        ensures
            name@ == self.api_name(),
    {
        match self {
            ImageModel::Dalle3 => String::from_str("dall-e-3"),
            ImageModel::Dalle2 => String::from_str("dall-e-2"),
        }
    }

    /// Reads the word after `--model`.
    pub fn from_flag(word: &str) -> (model: Option<ImageModel>)
        ensures
            model == ImageModel::of_flag(word@),
    {
        let given = String::from_str(word);
        if given == String::from_str("dalle3") {
            Some(ImageModel::Dalle3)
        } else if given == String::from_str("dalle2") {
            Some(ImageModel::Dalle2)
        } else {
            None
        }
    }
}

/// Every model has its own gateway identifier, and the word that selects a
/// model selects no other.
pub proof fn lemma_models_are_distinct()
    ensures
        ImageModel::Dalle3.api_name() != ImageModel::Dalle2.api_name(),
        forall|m: ImageModel| ImageModel::of_flag(m.flag_name()) == Some(m),
{
    reveal_strlit("dall-e-3");
    reveal_strlit("dall-e-2");
    reveal_strlit("dalle3");
    reveal_strlit("dalle2");
    assert("dall-e-3"@[7] != "dall-e-2"@[7]);
    assert("dalle3"@[5] != "dalle2"@[5]);
}

} // verus!
