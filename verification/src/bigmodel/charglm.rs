//! Responses of the character-model API, whose streamed delta always
//! carries its text directly.

use crate::chat::data::{Choice, Usage, WebSearchResponse};
use vstd::prelude::*;

verus! {

/// A complete character-model answer.
#[derive(Debug, PartialEq)]
pub struct ApiResponse {
    pub id: Option<String>,
    pub created: Option<u64>,
    pub model: Option<String>,
    pub choices: Option<Vec<Choice>>,
    pub request_id: Option<String>,
    pub usage: Option<Usage>,
    pub web_search: Option<Vec<WebSearchResponse>>,
}

impl ApiResponse {
    /// The answer's choices, when there are any.
    pub fn get_choices(&self) -> (r: Option<&Vec<Choice>>)
        ensures
            match r {
                Some(cs) => self.choices == Some(*cs),
                None => self.choices is None,
            },
    {
        self.choices.as_ref()
    }

    /// The web-search results consulted, if any.
    pub fn get_web_search(&self) -> (r: &Option<Vec<WebSearchResponse>>)
        ensures
            *r == self.web_search,
    {
        &self.web_search
    }
}

/// The incremental change one streamed record carries for one choice.
#[derive(Debug, PartialEq)]
pub struct Delta {
    pub role: String,
    pub content: String,
}

/// One choice of one streamed record.
#[derive(Debug, PartialEq)]
pub struct ChoiceStream {
    pub index: u32,
    pub delta: Delta,
}

impl ChoiceStream {
    /// The choice's new text.
    pub fn get_content(&self) -> (r: &String)
        ensures
            r@ == self.delta.content@,
    {
        &self.delta.content
    }
}

/// One streamed record of the character model.
#[derive(Debug, PartialEq)]
pub struct ApiResponseStream {
    pub id: Option<String>,
    pub created: Option<u64>,
    pub model: Option<String>,
    pub choices: Option<Vec<ChoiceStream>>,
    pub usage: Option<Usage>,
    pub web_search: Option<Vec<WebSearchResponse>>,
}

impl ApiResponseStream {
    /// The record's choices, when there are any.
    pub fn get_choices(&self) -> (r: Option<&Vec<ChoiceStream>>)
        ensures
            match r {
                Some(cs) => self.choices == Some(*cs),
                None => self.choices is None,
            },
    {
        self.choices.as_ref()
    }

    /// The web-search results consulted, if any.
    pub fn get_web_search(&self) -> (r: &Option<Vec<WebSearchResponse>>)
        ensures
            *r == self.web_search,
    {
        &self.web_search
    }
}

} // verus!
