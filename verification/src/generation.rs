//! The content generator as the core sees it: what is sent with a request,
//! and what an answer is worth.

use vstd::prelude::*;

verus! {

/// One message of an answer: its text, if it has one.
#[derive(Debug, PartialEq, Eq)]
pub struct Message {
    pub content: Option<String>,
}

/// One choice of an answer.
#[derive(Debug, PartialEq, Eq)]
pub struct Choice {
    pub message: Message,
}

/// The answer of the content generator, as far as the core reads it.
#[derive(Debug, PartialEq, Eq)]
pub struct OpenRouterResponse {
    pub choices: Vec<Choice>,
}

/// Why the content generator gave no text.
#[derive(Debug, PartialEq, Eq)]
pub enum GenerationError {
    /// No key for the generator is configured.
    MissingKey,
    /// The generator answered with an error; its text is kept.
    Upstream(String),
    /// The answer holds no text.
    NoContent,
}

/// View of a [`GenerationError`].
pub enum GenerationErrorView {
    MissingKey,
    Upstream(Seq<char>),
    NoContent,
}

impl View for GenerationError {
    type V = GenerationErrorView;

    open spec fn view(&self) -> GenerationErrorView {
        match self {
            GenerationError::MissingKey => GenerationErrorView::MissingKey,
            GenerationError::Upstream(text) => GenerationErrorView::Upstream(text@),
            GenerationError::NoContent => GenerationErrorView::NoContent,
        }
    }
}

impl GenerationErrorView {
    /// The message of the error.
    pub open spec fn text(self) -> Seq<char> {
        match self {
            GenerationErrorView::MissingKey => "OPENROUTER_API_KEY environment variable not set"@,
            GenerationErrorView::Upstream(text) => "OpenRouter API error: "@ + text,
            GenerationErrorView::NoContent => "No content found in OpenRouter response"@,
        }
    }
}

impl GenerationError {
    /// The message of the error.
    pub fn message(&self) -> (s: String)
        ensures
            s@ == self@.text(),
    {
        match self {
            GenerationError::MissingKey => {
                "OPENROUTER_API_KEY environment variable not set".to_string()
            },
            GenerationError::Upstream(text) => {
                let mut s = "OpenRouter API error: ".to_string();
                s.append(text.as_str());
                s
            },
            GenerationError::NoContent => "No content found in OpenRouter response".to_string(),
        }
    }
}

/// The model that is asked where none is configured.
pub open spec fn default_model() -> Seq<char> {
    "alibaba/tongyi-deepresearch-30b-a3b"@
}

/// The model to ask: the configured one, or the default.
pub fn model_or_default(configured: Option<String>) -> (model: String)
    ensures
        model@ == match configured {
            Some(name) => name@,
            None => default_model(),
        },
{
    match configured {
        Some(name) => name,
        None => "alibaba/tongyi-deepresearch-30b-a3b".to_string(),
    }
}

/// The key for the generator, or the error that none is configured.
pub fn require_key(configured: Option<String>) -> (r: Result<String, GenerationError>)
    ensures
        match r {
            Ok(key) => configured == Some(key),
            Err(e) => configured is None && e@ == GenerationErrorView::MissingKey,
        },
{
    match configured {
        Some(key) => Ok(key),
        None => Err(GenerationError::MissingKey),
    }
}

/// The value of the authorization header for a key.
pub fn bearer(api_key: &str) -> (header: String)
    ensures
        header@ == "Bearer "@ + api_key@,
{
    let mut header = "Bearer ".to_string();
    header.append(api_key);
    header
}

/// The text that an answer gives: that of its first choice, where the
/// answer has a choice and the message of the first one has a text.
pub open spec fn answer_text(parsed: Option<OpenRouterResponse>) -> Option<Seq<char>> {
    match parsed {
        Some(response) => if response.choices@.len() > 0 {
            crate::models::opt_text(response.choices@[0].message.content)
        } else {
            None
        },
        None => None,
    }
}

/// The text of the first choice of an answer, if the answer has a choice
/// and the message of the first one has a text.
pub fn first_content(response: &OpenRouterResponse) -> (content: Option<String>)
    ensures
        crate::models::opt_text(content) == answer_text(Some(*response)),
{
    if response.choices.len() > 0 {
        crate::models::clone_opt(&response.choices[0].message.content)
    } else {
        None
    }
}

/// What an answer of the generator is worth. `success` says whether the
/// answer was a success, `body` is its text where it was not, and `parsed`
/// is the answer read as choices, or `None` where it holds no list of
/// choices. An answer that is no success is an upstream error with its
/// text; a success gives the text of its first choice, and without such a
/// text there is no content.
pub fn interpret_response(success: bool, body: String, parsed: Option<OpenRouterResponse>) -> (r:
    Result<String, GenerationError>)
    ensures
        match r {
            Ok(text) => success && answer_text(parsed) == Some(text@),
            Err(e) => if !success {
                e@ == GenerationErrorView::Upstream(body@)
            } else {
                e@ == GenerationErrorView::NoContent && answer_text(parsed) is None
            },
        },
{
    if !success {
        return Err(GenerationError::Upstream(body));
    }
    match parsed {
        Some(response) => match first_content(&response) {
            Some(text) => Ok(text),
            None => Err(GenerationError::NoContent),
        },
        None => Err(GenerationError::NoContent),
    }
}

} // verus!
