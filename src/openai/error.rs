//! The errors of OpenAI requests that the library decides itself.

use vstd::prelude::*;

verus! {

/// An error that the OpenAI service reported for a request.
#[derive(Debug, Clone)]
pub struct APIError {
    pub code: Option<String>,
    pub message: String,
    pub param: Option<String>,
    /// The kind of error, as the service names it.
    pub kind: String,
}

/// Why a request to an OpenAI model failed.
#[derive(Debug)]
pub enum OpenAIError {
    /// The service answered with an error.
    API(APIError),
    /// The request could not be copied to open an event stream.
    CannotCloneRequestError,
    /// The answer held no completion.
    CompletionMissing,
    /// No API key was given.
    MissingAPIKey,
}

} // verus!
