//! Answers streamed back piece by piece.

use crate::openai::error::OpenAIError;
use crate::openai::input::ChatStreamMessage;
use crate::template::same_text;
use vstd::prelude::*;

verus! {

/// One streamed piece of an answer.
#[derive(Debug)]
pub struct ModelStreamResponse<T> {
    pub id: String,
    pub object: String,
    pub created: u64,
    pub model: String,
    pub choices: Vec<T>,
}

/// A streamed piece of a completion model's answer.
pub type CompletionModelStreamResponse = ModelStreamResponse<CompletionStreamChoice>;

/// A streamed piece of a chat model's answer.
pub type ChatModelStreamResponse = ModelStreamResponse<ChatStreamChoice>;

/// A streamed piece of one chat completion.
#[derive(Debug)]
pub struct ChatStreamChoice {
    pub index: u64,
    pub delta: ChatStreamMessage,
    pub finish_reason: Option<String>,
}

/// A streamed piece of one completion.
#[derive(Debug)]
pub struct CompletionStreamChoice {
    pub index: u64,
    pub text: String,
    pub logprobs: Option<u8>,
    pub finish_reason: Option<String>,
}

/// The data of the event that ends a stream.
pub open spec fn done_marker() -> Seq<char> {
    "[DONE]"@
}

/// Whether the event data `data` ends the stream.
pub fn is_done_marker(data: &str) -> (r: bool)
    ensures
        r == (data@ == done_marker()),
{
    same_text(data, "[DONE]")
}

impl ModelStreamResponse<ChatStreamChoice> {
    /// The text that the first completion adds, empty where the piece carries
    /// none; fails where the piece holds no completion.
    pub fn delta_text(&self) -> (r: Result<String, OpenAIError>)
        ensures
            self.choices@.len() == 0 <==> r is Err,
            r matches Err(e) ==> e is CompletionMissing,
            r matches Ok(t) ==> t@ == match self.choices@[0].delta.content {
                Some(c) => c@,
                None => Seq::<char>::empty(),
            },
    {
        if self.choices.len() == 0 {
            return Err(OpenAIError::CompletionMissing);
        }
        match &self.choices[0].delta.content {
            Some(c) => Ok(c.clone()),
            None => Ok(String::new()),
        }
    }
}

impl ModelStreamResponse<CompletionStreamChoice> {
    /// The text that the first completion adds; fails where the piece holds
    /// no completion.
    pub fn delta_text(&self) -> (r: Result<String, OpenAIError>)
        ensures
            self.choices@.len() == 0 <==> r is Err,
            r matches Err(e) ==> e is CompletionMissing,
            r matches Ok(t) ==> t@ == self.choices@[0].text@,
    {
        if self.choices.len() == 0 {
            Err(OpenAIError::CompletionMissing)
        } else {
            Ok(self.choices[0].text.clone())
        }
    }
}

} // verus!
