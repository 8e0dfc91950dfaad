//! The settings that an OpenAI request carries besides its input.

use crate::common::Config;
use crate::openai::kind::{ChatModel, CompletionModel};
use std::collections::HashMap;
use vstd::prelude::*;

verus! {

/// The endpoint of the completion models.
pub const OPENAI_COMPLETION_URL: &'static str = "https://api.openai.com/v1/completions";

/// The endpoint of the chat models.
pub const OPENAI_CHAT_URL: &'static str = "https://api.openai.com/v1/chat/completions";

/// The optional request settings that take whole numbers, flags or text.
/// Each is left out of a request while it is `None`.
#[derive(Debug, Clone)]
pub struct Attributes {
    pub suffix: Option<String>,
    pub max_tokens: Option<u16>,
    pub n: Option<u8>,
    pub stream: Option<bool>,
    pub logprobs: Option<u8>,
    pub echo: Option<bool>,
    pub stop: Option<String>,
    pub best_of: Option<u8>,
    pub logit_bias: Option<HashMap<u64, i8>>,
    pub user: Option<String>,
}

impl Attributes {
    /// Every setting is unset.
    pub open spec fn is_unset(&self) -> bool {
        &&& self.suffix is None
        &&& self.max_tokens is None
        &&& self.n is None
        &&& self.stream is None
        &&& self.logprobs is None
        &&& self.echo is None
        &&& self.stop is None
        &&& self.best_of is None
        &&& self.logit_bias is None
        &&& self.user is None
    }
}

impl Default for Attributes {
    fn default() -> (r: Self)
        ensures
            r.is_unset(),
    {
        Attributes {
            suffix: None,
            max_tokens: None,
            n: None,
            stream: None,
            logprobs: None,
            echo: None,
            stop: None,
            best_of: None,
            logit_bias: None,
            user: None,
        }
    }
}

/// The settings of a chat request.
#[derive(Debug, Clone)]
pub struct ChatConfig {
    pub model: ChatModel,
    pub attributes: Attributes,
}

/// The settings of a completion request.
#[derive(Debug, Clone)]
pub struct CompletionConfig {
    pub model: CompletionModel,
    pub attributes: Attributes,
}

/// Settings that know the endpoint they are sent to.
pub trait OpenAIConfig: Config {
    /// The endpoint of the request.
    fn get_url(&self) -> &str;
}

impl Default for ChatConfig {
    fn default() -> (r: Self)
        ensures
            r.model == ChatModel::GPT3_5Turbo,
            r.attributes.is_unset(),
    {
        ChatConfig { model: ChatModel::GPT3_5Turbo, attributes: Attributes::default() }
    }
}

impl Default for CompletionConfig {
    fn default() -> (r: Self)
        ensures
            r.model == CompletionModel::TextDaVinci003,
            r.attributes.is_unset(),
    {
        CompletionConfig { model: CompletionModel::TextDaVinci003, attributes: Attributes::default() }
    }
}

impl Config for ChatConfig {

}

impl Config for CompletionConfig {

}

impl OpenAIConfig for ChatConfig {
    fn get_url(&self) -> (r: &str)
        ensures
            r@ == OPENAI_CHAT_URL@,
    {
        OPENAI_CHAT_URL
    }
}

impl OpenAIConfig for CompletionConfig {
    fn get_url(&self) -> (r: &str)
        ensures
            r@ == OPENAI_COMPLETION_URL@,
    {
        OPENAI_COMPLETION_URL
    }
}

} // verus!
