//! OpenAI models: their settings, the requests they send and the answers they
//! take back.

use crate::openai::config::{Attributes, ChatConfig, CompletionConfig};
use crate::openai::error::OpenAIError;
use crate::openai::input::{ChatMessage, ChatMessages};
use crate::openai::kind::{ChatModel, CompletionModel, ModelKind};
use std::collections::HashMap;
use vstd::prelude::*;

verus! {

/// An OpenAI language model: the settings of its requests and the key that
/// signs them. It has no `Debug` form, so that the key is never printed.
#[derive(Clone)]
pub struct OpenAI<M: ModelKind> {
    config: M::Config,
    api_key: Option<String>,
}

/// An OpenAI completion model.
pub type OpenAICompletionModel = OpenAI<CompletionModel>;

/// An OpenAI chat model.
pub type OpenAIChatModel = OpenAI<ChatModel>;

/// The OpenAI model used where none is named.
pub type OpenAIModel = OpenAIChatModel;

/// `Bearer ` followed by `key`.
pub open spec fn bearer(key: Seq<char>) -> Seq<char> {
    "Bearer "@ + key
}

impl<M: ModelKind> OpenAI<M> {
    /// The settings of the model's requests.
    pub closed spec fn settings(&self) -> M::Config {
        self.config
    }

    /// The API key, where one was given.
    pub closed spec fn key(&self) -> Option<Seq<char>> {
        match &self.api_key {
            Some(k) => Some(k@),
            None => None,
        }
    }

    /// A model with the settings `config`, signing with `api_key`.
    pub fn new(config: M::Config, api_key: &str) -> (r: Self)
        ensures
            r.settings() == config,
            r.key() == Some(api_key@),
    {
        OpenAI { config, api_key: Some(api_key.to_owned()) }
    }

    /// A model with the settings `config` and no API key yet.
    pub fn with_config(config: M::Config) -> (r: Self)
        ensures
            r.settings() == config,
            r.key() is None,
    {
        OpenAI { config, api_key: None }
    }

    /// The model, signing with `api_key`.
    pub fn api_key(self, api_key: &str) -> (r: Self)
        ensures
            r.settings() == self.settings(),
            r.key() == Some(api_key@),
    {
        OpenAI { config: self.config, api_key: Some(api_key.to_owned()) }
    }

    /// The settings of the model's requests.
    pub fn get_config(&self) -> (r: &M::Config)
        ensures
            *r == self.settings(),
    {
        &self.config
    }

    /// The value of the `Authorization` header of a request; fails where no
    /// API key was given.
    pub fn authorization(&self) -> (r: Result<String, OpenAIError>)
        ensures
            self.key() is None <==> r is Err,
            r matches Err(e) ==> e is MissingAPIKey,
            r matches Ok(h) ==> h@ == bearer(self.key()->Some_0),
    {
        match &self.api_key {
            Some(key) => {
                let mut h = String::from_str("Bearer ");
                h.append(key.as_str());
                Ok(h)
            },
            None => Err(OpenAIError::MissingAPIKey),
        }
    }
}


impl OpenAIChatModel {
    /// The model, requesting `model`.
    pub fn model(self, model: ChatModel) -> (r: Self)
        ensures
            r.key() == self.key(),
            r.settings() == (ChatConfig { model, ..self.settings() }),
    {
        let mut m = self;
        m.config.model = model;
        m
    }

    /// The model, with the suffix that follows the completion set to `suffix`.
    pub fn suffix(self, suffix: &str) -> (r: Self)
        ensures
            r.key() == self.key(),
            r.settings().attributes.suffix matches Some(v) && v@ == suffix@,
            r.settings().model == self.settings().model,
            r.settings().attributes == (Attributes {
                suffix: r.settings().attributes.suffix,
                ..self.settings().attributes
            }),
    {
        let mut m = self;
        m.config.attributes.suffix = Some(suffix.to_owned());
        m
    }

    /// The model, with the most tokens to generate set to `max_tokens`.
    pub fn max_tokens(self, max_tokens: u16) -> (r: Self)
        ensures
            r.key() == self.key(),
            r.settings().model == self.settings().model,
            r.settings().attributes == (Attributes { max_tokens: Some(max_tokens), ..self.settings().attributes }),
    {
        let mut m = self;
        m.config.attributes.max_tokens = Some(max_tokens);
        m
    }

    /// The model, with how many completions to generate set to `n`.
    pub fn n(self, n: u8) -> (r: Self)
        ensures
            r.key() == self.key(),
            r.settings().model == self.settings().model,
            r.settings().attributes == (Attributes { n: Some(n), ..self.settings().attributes }),
    {
        let mut m = self;
        m.config.attributes.n = Some(n);
        m
    }

    /// The model, with how many log probabilities to return per token set to `logprobs`.
    pub fn logprobs(self, logprobs: u8) -> (r: Self)
        ensures
            r.key() == self.key(),
            r.settings().model == self.settings().model,
            r.settings().attributes == (Attributes { logprobs: Some(logprobs), ..self.settings().attributes }),
    {
        let mut m = self;
        m.config.attributes.logprobs = Some(logprobs);
        m
    }

    /// The model, with whether the prompt is echoed back set to `echo`.
    pub fn echo(self, echo: bool) -> (r: Self)
        ensures
            r.key() == self.key(),
            r.settings().model == self.settings().model,
            r.settings().attributes == (Attributes { echo: Some(echo), ..self.settings().attributes }),
    {
        let mut m = self;
        m.config.attributes.echo = Some(echo);
        m
    }

    /// The model, with how many completions to rank on the server set to `best_of`.
    pub fn best_of(self, best_of: u8) -> (r: Self)
        ensures
            r.key() == self.key(),
            r.settings().model == self.settings().model,
            r.settings().attributes == (Attributes { best_of: Some(best_of), ..self.settings().attributes }),
    {
        let mut m = self;
        m.config.attributes.best_of = Some(best_of);
        m
    }

    /// The model, with the biases of given tokens set to `logit_bias`.
    pub fn logit_bias(self, logit_bias: HashMap<u64, i8>) -> (r: Self)
        ensures
            r.key() == self.key(),
            r.settings().model == self.settings().model,
            r.settings().attributes == (Attributes { logit_bias: Some(logit_bias), ..self.settings().attributes }),
    {
        let mut m = self;
        m.config.attributes.logit_bias = Some(logit_bias);
        m
    }

    /// The model, with the token that identifies the end user set to `user`.
    pub fn user(self, user: &str) -> (r: Self)
        ensures
            r.key() == self.key(),
            r.settings().attributes.user matches Some(v) && v@ == user@,
            r.settings().model == self.settings().model,
            r.settings().attributes == (Attributes {
                user: r.settings().attributes.user,
                ..self.settings().attributes
            }),
    {
        let mut m = self;
        m.config.attributes.user = Some(user.to_owned());
        m
    }
}

impl OpenAICompletionModel {
    /// The model, requesting `model`.
    pub fn model(self, model: CompletionModel) -> (r: Self)
        ensures
            r.key() == self.key(),
            r.settings() == (CompletionConfig { model, ..self.settings() }),
    {
        let mut m = self;
        m.config.model = model;
        m
    }

    /// The model, with the suffix that follows the completion set to `suffix`.
    pub fn suffix(self, suffix: &str) -> (r: Self)
        ensures
            r.key() == self.key(),
            r.settings().attributes.suffix matches Some(v) && v@ == suffix@,
            r.settings().model == self.settings().model,
            r.settings().attributes == (Attributes {
                suffix: r.settings().attributes.suffix,
                ..self.settings().attributes
            }),
    {
        let mut m = self;
        m.config.attributes.suffix = Some(suffix.to_owned());
        m
    }

    /// The model, with the most tokens to generate set to `max_tokens`.
    pub fn max_tokens(self, max_tokens: u16) -> (r: Self)
        ensures
            r.key() == self.key(),
            r.settings().model == self.settings().model,
            r.settings().attributes == (Attributes { max_tokens: Some(max_tokens), ..self.settings().attributes }),
    {
        let mut m = self;
        m.config.attributes.max_tokens = Some(max_tokens);
        m
    }

    /// The model, with how many completions to generate set to `n`.
    pub fn n(self, n: u8) -> (r: Self)
        ensures
            r.key() == self.key(),
            r.settings().model == self.settings().model,
            r.settings().attributes == (Attributes { n: Some(n), ..self.settings().attributes }),
    {
        let mut m = self;
        m.config.attributes.n = Some(n);
        m
    }

    /// The model, with how many log probabilities to return per token set to `logprobs`.
    pub fn logprobs(self, logprobs: u8) -> (r: Self)
        ensures
            r.key() == self.key(),
            r.settings().model == self.settings().model,
            r.settings().attributes == (Attributes { logprobs: Some(logprobs), ..self.settings().attributes }),
    {
        let mut m = self;
        m.config.attributes.logprobs = Some(logprobs);
        m
    }

    /// The model, with whether the prompt is echoed back set to `echo`.
    pub fn echo(self, echo: bool) -> (r: Self)
        ensures
            r.key() == self.key(),
            r.settings().model == self.settings().model,
            r.settings().attributes == (Attributes { echo: Some(echo), ..self.settings().attributes }),
    {
        let mut m = self;
        m.config.attributes.echo = Some(echo);
        m
    }

    /// The model, with how many completions to rank on the server set to `best_of`.
    pub fn best_of(self, best_of: u8) -> (r: Self)
        ensures
            r.key() == self.key(),
            r.settings().model == self.settings().model,
            r.settings().attributes == (Attributes { best_of: Some(best_of), ..self.settings().attributes }),
    {
        let mut m = self;
        m.config.attributes.best_of = Some(best_of);
        m
    }

    /// The model, with the biases of given tokens set to `logit_bias`.
    pub fn logit_bias(self, logit_bias: HashMap<u64, i8>) -> (r: Self)
        ensures
            r.key() == self.key(),
            r.settings().model == self.settings().model,
            r.settings().attributes == (Attributes { logit_bias: Some(logit_bias), ..self.settings().attributes }),
    {
        let mut m = self;
        m.config.attributes.logit_bias = Some(logit_bias);
        m
    }

    /// The model, with the token that identifies the end user set to `user`.
    pub fn user(self, user: &str) -> (r: Self)
        ensures
            r.key() == self.key(),
            r.settings().attributes.user matches Some(v) && v@ == user@,
            r.settings().model == self.settings().model,
            r.settings().attributes == (Attributes {
                user: r.settings().attributes.user,
                ..self.settings().attributes
            }),
    {
        let mut m = self;
        m.config.attributes.user = Some(user.to_owned());
        m
    }
}


/// An answer of the service: the completions it chose and what identifies it.
#[derive(Debug)]
pub struct ModelResponse<T> {
    pub id: String,
    pub object: String,
    pub created: u64,
    pub model: String,
    pub choices: Vec<T>,
}

/// An answer of a completion model.
pub type CompletionModelResponse = ModelResponse<CompletionChoice>;

/// An answer of a chat model.
pub type ChatModelResponse = ModelResponse<ChatChoice>;

/// One completion of a chat model.
#[derive(Debug)]
pub struct ChatChoice {
    pub index: u64,
    pub message: ChatMessage,
    pub finish_reason: String,
}

/// One completion of a completion model.
#[derive(Debug)]
pub struct CompletionChoice {
    pub index: u64,
    pub text: String,
    pub logprobs: Option<u8>,
    pub finish_reason: String,
}

/// What a chat request sends: its messages, whether the answer is streamed,
/// and its settings.
#[derive(Debug)]
pub struct ChatBody {
    pub messages: ChatMessages,
    pub stream: Option<bool>,
    pub config: ChatConfig,
}

/// What a completion request sends: its prompt, whether the answer is
/// streamed, and its settings.
#[derive(Debug)]
pub struct CompletionBody {
    pub prompt: String,
    pub stream: Option<bool>,
    pub config: CompletionConfig,
}

/// The streaming flag of a request: set where the answer is streamed, left
/// out otherwise.
pub open spec fn stream_flag(streamed: bool) -> Option<bool> {
    if streamed {
        Some(true)
    } else {
        None
    }
}

impl ChatBody {
    /// The body of a chat request for `messages` with the settings `config`.
    pub fn new(messages: ChatMessages, config: ChatConfig, streamed: bool) -> (r: ChatBody)
        ensures
            r.messages@ == messages@,
            r.config == config,
            r.stream == stream_flag(streamed),
    {
        ChatBody {
            messages,
            stream: if streamed {
                Some(true)
            } else {
                None
            },
            config,
        }
    }
}

impl CompletionBody {
    /// The body of a completion request for `prompt` with the settings
    /// `config`.
    pub fn new(prompt: &str, config: CompletionConfig, streamed: bool) -> (r: CompletionBody)
        ensures
            r.prompt@ == prompt@,
            r.config == config,
            r.stream == stream_flag(streamed),
    {
        CompletionBody {
            prompt: prompt.to_owned(),
            stream: if streamed {
                Some(true)
            } else {
                None
            },
            config,
        }
    }
}

impl ModelResponse<ChatChoice> {
    /// The text of the first completion; fails where there is none.
    pub fn first_content(&self) -> (r: Result<String, OpenAIError>)
        ensures
            self.choices@.len() == 0 <==> r is Err,
            r matches Err(e) ==> e is CompletionMissing,
            r matches Ok(t) ==> t@ == self.choices@[0].message.content@,
    {
        if self.choices.len() == 0 {
            Err(OpenAIError::CompletionMissing)
        } else {
            Ok(self.choices[0].message.content.clone())
        }
    }
}

impl ModelResponse<CompletionChoice> {
    /// The text of the first completion; fails where there is none.
    pub fn first_text(&self) -> (r: Result<String, OpenAIError>)
        ensures
            self.choices@.len() == 0 <==> r is Err,
            r matches Err(e) ==> e is CompletionMissing,
            r matches Ok(t) ==> t@ == self.choices@[0].text@,
    {
        if self.choices.len() == 0 {
            Err(OpenAIError::CompletionMissing)
        } else {
            Ok(self.choices[0].text.clone())
        }
    }
}

} // verus!
