use std::collections::HashMap;
use versa::openai::config::{
    ChatConfig, CompletionConfig, OpenAIConfig, OPENAI_CHAT_URL, OPENAI_COMPLETION_URL,
};
use versa::openai::error::OpenAIError;
use versa::openai::input::{ChatMessage, ChatMessages, ChatRole, ChatStreamMessage};
use versa::openai::kind::{ChatModel, CompletionModel};
use versa::openai::model::{
    ChatBody, ChatChoice, CompletionBody, CompletionChoice, ModelResponse, OpenAI,
    OpenAICompletionModel, OpenAIModel,
};
use versa::openai::stream::{
    is_done_marker, ChatStreamChoice, CompletionStreamChoice, ModelStreamResponse,
};
use versa::pattern::Pattern;
use versa::prompt::{Prompt, PromptList};
use versa::tag::{Role, Tag};
use versa::traits::FinalizablePrompt;

#[test]
fn language_model_config_defaults_are_correct() {
    let model = OpenAIModel::with_config(ChatConfig::default());
    let config = model.get_config();

    assert_eq!(config.model, ChatModel::GPT3_5Turbo);
    assert_eq!(config.attributes.suffix, None);
    assert_eq!(config.attributes.max_tokens, None);
    assert_eq!(config.attributes.n, None);
    assert_eq!(config.attributes.stream, None);
    assert_eq!(config.attributes.logprobs, None);
    assert_eq!(config.attributes.echo, None);
    assert_eq!(config.attributes.stop, None);
    assert_eq!(config.attributes.best_of, None);
    assert_eq!(config.attributes.logit_bias, None);
    assert_eq!(config.attributes.user, None);
}

#[test]
fn model_language_model_config_defaults_are_correct() {
    let model = OpenAIModel::with_config(ChatConfig::default());
    let config = model.get_config();

    assert_eq!(config.model, ChatModel::GPT3_5Turbo);
    assert_eq!(config.attributes.suffix, None);
    assert_eq!(config.attributes.max_tokens, None);
    assert_eq!(config.attributes.n, None);
    assert_eq!(config.attributes.stream, None);
    assert_eq!(config.attributes.logprobs, None);
    assert_eq!(config.attributes.echo, None);
    assert_eq!(config.attributes.stop, None);
    assert_eq!(config.attributes.best_of, None);
    assert_eq!(config.attributes.logit_bias, None);
    assert_eq!(config.attributes.user, None);

    let model = OpenAICompletionModel::with_config(CompletionConfig::default());
    let config = model.get_config();

    assert_eq!(config.model, CompletionModel::TextDaVinci003);
    assert_eq!(config.attributes.suffix, None);
    assert_eq!(config.attributes.max_tokens, None);
    assert_eq!(config.attributes.n, None);
    assert_eq!(config.attributes.stream, None);
    assert_eq!(config.attributes.logprobs, None);
    assert_eq!(config.attributes.echo, None);
    assert_eq!(config.attributes.stop, None);
    assert_eq!(config.attributes.best_of, None);
    assert_eq!(config.attributes.logit_bias, None);
    assert_eq!(config.attributes.user, None);
}

#[test]
fn chat_builders_set_one_setting_each() {
    let mut bias = HashMap::new();
    bias.insert(50256u64, -100i8);
    let model = OpenAIModel::with_config(ChatConfig::default())
        .model(ChatModel::GPT3_5Turbo16k)
        .suffix("end")
        .max_tokens(256)
        .n(2)
        .logprobs(3)
        .echo(true)
        .best_of(4)
        .logit_bias(bias.clone())
        .user("u-1");
    let a = &model.get_config().attributes;
    assert_eq!(model.get_config().model, ChatModel::GPT3_5Turbo16k);
    assert_eq!(a.suffix.as_deref(), Some("end"));
    assert_eq!(a.max_tokens, Some(256));
    assert_eq!(a.n, Some(2));
    assert_eq!(a.logprobs, Some(3));
    assert_eq!(a.echo, Some(true));
    assert_eq!(a.best_of, Some(4));
    assert_eq!(a.logit_bias, Some(bias));
    assert_eq!(a.user.as_deref(), Some("u-1"));
    assert_eq!(a.stop, None);
    assert_eq!(a.stream, None);
}

#[test]
fn completion_builders_set_one_setting_each() {
    let model = OpenAICompletionModel::with_config(CompletionConfig::default())
        .model(CompletionModel::Ada)
        .suffix("s")
        .max_tokens(7)
        .user("me");
    assert_eq!(model.get_config().model, CompletionModel::Ada);
    assert_eq!(model.get_config().attributes.suffix.as_deref(), Some("s"));
    assert_eq!(model.get_config().attributes.max_tokens, Some(7));
    assert_eq!(model.get_config().attributes.user.as_deref(), Some("me"));
    assert_eq!(model.get_config().attributes.n, None);
}

#[test]
fn authorization_needs_a_key() {
    let model = OpenAIModel::with_config(ChatConfig::default());
    assert!(matches!(model.authorization(), Err(OpenAIError::MissingAPIKey)));
    let model = model.api_key("sk-test");
    assert_eq!(model.authorization().unwrap(), "Bearer sk-test");
    let model: OpenAI<CompletionModel> = OpenAI::new(CompletionConfig::default(), "k2");
    assert_eq!(model.authorization().unwrap(), "Bearer k2");
}

#[test]
fn endpoints_and_model_names() {
    assert_eq!(ChatConfig::default().get_url(), OPENAI_CHAT_URL);
    assert_eq!(CompletionConfig::default().get_url(), OPENAI_COMPLETION_URL);
    assert_eq!(OPENAI_CHAT_URL, "https://api.openai.com/v1/chat/completions");
    assert_eq!(ChatModel::GPT3_5Turbo.name(), "gpt-3.5-turbo");
    assert_eq!(ChatModel::GPT3_5Turbo16k0613.name(), "gpt-3.5-turbo-16k-0613");
    assert_eq!(CompletionModel::TextDaVinci003.name(), "text-davinci-003");
    assert_eq!(CompletionModel::CurieInstructBeta.name(), "curie-instruct-beta");
    assert_eq!(ChatRole::Assistant.name(), "assistant");
}

#[test]
fn resolved_list_becomes_chat_messages_with_roles() {
    let mut list = PromptList::new("be brief", vec![Tag::Role(Role::System)]);
    list.add_message("hi {{who}}", vec![Tag::Pattern(Pattern::new("p")), Tag::Role(Role::Assistant)]);
    list.add_message("untagged", vec![]);
    list.add_message("two roles", vec![Tag::Role(Role::User), Tag::Role(Role::System)]);
    list.resolve_var("who", "Bo").unwrap();
    let chat = ChatMessages::from_resolved_list(list.finalize().unwrap());
    let v = chat.into_vec();
    let got: Vec<(ChatRole, &str)> = v.iter().map(|m| (m.role, m.content.as_str())).collect();
    assert_eq!(
        got,
        vec![
            (ChatRole::System, "be brief"),
            (ChatRole::Assistant, "hi Bo"),
            (ChatRole::User, "untagged"),
            (ChatRole::User, "two roles"),
        ]
    );
}

#[test]
fn text_inputs_are_spoken_by_the_user() {
    let chat = ChatMessages::from_text("hello");
    assert_eq!(chat.len(), 1);
    let v = chat.into_vec();
    assert_eq!(v[0].role, ChatRole::User);
    assert_eq!(v[0].content, "hello");

    let chat = ChatMessages::from_resolved_prompt(Prompt::new("yo").finalize().unwrap());
    let v = chat.into_vec();
    assert_eq!((v[0].role, v[0].content.as_str()), (ChatRole::User, "yo"));

    let chat = ChatMessages::from_messages(vec![ChatMessage { role: ChatRole::System, content: "s".into() }]);
    assert_eq!(chat.len(), 1);
    assert_eq!(ChatMessages::empty().len(), 0);
}

#[test]
fn request_bodies_mark_streaming() {
    let body = ChatBody::new(ChatMessages::from_text("q"), ChatConfig::default(), true);
    assert_eq!(body.stream, Some(true));
    assert_eq!(body.messages.len(), 1);
    let body = CompletionBody::new("p", CompletionConfig::default(), false);
    assert_eq!(body.stream, None);
    assert_eq!(body.prompt, "p");
}

fn response<T>(choices: Vec<T>) -> ModelResponse<T> {
    ModelResponse { id: "id".into(), object: "o".into(), created: 1, model: "m".into(), choices }
}

#[test]
fn first_completion_or_missing() {
    let r = response(vec![
        ChatChoice {
            index: 0,
            message: ChatMessage { role: ChatRole::Assistant, content: "answer".into() },
            finish_reason: "stop".into(),
        },
        ChatChoice {
            index: 1,
            message: ChatMessage { role: ChatRole::Assistant, content: "other".into() },
            finish_reason: "stop".into(),
        },
    ]);
    assert_eq!(r.first_content().unwrap(), "answer");
    let empty: ModelResponse<ChatChoice> = response(vec![]);
    assert!(matches!(empty.first_content(), Err(OpenAIError::CompletionMissing)));

    let r = response(vec![CompletionChoice {
        index: 0,
        text: "done".into(),
        logprobs: None,
        finish_reason: "length".into(),
    }]);
    assert_eq!(r.first_text().unwrap(), "done");
    let empty: ModelResponse<CompletionChoice> = response(vec![]);
    assert!(matches!(empty.first_text(), Err(OpenAIError::CompletionMissing)));
}

fn piece<T>(choices: Vec<T>) -> ModelStreamResponse<T> {
    ModelStreamResponse { id: "id".into(), object: "o".into(), created: 1, model: "m".into(), choices }
}

#[test]
fn stream_pieces_and_end_marker() {
    assert!(is_done_marker("[DONE]"));
    assert!(!is_done_marker("[DONE] "));
    assert!(!is_done_marker("{}"));

    let p = piece(vec![ChatStreamChoice {
        index: 0,
        delta: ChatStreamMessage { role: None, content: Some("He".into()) },
        finish_reason: None,
    }]);
    assert_eq!(p.delta_text().unwrap(), "He");
    let p = piece(vec![ChatStreamChoice {
        index: 0,
        delta: ChatStreamMessage { role: Some(ChatRole::Assistant), content: None },
        finish_reason: None,
    }]);
    assert_eq!(p.delta_text().unwrap(), "");
    let p: ModelStreamResponse<ChatStreamChoice> = piece(vec![]);
    assert!(matches!(p.delta_text(), Err(OpenAIError::CompletionMissing)));

    let p = piece(vec![CompletionStreamChoice {
        index: 0,
        text: "lo".into(),
        logprobs: None,
        finish_reason: Some("stop".into()),
    }]);
    assert_eq!(p.delta_text().unwrap(), "lo");
}
