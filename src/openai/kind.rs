//! The OpenAI models that requests can name.

use crate::openai::config::{ChatConfig, CompletionConfig, OpenAIConfig};
use crate::openai::input::ChatMessages;
use vstd::prelude::*;

verus! {

/// A family of OpenAI models: the configuration its requests carry and the
/// input they take.
pub trait ModelKind {
    /// The configuration of a request.
    type Config: OpenAIConfig;

    /// The input of a request.
    type Input;
}

/// The chat models.
#[derive(Debug, Clone, Copy, PartialEq, Eq, Structural)]
pub enum ChatModel {
    GPT3_5Turbo0613,
    GPT3_5Turbo0301,
    GPT3_5Turbo,
    GPT3_5Turbo16k0613,
    GPT3_5Turbo16k,
}

/// The name under which a chat model is requested.
pub open spec fn chat_model_name(m: ChatModel) -> Seq<char> {
    match m {
        ChatModel::GPT3_5Turbo0613 => "gpt-3.5-turbo-0613"@,
        ChatModel::GPT3_5Turbo0301 => "gpt-3.5-turbo-0301"@,
        ChatModel::GPT3_5Turbo => "gpt-3.5-turbo"@,
        ChatModel::GPT3_5Turbo16k0613 => "gpt-3.5-turbo-16k-0613"@,
        ChatModel::GPT3_5Turbo16k => "gpt-3.5-turbo-16k"@,
    }
}

impl ChatModel {
    /// The name under which this model is requested.
    pub fn name(&self) -> (r: &'static str)
        ensures
            r@ == chat_model_name(*self),
    {
        match self {
            ChatModel::GPT3_5Turbo0613 => "gpt-3.5-turbo-0613",
            ChatModel::GPT3_5Turbo0301 => "gpt-3.5-turbo-0301",
            ChatModel::GPT3_5Turbo => "gpt-3.5-turbo",
            ChatModel::GPT3_5Turbo16k0613 => "gpt-3.5-turbo-16k-0613",
            ChatModel::GPT3_5Turbo16k => "gpt-3.5-turbo-16k",
        }
    }
}

impl ModelKind for ChatModel {
    type Config = ChatConfig;
    type Input = ChatMessages;
}


/// The completion models.
#[derive(Debug, Clone, Copy, PartialEq, Eq, Structural)]
pub enum CompletionModel {
    Babbage,
    Davinci,
    BabbageCodeSearchCode,
    TextSimilarityBabbage001,
    TextDaVinci001,
    Ada,
    BabbageCodeSearchText,
    BabbageSimilarity,
    CodeSearchBabbageText001,
    TextCurie001,
    CodeSearchBabbageCode001,
    TextAda001,
    TextSimilarityAda001,
    CurieInstructBeta,
    AdaCodeSearchCode,
    AdaSimilarity,
    CodeSearchAdaText001,
    TextSearchAdaQuery001,
    DaVinciSearchDocument,
    AdaCodeSearchText,
    TextSearchAdaDoc001,
    DaVinciInstructBeta,
    TextSimilarityCurie001,
    CodeSearchAdaCode001,
    AdaSearchQuery,
    TextSearchDaVinciQuery001,
    CurieSearchQuery,
    DaVinciSearchQuery,
    BabbageSearchDocument,
    AdaSearchDocument,
    TextSearchCurieQuery001,
    TextSearchBabbageDoc001,
    CurieSearchDocument,
    TextSearchCurieDoc001,
    BabbageSearchQuery,
    TextBabbage001,
    TextSearchDaVinciDoc001,
    TextSearchBabbageQuery001,
    CurieSimilarity,
    Curie,
    TextEmbeddingAda002,
    TextSimilarityDaVinci001,
    TextDaVinci002,
    TextDaVinci003,
    DaVinciSimilarity,
}

/// The name under which a completion model is requested.
pub open spec fn completion_model_name(m: CompletionModel) -> Seq<char> {
    match m {
        CompletionModel::Babbage => "babbage"@,
        CompletionModel::Davinci => "davinci"@,
        CompletionModel::BabbageCodeSearchCode => "babbage-code-search-code"@,
        CompletionModel::TextSimilarityBabbage001 => "text-similarity-babbage-001"@,
        CompletionModel::TextDaVinci001 => "text-davinci-001"@,
        CompletionModel::Ada => "ada"@,
        CompletionModel::BabbageCodeSearchText => "babbage-code-search-text"@,
        CompletionModel::BabbageSimilarity => "babbage-similarity"@,
        CompletionModel::CodeSearchBabbageText001 => "code-search-babbage-text-001"@,
        CompletionModel::TextCurie001 => "text-curie-001"@,
        CompletionModel::CodeSearchBabbageCode001 => "code-search-babbage-code-001"@,
        CompletionModel::TextAda001 => "text-ada-001"@,
        CompletionModel::TextSimilarityAda001 => "text-similarity-ada-001"@,
        CompletionModel::CurieInstructBeta => "curie-instruct-beta"@,
        CompletionModel::AdaCodeSearchCode => "ada-code-search-code"@,
        CompletionModel::AdaSimilarity => "ada-similarity"@,
        CompletionModel::CodeSearchAdaText001 => "code-search-ada-text-001"@,
        CompletionModel::TextSearchAdaQuery001 => "text-search-ada-query-001"@,
        CompletionModel::DaVinciSearchDocument => "davinci-search-document"@,
        CompletionModel::AdaCodeSearchText => "ada-code-search-text"@,
        CompletionModel::TextSearchAdaDoc001 => "text-search-ada-doc-001"@,
        CompletionModel::DaVinciInstructBeta => "davinci-instruct-beta"@,
        CompletionModel::TextSimilarityCurie001 => "text-similarity-curie-001"@,
        CompletionModel::CodeSearchAdaCode001 => "code-search-ada-code-001"@,
        CompletionModel::AdaSearchQuery => "ada-search-query"@,
        CompletionModel::TextSearchDaVinciQuery001 => "text-search-davinci-query-001"@,
        CompletionModel::CurieSearchQuery => "curie-search-query"@,
        CompletionModel::DaVinciSearchQuery => "davinci-search-query"@,
        CompletionModel::BabbageSearchDocument => "babbage-search-document"@,
        CompletionModel::AdaSearchDocument => "ada-search-document"@,
        CompletionModel::TextSearchCurieQuery001 => "text-search-curie-query-001"@,
        CompletionModel::TextSearchBabbageDoc001 => "text-search-babbage-doc-001"@,
        CompletionModel::CurieSearchDocument => "curie-search-document"@,
        CompletionModel::TextSearchCurieDoc001 => "text-search-curie-doc-001"@,
        CompletionModel::BabbageSearchQuery => "babbage-search-query"@,
        CompletionModel::TextBabbage001 => "text-babbage-001"@,
        CompletionModel::TextSearchDaVinciDoc001 => "text-search-davinci-doc-001"@,
        CompletionModel::TextSearchBabbageQuery001 => "text-search-babbage-query-001"@,
        CompletionModel::CurieSimilarity => "curie-similarity"@,
        CompletionModel::Curie => "curie"@,
        CompletionModel::TextEmbeddingAda002 => "text-embedding-ada-002"@,
        CompletionModel::TextSimilarityDaVinci001 => "text-similarity-davinci-001"@,
        CompletionModel::TextDaVinci002 => "text-davinci-002"@,
        CompletionModel::TextDaVinci003 => "text-davinci-003"@,
        CompletionModel::DaVinciSimilarity => "davinci-similarity"@,
    }
}

impl CompletionModel {
    /// The name under which this model is requested.
    pub fn name(&self) -> (r: &'static str)
        ensures
            r@ == completion_model_name(*self),
    {
        match self {
            CompletionModel::Babbage => "babbage",
            CompletionModel::Davinci => "davinci",
            CompletionModel::BabbageCodeSearchCode => "babbage-code-search-code",
            CompletionModel::TextSimilarityBabbage001 => "text-similarity-babbage-001",
            CompletionModel::TextDaVinci001 => "text-davinci-001",
            CompletionModel::Ada => "ada",
            CompletionModel::BabbageCodeSearchText => "babbage-code-search-text",
            CompletionModel::BabbageSimilarity => "babbage-similarity",
            CompletionModel::CodeSearchBabbageText001 => "code-search-babbage-text-001",
            CompletionModel::TextCurie001 => "text-curie-001",
            CompletionModel::CodeSearchBabbageCode001 => "code-search-babbage-code-001",
            CompletionModel::TextAda001 => "text-ada-001",
            CompletionModel::TextSimilarityAda001 => "text-similarity-ada-001",
            CompletionModel::CurieInstructBeta => "curie-instruct-beta",
            CompletionModel::AdaCodeSearchCode => "ada-code-search-code",
            CompletionModel::AdaSimilarity => "ada-similarity",
            CompletionModel::CodeSearchAdaText001 => "code-search-ada-text-001",
            CompletionModel::TextSearchAdaQuery001 => "text-search-ada-query-001",
            CompletionModel::DaVinciSearchDocument => "davinci-search-document",
            CompletionModel::AdaCodeSearchText => "ada-code-search-text",
            CompletionModel::TextSearchAdaDoc001 => "text-search-ada-doc-001",
            CompletionModel::DaVinciInstructBeta => "davinci-instruct-beta",
            CompletionModel::TextSimilarityCurie001 => "text-similarity-curie-001",
            CompletionModel::CodeSearchAdaCode001 => "code-search-ada-code-001",
            CompletionModel::AdaSearchQuery => "ada-search-query",
            CompletionModel::TextSearchDaVinciQuery001 => "text-search-davinci-query-001",
            CompletionModel::CurieSearchQuery => "curie-search-query",
            CompletionModel::DaVinciSearchQuery => "davinci-search-query",
            CompletionModel::BabbageSearchDocument => "babbage-search-document",
            CompletionModel::AdaSearchDocument => "ada-search-document",
            CompletionModel::TextSearchCurieQuery001 => "text-search-curie-query-001",
            CompletionModel::TextSearchBabbageDoc001 => "text-search-babbage-doc-001",
            CompletionModel::CurieSearchDocument => "curie-search-document",
            CompletionModel::TextSearchCurieDoc001 => "text-search-curie-doc-001",
            CompletionModel::BabbageSearchQuery => "babbage-search-query",
            CompletionModel::TextBabbage001 => "text-babbage-001",
            CompletionModel::TextSearchDaVinciDoc001 => "text-search-davinci-doc-001",
            CompletionModel::TextSearchBabbageQuery001 => "text-search-babbage-query-001",
            CompletionModel::CurieSimilarity => "curie-similarity",
            CompletionModel::Curie => "curie",
            CompletionModel::TextEmbeddingAda002 => "text-embedding-ada-002",
            CompletionModel::TextSimilarityDaVinci001 => "text-similarity-davinci-001",
            CompletionModel::TextDaVinci002 => "text-davinci-002",
            CompletionModel::TextDaVinci003 => "text-davinci-003",
            CompletionModel::DaVinciSimilarity => "davinci-similarity",
        }
    }
}

impl ModelKind for CompletionModel {
    type Config = CompletionConfig;
    type Input = String;
}

} // verus!
