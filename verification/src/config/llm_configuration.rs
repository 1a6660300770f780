//! The model choices a configuration can name.  Talking to the providers is
//! outside work; here the choices are plain data with their wire names.

use vstd::prelude::*;

verus! {

/// The Anthropic models the configuration can pick.
#[derive(Clone, Copy, Debug, PartialEq, Eq, Structural)]
pub enum AnthropicModel {
    Claude35Sonnet,
    Claude35Haiku,
    Clause37Sonnet,
    Clause40Sonnet,
}

impl Default for AnthropicModel {
    fn default() -> (r: Self)
        ensures
            r == AnthropicModel::Clause37Sonnet,
    {
        AnthropicModel::Clause37Sonnet
    }
}

/// An embedding model together with the vector size it produces.
#[derive(Clone, Debug)]
pub struct EmbeddingModelWithSize {
    pub name: String,
    pub vector_size: i32,
}

/// The OpenAI prompt models the configuration can pick.
#[derive(Clone, Copy, Debug, PartialEq, Eq, Structural)]
pub enum OpenAIPromptModel {
    GPT4OMini,
    GPT4O,
    O3Mini,
    O4Mini,
    GPT41,
    GPT41Mini,
    GPT41Nano,
}

impl Default for OpenAIPromptModel {
    fn default() -> (r: Self)
        ensures
            r == OpenAIPromptModel::GPT4OMini,
    {
        OpenAIPromptModel::GPT4OMini
    }
}

impl OpenAIPromptModel {
    /// The name the provider knows the model by.
    pub fn api_name(&self) -> (r: &'static str)
        ensures
            r@ == (match *self {
                OpenAIPromptModel::GPT4OMini => "gpt-4o-mini"@,
                OpenAIPromptModel::GPT4O => "gpt-4o"@,
                OpenAIPromptModel::O3Mini => "o3-mini"@,
                OpenAIPromptModel::O4Mini => "o4-mini"@,
                OpenAIPromptModel::GPT41 => "gpt-4.1"@,
                OpenAIPromptModel::GPT41Mini => "gpt-4.1-mini"@,
                OpenAIPromptModel::GPT41Nano => "gpt-4.1-nano"@,
            }),
    {
        match self {
            OpenAIPromptModel::GPT4OMini => "gpt-4o-mini",
            OpenAIPromptModel::GPT4O => "gpt-4o",
            OpenAIPromptModel::O3Mini => "o3-mini",
            OpenAIPromptModel::O4Mini => "o4-mini",
            OpenAIPromptModel::GPT41 => "gpt-4.1",
            OpenAIPromptModel::GPT41Mini => "gpt-4.1-mini",
            OpenAIPromptModel::GPT41Nano => "gpt-4.1-nano",
        }
    }
}

/// The OpenAI embedding models the configuration can pick.
#[derive(Clone, Copy, Debug, PartialEq, Eq, Structural)]
pub enum OpenAIEmbeddingModel {
    TextEmbedding3Small,
    TextEmbedding3Large,
}

impl Default for OpenAIEmbeddingModel {
    fn default() -> (r: Self)
        ensures
            r == OpenAIEmbeddingModel::TextEmbedding3Large,
    {
        OpenAIEmbeddingModel::TextEmbedding3Large
    }
}

impl OpenAIEmbeddingModel {
    /// The name the provider knows the model by.
    pub fn api_name(&self) -> (r: &'static str)
        ensures
            r@ == (match *self {
                OpenAIEmbeddingModel::TextEmbedding3Small => "text-embedding-3-small"@,
                OpenAIEmbeddingModel::TextEmbedding3Large => "text-embedding-3-large"@,
            }),
    {
        match self {
            OpenAIEmbeddingModel::TextEmbedding3Small => "text-embedding-3-small",
            OpenAIEmbeddingModel::TextEmbedding3Large => "text-embedding-3-large",
        }
    }

    /// The vector size the model produces.
    pub fn vector_size(&self) -> (r: i32)
        ensures
            r == (match *self {
                OpenAIEmbeddingModel::TextEmbedding3Small => 1536int,
                OpenAIEmbeddingModel::TextEmbedding3Large => 3072int,
            }),
    {
        match self {
            OpenAIEmbeddingModel::TextEmbedding3Small => 1536,
            OpenAIEmbeddingModel::TextEmbedding3Large => 3072,
        }
    }
}

} // verus!
