//! What a request says of itself: the session it belongs to, the provider
//! it goes to, the prompt it is screened by, and whether an embedding can
//! be had for it.

use vstd::prelude::*;
use vstd::string::StringExecFns;
use crate::scorer::Embedding;
use crate::text::{contains_text, has_substring, same_text};

verus! {

/// The session that a request belongs to: the one that the session header
/// names, else the one that the request's user field names, else "default".
pub open spec fn spec_session_id(header: Option<String>, user: Option<String>) -> Seq<char> {
    match header {
        Some(h) => h@,
        None => match user {
            Some(u) => u@,
            None => "default"@,
        },
    }
}

/// The session that a request belongs to.
pub fn resolve_session_id(header: Option<String>, user: Option<String>) -> (id: String)
    ensures
        id@ == spec_session_id(header, user),
{
    match header {
        Some(h) => h,
        None => match user {
            Some(u) => u,
            None => String::from_str("default"),
        },
    }
}

/// An upstream provider of chat completions.
#[derive(Clone, Copy, Debug, PartialEq, Eq, Structural)]
pub enum Provider {
    Groq,
    OpenAi,
}

/// Whether the name of a model is one that Groq serves.
pub open spec fn served_by_groq(model: Seq<char>) -> bool {
    ||| has_substring(model, "llama"@)
    ||| has_substring(model, "mixtral"@)
    ||| has_substring(model, "gemma"@)
}

/// The provider of a request: the one that the provider header names,
/// where every name but "groq" means OpenAI; without that header, Groq for
/// the models it serves and OpenAI for the rest.
pub open spec fn spec_provider(header: Option<Seq<char>>, model: Seq<char>) -> Provider {
    match header {
        Some(name) => if name == "groq"@ {
            Provider::Groq
        } else {
            Provider::OpenAi
        },
        None => if served_by_groq(model) {
            Provider::Groq
        } else {
            Provider::OpenAi
        },
    }
}

/// The view of a text that may be missing.
pub open spec fn text_of(text: Option<&str>) -> Option<Seq<char>> {
    match text {
        Some(t) => Some(t@),
        None => None,
    }
}

/// The provider of a request.
pub fn select_provider(header: Option<&str>, model: &str) -> (provider: Provider)
    ensures
        provider == spec_provider(text_of(header), model@),
{
    match header {
        Some(name) => {
            if same_text(name, "groq") {
                Provider::Groq
            } else {
                Provider::OpenAi
            }
        },
        None => {
            if contains_text(model, "llama") || contains_text(model, "mixtral") || contains_text(
                model,
                "gemma",
            ) {
                Provider::Groq
            } else {
                Provider::OpenAi
            }
        },
    }
}

impl Provider {
    /// The address of the provider's chat-completion endpoint.
    pub fn chat_url(&self) -> (url: String)
        ensures
            url@ == match *self {
                Provider::Groq => "https://api.groq.com/openai/v1/chat/completions"@,
                Provider::OpenAi => "https://api.openai.com/v1/chat/completions"@,
            },
    {
        match self {
            Provider::Groq => String::from_str("https://api.groq.com/openai/v1/chat/completions"),
            Provider::OpenAi => String::from_str("https://api.openai.com/v1/chat/completions"),
        }
    }
}

/// Whether an API key can be used to ask for embeddings: it is not the
/// stand-in "none", and it does not hold the filler "xxxx".
pub open spec fn key_usable(api_key: Seq<char>) -> bool {
    api_key != "none"@ && !has_substring(api_key, "xxxx"@)
}

/// Why no embedding is to be had.
#[derive(Clone, Copy, Debug, PartialEq, Eq, Structural)]
pub enum EmbeddingError {
    /// There is no usable API key, so the provider is not asked.
    NoKey,
    /// The provider answered without an embedding.
    NoEmbedding,
}

impl EmbeddingError {
    /// The error in words.
    pub fn message(&self) -> (text: String)
        ensures
            text@ == match *self {
                EmbeddingError::NoKey => "No Key"@,
                EmbeddingError::NoEmbedding => "No embedding"@,
            },
    {
        match self {
            EmbeddingError::NoKey => String::from_str("No Key"),
            EmbeddingError::NoEmbedding => String::from_str("No embedding"),
        }
    }
}

/// Says whether the embedding provider is to be asked at all: it is not
/// where the API key cannot be used.
pub fn check_embedding_key(api_key: &str) -> (checked: Result<(), EmbeddingError>)
    ensures
        key_usable(api_key@) ==> checked is Ok,
        !key_usable(api_key@) ==> checked == Err::<(), EmbeddingError>(EmbeddingError::NoKey),
{
    if same_text(api_key, "none") || contains_text(api_key, "xxxx") {
        Err(EmbeddingError::NoKey)
    } else {
        Ok(())
    }
}

/// The vector of an embedding that was asked for.
pub open spec fn answered_vector(answer: Result<Embedding, EmbeddingError>) -> Result<
    Seq<i32>,
    EmbeddingError,
> {
    match answer {
        Ok(e) => Ok(e@),
        Err(error) => Err(error),
    }
}

/// The first of the embeddings that the provider sent; an error if it sent
/// none.
pub fn first_embedding(data: &Vec<Embedding>) -> (first: Result<Embedding, EmbeddingError>)
    ensures
        answered_vector(first) == if data.len() == 0 {
            Err::<Seq<i32>, EmbeddingError>(EmbeddingError::NoEmbedding)
        } else {
            Ok::<Seq<i32>, EmbeddingError>(data[0]@)
        },
{
    if data.len() == 0 {
        Err(EmbeddingError::NoEmbedding)
    } else {
        Ok(data[0].clone())
    }
}

/// One message of a chat request.
#[derive(Debug)]
pub struct ChatMessage {
    pub role: String,
    pub content: String,
}

/// The prompt that a request is screened by: the content of its last
/// message, and the empty text where it has no message.
pub open spec fn spec_latest_prompt(messages: Seq<ChatMessage>) -> Seq<char> {
    if messages.len() == 0 {
        Seq::empty()
    } else {
        messages.last().content@
    }
}

/// The prompt that a request is screened by.
pub fn latest_prompt(messages: &Vec<ChatMessage>) -> (prompt: String)
    ensures
        prompt@ == spec_latest_prompt(messages@),
{
    let n: usize = messages.len();
    if n == 0 {
        String::new()
    } else {
        messages[n - 1].content.clone()
    }
}

} // verus!
