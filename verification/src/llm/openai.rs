//! Settings of an OpenAI-compatible provider, and the choice of them.

use vstd::prelude::*;
use crate::llm::client::LLMClient;
use crate::llm::provider::LLMProvider;

verus! {

/// The endpoint used when no other is given.
pub open spec fn openai_base_url() -> Seq<char> {
    "https://api.openai.com/v1"@
}

/// Why a provider could not be made.
#[derive(Debug, Clone, Copy, PartialEq, Eq, Structural)]
pub enum ProviderError {
    /// The API key is empty.
    MissingApiKey,
}

impl ProviderError {
    /// The message of the error.
    pub fn message(&self) -> (s: String)
        ensures
            s@ == "API key is required"@,
    {
        String::from_str("API key is required")
    }
}

/// What an OpenAI-compatible provider is made of: where to send requests,
/// which model to ask and how many tokens it may answer with.
#[derive(Debug)]
pub struct ProviderSettings {
    client: LLMClient,
    model: String,
    max_tokens: Option<u32>,
}

pub struct ProviderSettingsView {
    pub api_key: Seq<char>,
    pub base_url: Seq<char>,
    pub model: Seq<char>,
    pub max_tokens: Option<u32>,
}

impl View for ProviderSettings {
    type V = ProviderSettingsView;

    closed spec fn view(&self) -> ProviderSettingsView {
        ProviderSettingsView {
            api_key: self.client.spec_api_key(),
            base_url: self.client.spec_base_url(),
            model: self.model@,
            max_tokens: self.max_tokens,
        }
    }
}

impl ProviderSettings {
    /// Settings for the OpenAI endpoint, answers of at most 4096 tokens.
    pub fn new(api_key: String, model: String) -> (s: ProviderSettings)
        ensures
            s@ == (ProviderSettingsView {
                api_key: api_key@,
                base_url: openai_base_url(),
                model: model@,
                max_tokens: Some(4096),
            }),
    {
        ProviderSettings {
            client: LLMClient::new(api_key, String::from_str("https://api.openai.com/v1")),
            model,
            max_tokens: Some(4096),
        }
    }

    /// Settings for another endpoint (Azure, a proxy), answers of at most 4096 tokens.
    pub fn with_base_url(api_key: String, base_url: String, model: String) -> (s: ProviderSettings)
        ensures
            s@ == (ProviderSettingsView {
                api_key: api_key@,
                base_url: base_url@,
                model: model@,
                max_tokens: Some(4096),
            }),
    {
        ProviderSettings { client: LLMClient::new(api_key, base_url), model, max_tokens: Some(4096) }
    }

    /// The same settings, with answers of at most `max_tokens` tokens.
    pub fn with_max_tokens(self, max_tokens: u32) -> (s: ProviderSettings)
        ensures
            s@ == (ProviderSettingsView { max_tokens: Some(max_tokens), ..self@ }),
    {
        ProviderSettings { max_tokens: Some(max_tokens), ..self }
    }

    /// Where requests go.
    pub fn client(&self) -> (c: &LLMClient)
        ensures
            c.spec_api_key() == self@.api_key,
            c.spec_base_url() == self@.base_url,
    {
        &self.client
    }

    /// The token limit of an answer.
    pub fn max_tokens(&self) -> (m: Option<u32>)
        ensures
            m == self@.max_tokens,
    {
        self.max_tokens
    }
}

impl LLMProvider for ProviderSettings {
    fn model(&self) -> (m: &str)
        ensures
            m@ == self@.model,
    {
        self.model.as_str()
    }

    fn is_configured(&self) -> (b: bool)
        ensures
            b == (self@.api_key.len() != 0),
    {
        !self.client.api_key().is_empty()
    }
}

/// The provider settings for a key, a model and an optional endpoint: an
/// error when the key is empty; the OpenAI endpoint when none is given.
pub fn create_provider(api_key: String, model: String, api_base: Option<String>) -> (r: Result<
    ProviderSettings,
    ProviderError,
>)
    ensures
        match r {
            Err(e) => api_key@.len() == 0 && e == ProviderError::MissingApiKey,
            Ok(s) => api_key@.len() != 0 && s@ == (ProviderSettingsView {
                api_key: api_key@,
                base_url: match api_base {
                    Some(b) => b@,
                    None => openai_base_url(),
                },
                model: model@,
                max_tokens: Some(4096),
            }),
        },
{
    if api_key.as_str().is_empty() {
        return Err(ProviderError::MissingApiKey);
    }
    match api_base {
        Some(base_url) => Ok(ProviderSettings::with_base_url(api_key, base_url, model)),
        None => Ok(ProviderSettings::new(api_key, model)),
    }
}

} // verus!
