//! Where requests to the model go and how they are signed.

use vstd::prelude::*;

verus! {

/// The address and key of an OpenAI-compatible API.
#[derive(Debug)]
pub struct LLMClient {
    api_key: String,
    base_url: String,
}

impl LLMClient {
    /// A client for the API at `base_url`.
    pub fn new(api_key: String, base_url: String) -> (c: LLMClient)
        ensures
            c.spec_api_key() == api_key@,
            c.spec_base_url() == base_url@,
    {
        LLMClient { api_key, base_url }
    }

    pub closed spec fn spec_api_key(&self) -> Seq<char> {
        self.api_key@
    }

    pub closed spec fn spec_base_url(&self) -> Seq<char> {
        self.base_url@
    }

    /// The API key.
    pub fn api_key(&self) -> (k: &str)
        ensures
            k@ == self.spec_api_key(),
    {
        self.api_key.as_str()
    }

    /// The base URL.
    pub fn base_url(&self) -> (u: &str)
        ensures
            u@ == self.spec_base_url(),
    {
        self.base_url.as_str()
    }

    /// The URL of `endpoint`: the base URL followed by the endpoint.
    pub fn url(&self, endpoint: &str) -> (u: String)
        ensures
            u@ == self.spec_base_url() + endpoint@,
    {
        let mut u = self.base_url.clone();
        u.append(endpoint);
        u
    }

    /// The value of the `Authorization` header: `Bearer` and the key.
    pub fn authorization(&self) -> (h: String)
        ensures
            h@ == "Bearer "@ + self.spec_api_key(),
    {
        let mut h = String::from_str("Bearer ");
        h.append(self.api_key.as_str());
        h
    }
}

} // verus!
