//! Talking to the model: the shape of its replies and the settings of a provider.

use vstd::prelude::*;
use crate::types::{
    LLMResponse, Message, MessageView, Role, ToolCall, Usage, call_views, opt_view,
};

pub mod client;
pub mod openai;
pub mod provider;

pub use client::LLMClient;
pub use openai::{ProviderSettings, create_provider};
pub use provider::LLMProvider;

verus! {

/// A reply of an OpenAI-compatible chat completion endpoint.
#[derive(Debug)]
pub struct ChatCompletionResponse {
    pub id: String,
    pub object: String,
    pub created: u64,
    pub model: String,
    pub choices: Vec<Choice>,
    pub usage: Option<Usage>,
}

/// One of the replies the endpoint offers.
#[derive(Debug)]
pub struct Choice {
    pub index: u32,
    pub message: ResponseMessage,
    pub finish_reason: Option<String>,
}

/// The message of a choice, as the endpoint sends it.
#[derive(Debug)]
pub struct ResponseMessage {
    pub role: String,
    pub content: Option<String>,
    pub tool_calls: Option<Vec<ToolCall>>,
}

/// The role that a role name stands for; an unknown name stands for the assistant.
pub open spec fn role_named(name: Seq<char>) -> Role {
    if name == "system"@ {
        Role::System
    } else if name == "user"@ {
        Role::User
    } else if name == "assistant"@ {
        Role::Assistant
    } else if name == "tool"@ {
        Role::Tool
    } else {
        Role::Assistant
    }
}

/// The role that `name` stands for.
pub fn role_from_name(name: &str) -> (r: Role)
    ensures
        r == role_named(name@),
{
    if crate::tools::text_equal(name, "system") {
        Role::System
    } else if crate::tools::text_equal(name, "user") {
        Role::User
    } else if crate::tools::text_equal(name, "assistant") {
        Role::Assistant
    } else if crate::tools::text_equal(name, "tool") {
        Role::Tool
    } else {
        Role::Assistant
    }
}

/// The message that a choice becomes: its role by name, its content (empty
/// when absent) and its tool calls.
pub open spec fn choice_message(m: ResponseMessage) -> MessageView {
    MessageView {
        role: role_named(m.role@),
        content: match opt_view(m.content) {
            Some(c) => c,
            None => Seq::empty(),
        },
        tool_calls: match m.tool_calls {
            Some(calls) => Some(call_views(calls@)),
            None => None,
        },
        tool_call_id: None,
    }
}

impl LLMResponse {
    /// The reply that a completion stands for: its first choice, and its usage.
    pub fn from_completion(response: ChatCompletionResponse) -> (r: LLMResponse)
        requires
            response.choices@.len() > 0,
        ensures
            r.message@ == choice_message(response.choices@[0].message),
            r.usage == response.usage,
    {
        let mut choices = response.choices;
        let choice = choices.remove(0);
        let m = choice.message;
        let role = role_from_name(m.role.as_str());
        let content = match m.content {
            Some(c) => c,
            None => String::new(),
        };
        LLMResponse {
            message: Message { role, content, tool_calls: m.tool_calls, tool_call_id: None },
            usage: response.usage,
        }
    }
}

} // verus!
