//! Core types: messages, tool calls, tool definitions, tasks and conversations.

use vstd::prelude::*;

verus! {

/// Who wrote a message.
#[derive(Debug, Clone, Copy, PartialEq, Eq, Structural)]
pub enum Role {
    System,
    User,
    Assistant,
    Tool,
}

/// The function part of a tool call: which tool, with which JSON arguments.
#[derive(Debug)]
pub struct FunctionCall {
    pub name: String,
    pub arguments: String,
}

/// A request of the model to run a tool.
#[derive(Debug)]
pub struct ToolCall {
    pub id: String,
    pub call_type: String,
    pub function: FunctionCall,
}

/// The function part of a tool definition; `parameters` is a JSON schema, as text.
#[derive(Debug)]
pub struct FunctionDefinition {
    pub name: String,
    pub description: String,
    pub parameters: String,
}

/// A tool as the model is told of it.
#[derive(Debug)]
pub struct Tool {
    pub tool_type: String,
    pub function: FunctionDefinition,
}

/// One message of a conversation.
#[derive(Debug)]
pub struct Message {
    pub role: Role,
    pub content: String,
    pub tool_calls: Option<Vec<ToolCall>>,
    pub tool_call_id: Option<String>,
}

/// What a tool reports back.
#[derive(Debug)]
pub enum ToolResult {
    Success(String),
    Error(String),
}

/// A task for the agent: a description and, optionally, named pieces of context.
#[derive(Debug)]
pub struct Task {
    pub description: String,
    pub context: Option<Vec<(String, String)>>,
}

/// Token counts that the model reports.
#[derive(Debug, Clone, Copy, PartialEq, Eq, Structural)]
pub struct Usage {
    pub prompt_tokens: u32,
    pub completion_tokens: u32,
    pub total_tokens: u32,
}

/// A reply of the model.
#[derive(Debug)]
pub struct LLMResponse {
    pub message: Message,
    pub usage: Option<Usage>,
}

/// The messages exchanged so far.
#[derive(Debug)]
pub struct Conversation {
    messages: Vec<Message>,
}

/// Settings of the agent's model.
#[derive(Debug)]
pub struct AgentConfig {
    pub model: String,
    pub api_key: String,
    pub api_base: Option<String>,
    pub system_prompt: Option<String>,
}

// ----- views -----

pub struct FunctionCallView {
    pub name: Seq<char>,
    pub arguments: Seq<char>,
}

pub struct ToolCallView {
    pub id: Seq<char>,
    pub call_type: Seq<char>,
    pub function: FunctionCallView,
}

pub struct ToolView {
    pub tool_type: Seq<char>,
    pub name: Seq<char>,
    pub description: Seq<char>,
    pub parameters: Seq<char>,
}

pub struct MessageView {
    pub role: Role,
    pub content: Seq<char>,
    pub tool_calls: Option<Seq<ToolCallView>>,
    pub tool_call_id: Option<Seq<char>>,
}

pub enum ToolResultView {
    Success(Seq<char>),
    Error(Seq<char>),
}

pub struct TaskView {
    pub description: Seq<char>,
    pub context: Option<Seq<(Seq<char>, Seq<char>)>>,
}

pub struct AgentConfigView {
    pub model: Seq<char>,
    pub api_key: Seq<char>,
    pub api_base: Option<Seq<char>>,
    pub system_prompt: Option<Seq<char>>,
}

impl View for FunctionCall {
    type V = FunctionCallView;

    open spec fn view(&self) -> FunctionCallView {
        FunctionCallView { name: self.name@, arguments: self.arguments@ }
    }
}

impl View for ToolCall {
    type V = ToolCallView;

    open spec fn view(&self) -> ToolCallView {
        ToolCallView { id: self.id@, call_type: self.call_type@, function: self.function@ }
    }
}

impl View for Tool {
    type V = ToolView;

    open spec fn view(&self) -> ToolView {
        ToolView {
            tool_type: self.tool_type@,
            name: self.function.name@,
            description: self.function.description@,
            parameters: self.function.parameters@,
        }
    }
}

/// The views of a sequence of tool calls.
pub open spec fn call_views(calls: Seq<ToolCall>) -> Seq<ToolCallView> {
    calls.map_values(|c: ToolCall| c@)
}

/// The views of a sequence of tools.
pub open spec fn tool_views(tools: Seq<Tool>) -> Seq<ToolView> {
    tools.map_values(|t: Tool| t@)
}

/// The view of an optional string.
pub open spec fn opt_view(s: Option<String>) -> Option<Seq<char>> {
    match s {
        Some(s) => Some(s@),
        None => None,
    }
}

impl View for Message {
    type V = MessageView;

    open spec fn view(&self) -> MessageView {
        MessageView {
            role: self.role,
            content: self.content@,
            tool_calls: match self.tool_calls {
                Some(calls) => Some(call_views(calls@)),
                None => None,
            },
            tool_call_id: opt_view(self.tool_call_id),
        }
    }
}

impl View for ToolResult {
    type V = ToolResultView;

    open spec fn view(&self) -> ToolResultView {
        match self {
            ToolResult::Success(s) => ToolResultView::Success(s@),
            ToolResult::Error(s) => ToolResultView::Error(s@),
        }
    }
}

impl View for Task {
    type V = TaskView;

    open spec fn view(&self) -> TaskView {
        TaskView {
            description: self.description@,
            context: match self.context {
                Some(pairs) => Some(pairs@.map_values(|p: (String, String)| (p.0@, p.1@))),
                None => None,
            },
        }
    }
}

impl View for AgentConfig {
    type V = AgentConfigView;

    open spec fn view(&self) -> AgentConfigView {
        AgentConfigView {
            model: self.model@,
            api_key: self.api_key@,
            api_base: opt_view(self.api_base),
            system_prompt: opt_view(self.system_prompt),
        }
    }
}

/// The views of the answers of tools, each under the id of its call.
pub open spec fn result_views(results: Seq<(String, ToolResult)>) -> Seq<(Seq<char>, ToolResultView)> {
    results.map_values(|p: (String, ToolResult)| (p.0@, p.1@))
}

/// The views of a sequence of messages.
pub open spec fn message_views(ms: Seq<Message>) -> Seq<MessageView> {
    ms.map_values(|m: Message| m@)
}

impl View for Conversation {
    type V = Seq<MessageView>;

    closed spec fn view(&self) -> Seq<MessageView> {
        message_views(self.messages@)
    }
}

// ----- copies -----

impl Clone for FunctionCall {
    fn clone(&self) -> (r: Self)
        ensures
            r == *self,
    {
        FunctionCall { name: self.name.clone(), arguments: self.arguments.clone() }
    }
}

impl Clone for ToolCall {
    fn clone(&self) -> (r: Self)
        ensures
            r == *self,
    {
        ToolCall {
            id: self.id.clone(),
            call_type: self.call_type.clone(),
            function: self.function.clone(),
        }
    }
}

impl Clone for ToolResult {
    fn clone(&self) -> (r: Self)
        ensures
            r == *self,
    {
        match self {
            ToolResult::Success(s) => ToolResult::Success(s.clone()),
            ToolResult::Error(s) => ToolResult::Error(s.clone()),
        }
    }
}

/// A copy of a list of tool calls.
pub fn copy_calls(calls: &Vec<ToolCall>) -> (r: Vec<ToolCall>)
    ensures
        r@ == calls@,
{
    let r = calls.clone();
    assert(r@ =~= calls@) by {
        assert forall|i: int| 0 <= i < calls@.len() implies r@[i] == calls@[i] by {
            assert(cloned::<ToolCall>(calls[i], r[i]));
        }
    }
    r
}

impl Clone for Message {
    fn clone(&self) -> (r: Self)
        ensures
            r@ == self@,
    {
        let tool_calls = match &self.tool_calls {
            Some(calls) => Some(copy_calls(calls)),
            None => None,
        };
        Message {
            role: self.role,
            content: self.content.clone(),
            tool_calls,
            tool_call_id: self.tool_call_id.clone(),
        }
    }
}

// ----- constructors -----

/// A message with no tool calls and no tool call id.
pub open spec fn plain_message(role: Role, content: Seq<char>) -> MessageView {
    MessageView { role, content, tool_calls: None, tool_call_id: None }
}

impl Message {
    /// A system message.
    pub fn system(content: String) -> (m: Message)
        ensures
            m@ == plain_message(Role::System, content@),
    {
        Message { role: Role::System, content, tool_calls: None, tool_call_id: None }
    }

    /// A user message.
    pub fn user(content: String) -> (m: Message)
        ensures
            m@ == plain_message(Role::User, content@),
    {
        Message { role: Role::User, content, tool_calls: None, tool_call_id: None }
    }

    /// An assistant message.
    pub fn assistant(content: String) -> (m: Message)
        ensures
            m@ == plain_message(Role::Assistant, content@),
    {
        Message { role: Role::Assistant, content, tool_calls: None, tool_call_id: None }
    }

    /// The answer to the tool call `tool_call_id`.
    pub fn tool_result(tool_call_id: String, content: String) -> (m: Message)
        ensures
            m@ == (MessageView {
                role: Role::Tool,
                content: content@,
                tool_calls: None,
                tool_call_id: Some(tool_call_id@),
            }),
    {
        Message { role: Role::Tool, content, tool_calls: None, tool_call_id: Some(tool_call_id) }
    }
}

impl Tool {
    /// A function tool.
    pub fn new(name: String, description: String, parameters: String) -> (t: Tool)
        ensures
            t@ == (ToolView {
                tool_type: "function"@,
                name: name@,
                description: description@,
                parameters: parameters@,
            }),
    {
        Tool {
            tool_type: String::from_str("function"),
            function: FunctionDefinition { name, description, parameters },
        }
    }
}

impl Task {
    /// A task with no context.
    pub fn new(description: String) -> (t: Task)
        ensures
            t@ == (TaskView { description: description@, context: None }),
    {
        Task { description, context: None }
    }

    /// A task with named pieces of context, in the given order.
    pub fn with_context(description: String, context: Vec<(String, String)>) -> (t: Task)
        ensures
            t.description == description,
            t.context == Some(context),
    {
        Task { description, context: Some(context) }
    }
}

/// The conversation after clearing: the opening system prompt, if it opens
/// with one, and nothing else.
pub open spec fn after_clear(ms: Seq<MessageView>) -> Seq<MessageView> {
    if ms.len() > 0 && is_system(ms[0]) {
        seq![ms[0]]
    } else {
        Seq::empty()
    }
}

/// Whether a message is a system message.
pub open spec fn is_system(m: MessageView) -> bool {
    m.role == Role::System
}

impl Conversation {
    /// An empty conversation.
    pub fn new() -> (c: Conversation)
        ensures
            c@ == Seq::<MessageView>::empty(),
    {
        let c = Conversation { messages: Vec::new() };
        assert(c@ =~= Seq::<MessageView>::empty());
        c
    }

    /// A conversation that starts with the system prompt.
    pub fn with_system_prompt(prompt: String) -> (c: Conversation)
        ensures
            c@ == seq![plain_message(Role::System, prompt@)],
    {
        let mut messages = Vec::new();
        messages.push(Message::system(prompt));
        let c = Conversation { messages };
        assert(c@ =~= seq![plain_message(Role::System, prompt@)]);
        c
    }

    /// Appends a message.
    pub fn add(&mut self, message: Message)
        ensures
            final(self)@ == old(self)@.push(message@),
    {
        self.messages.push(message);
        assert(self@ =~= old(self)@.push(message@));
    }

    /// The messages, oldest first.
    pub fn messages(&self) -> (ms: &[Message])
        ensures
            message_views(ms@) == self@,
    {
        self.messages.as_slice()
    }

    /// The number of messages.
    pub fn len(&self) -> (n: usize)
        ensures
            n == self@.len(),
    {
        self.messages.len()
    }

    /// Forgets the exchange; only the system prompt that opens the
    /// conversation stays.
    pub fn clear(&mut self)
        ensures
            final(self)@ == after_clear(old(self)@),
    {
        let keep_prompt = self.messages.len() > 0 && self.messages[0].role == Role::System;
        if keep_prompt {
            self.messages.truncate(1);
        } else {
            self.messages.clear();
        }
        assert(self@ =~= after_clear(old(self)@));
    }
}

impl Usage {
    /// Token counts.
    pub fn new(prompt_tokens: u32, completion_tokens: u32, total_tokens: u32) -> (u: Usage)
        ensures
            u == (Usage { prompt_tokens, completion_tokens, total_tokens }),
    {
        Usage { prompt_tokens, completion_tokens, total_tokens }
    }
}

impl AgentConfig {
    /// The settings of a fresh configuration: model `gpt-4o-mini`, no key,
    /// the default endpoint and no system prompt of its own.
    pub fn default_settings() -> (c: AgentConfig)
        ensures
            c@ == (AgentConfigView {
                model: "gpt-4o-mini"@,
                api_key: Seq::empty(),
                api_base: None,
                system_prompt: None,
            }),
    {
        AgentConfig {
            model: String::from_str("gpt-4o-mini"),
            api_key: String::new(),
            api_base: None,
            system_prompt: None,
        }
    }
}

} // verus!
