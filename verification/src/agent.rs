//! The agent: it keeps the conversation and decides, step by step, what the
//! run of a task does next. The application performs each step's action
//! (asking the model, running tools) and hands the outcome back.

use vstd::prelude::*;
use crate::text::{join_strings, join_with, views};
use crate::tools::{ToolExecutor, ToolRegistry, is_default_toolset};
use crate::tools::executor::collected;
use crate::types::{
    Conversation, LLMResponse, Message, MessageView, Role, Task, TaskView, ToolCall, ToolCallView,
    ToolResult, ToolResultView, call_views, opt_view, plain_message, result_views,
};

verus! {

/// The answer of a run that used up its iterations.
pub open spec fn max_iterations_text() -> Seq<char> {
    "Max iterations reached. Task may be incomplete."@
}

/// The error of a run whose request to the model failed.
pub open spec fn reply_failure_text() -> Seq<char> {
    "Failed to get LLM response"@
}

/// Where a run stands.
#[derive(Debug, Clone, Copy, PartialEq, Eq, Structural)]
pub enum RunPhase {
    /// No run is under way.
    Idle,
    /// The model has been asked, in the given iteration, and its reply is awaited.
    AwaitingReply { iteration: u32 },
    /// The tools that the model called in the given iteration are running.
    AwaitingTools { iteration: u32 },
}

/// What the application is to do next.
#[derive(Debug)]
pub enum AgentAction {
    /// Send the conversation and the tool definitions to the model.
    CallLlm,
    /// Run these tool calls and report their answers.
    ExecuteTools(Vec<ToolCall>),
    /// The run is over; this is its answer.
    Finish(String),
    /// The run failed with this error.
    Fail(String),
}

pub enum ActionView {
    CallLlm,
    ExecuteTools(Seq<ToolCallView>),
    Finish(Seq<char>),
    Fail(Seq<char>),
    /// An event that does not fit the phase leaves all as it was.
    Ignored,
}

impl View for AgentAction {
    type V = ActionView;

    open spec fn view(&self) -> ActionView {
        match self {
            AgentAction::CallLlm => ActionView::CallLlm,
            AgentAction::ExecuteTools(calls) => ActionView::ExecuteTools(call_views(calls@)),
            AgentAction::Finish(s) => ActionView::Finish(s@),
            AgentAction::Fail(s) => ActionView::Fail(s@),
        }
    }
}

/// What a run's decisions depend on: the conversation, the iteration limit and the phase.
pub struct AgentState {
    pub messages: Seq<MessageView>,
    pub max_iterations: u32,
    pub phase: RunPhase,
}

/// What happens to a run.
pub enum AgentEvent {
    /// A task is given.
    Start(TaskView),
    /// The model replied with this message.
    Replied(MessageView),
    /// The request to the model failed.
    ReplyFailed,
    /// The called tools answered: each answer under the id of its call.
    ToolsDone(Seq<(Seq<char>, ToolResultView)>),
}

/// One `key: value` line of a task's context.
pub open spec fn context_line(p: (Seq<char>, Seq<char>)) -> Seq<char> {
    p.0 + ": "@ + p.1
}

/// The user message that a task becomes: the description, and the context
/// lines below a `Context:` heading when there is a context.
pub open spec fn task_prompt(task: TaskView) -> Seq<char> {
    match task.context {
        Some(pairs) => task.description + "\n\nContext:\n"@ + join_with(
            pairs.map_values(|p: (Seq<char>, Seq<char>)| context_line(p)),
            "\n"@,
        ),
        None => task.description,
    }
}

/// The message that answers tool call `id`; a failed tool's answer reads `Error: ...`.
pub open spec fn tool_message(id: Seq<char>, r: ToolResultView) -> MessageView {
    MessageView {
        role: Role::Tool,
        content: match r {
            ToolResultView::Success(c) => c,
            ToolResultView::Error(e) => "Error: "@ + e,
        },
        tool_calls: None,
        tool_call_id: Some(id),
    }
}

/// The messages that record the answers of the tools, in order.
pub open spec fn tool_messages(results: Seq<(Seq<char>, ToolResultView)>) -> Seq<MessageView> {
    results.map_values(|p: (Seq<char>, ToolResultView)| tool_message(p.0, p.1))
}

/// The tool calls of a reply, when it has at least one.
pub open spec fn pending_calls(m: MessageView) -> Option<Seq<ToolCallView>> {
    match m.tool_calls {
        Some(calls) => if calls.len() > 0 {
            Some(calls)
        } else {
            None
        },
        None => None,
    }
}

/// The decisions of the agent: the state and the action after an event.
pub open spec fn agent_step(s: AgentState, e: AgentEvent) -> (AgentState, ActionView) {
    match e {
        AgentEvent::Start(task) => {
            let messages = s.messages.push(plain_message(Role::User, task_prompt(task)));
            if s.max_iterations == 0 {
                (
                    AgentState { messages, max_iterations: s.max_iterations, phase: RunPhase::Idle },
                    ActionView::Finish(max_iterations_text()),
                )
            } else {
                (
                    AgentState {
                        messages,
                        max_iterations: s.max_iterations,
                        phase: RunPhase::AwaitingReply { iteration: 0 },
                    },
                    ActionView::CallLlm,
                )
            }
        },
        AgentEvent::Replied(m) => match s.phase {
            RunPhase::AwaitingReply { iteration } => {
                let messages = s.messages.push(m);
                match pending_calls(m) {
                    Some(calls) => (
                        AgentState {
                            messages,
                            max_iterations: s.max_iterations,
                            phase: RunPhase::AwaitingTools { iteration },
                        },
                        ActionView::ExecuteTools(calls),
                    ),
                    None => (
                        AgentState {
                            messages,
                            max_iterations: s.max_iterations,
                            phase: RunPhase::Idle,
                        },
                        ActionView::Finish(m.content),
                    ),
                }
            },
            _ => (s, ActionView::Ignored),
        },
        AgentEvent::ReplyFailed => match s.phase {
            RunPhase::AwaitingReply { .. } => (
                AgentState {
                    messages: s.messages,
                    max_iterations: s.max_iterations,
                    phase: RunPhase::Idle,
                },
                ActionView::Fail(reply_failure_text()),
            ),
            _ => (s, ActionView::Ignored),
        },
        AgentEvent::ToolsDone(results) => match s.phase {
            RunPhase::AwaitingTools { iteration } => {
                let messages = s.messages + tool_messages(results);
                if iteration + 1 < s.max_iterations {
                    (
                        AgentState {
                            messages,
                            max_iterations: s.max_iterations,
                            phase: RunPhase::AwaitingReply { iteration: (iteration + 1) as u32 },
                        },
                        ActionView::CallLlm,
                    )
                } else {
                    (
                        AgentState {
                            messages,
                            max_iterations: s.max_iterations,
                            phase: RunPhase::Idle,
                        },
                        ActionView::Finish(max_iterations_text()),
                    )
                }
            },
            _ => (s, ActionView::Ignored),
        },
    }
}

/// An agent: the model `L`, the tools, the conversation and the iteration limit.
#[derive(Debug)]
pub struct Agent<L> {
    llm: L,
    tool_executor: ToolExecutor,
    conversation: Conversation,
    max_iterations: u32,
    phase: RunPhase,
}

impl<L> View for Agent<L> {
    type V = AgentState;

    closed spec fn view(&self) -> AgentState {
        AgentState {
            messages: self.conversation@,
            max_iterations: self.max_iterations,
            phase: self.phase,
        }
    }
}

fn prompt_text(task: &Task) -> (s: String)
    ensures
        s@ == task_prompt(task@),
{
    match &task.context {
        None => task.description.clone(),
        Some(pairs) => {
            let ghost all = task@.context->0;
            let mut lines: Vec<String> = Vec::new();
            let n = pairs.len();
            let mut i: usize = 0;
            while i < n
                invariant
                    n == pairs@.len(),
                    all == pairs@.map_values(|p: (String, String)| (p.0@, p.1@)),
                    i <= n,
                    views(lines@) =~= all.map_values(
                        |p: (Seq<char>, Seq<char>)| context_line(p),
                    ).take(i as int),
                decreases n - i,
            {
                let mut line = pairs[i].0.clone();
                line.append(": ");
                line.append(pairs[i].1.as_str());
                assert(line@ == context_line(all[i as int]));
                lines.push(line);
                assert(all.map_values(|p: (Seq<char>, Seq<char>)| context_line(p)).take(i + 1)
                    =~= all.map_values(|p: (Seq<char>, Seq<char>)| context_line(p)).take(
                    i as int,
                ).push(line@));
                i = i + 1;
            }
            assert(all.map_values(|p: (Seq<char>, Seq<char>)| context_line(p)).take(n as int)
                =~= all.map_values(|p: (Seq<char>, Seq<char>)| context_line(p)));
            let mut s = task.description.clone();
            s.append("\n\nContext:\n");
            let body = join_strings(&lines, "\n");
            s.append(body.as_str());
            s
        },
    }
}

fn answer_text(result: ToolResult) -> (s: String)
    ensures
        s@ == tool_message(Seq::empty(), result@).content,
{
    match result {
        ToolResult::Success(c) => c,
        ToolResult::Error(e) => {
            let mut s = String::from_str("Error: ");
            s.append(e.as_str());
            s
        },
    }
}

impl<L> Agent<L> {
    /// An agent with an empty conversation and at most ten iterations per run.
    pub fn new(llm: L, tool_registry: ToolRegistry) -> (a: Agent<L>)
        ensures
            a@ == (AgentState {
                messages: Seq::empty(),
                max_iterations: 10,
                phase: RunPhase::Idle,
            }),
            a.spec_llm() == llm,
            a.spec_tools() == tool_registry,
    {
        Agent {
            llm,
            tool_executor: ToolExecutor::new(tool_registry),
            conversation: Conversation::new(),
            max_iterations: 10,
            phase: RunPhase::Idle,
        }
    }

    /// An agent whose conversation starts with the system prompt.
    pub fn with_system_prompt(llm: L, tool_registry: ToolRegistry, system_prompt: String) -> (a:
        Agent<L>)
        ensures
            a@ == (AgentState {
                messages: seq![plain_message(Role::System, system_prompt@)],
                max_iterations: 10,
                phase: RunPhase::Idle,
            }),
            a.spec_llm() == llm,
            a.spec_tools() == tool_registry,
    {
        Agent {
            llm,
            tool_executor: ToolExecutor::new(tool_registry),
            conversation: Conversation::with_system_prompt(system_prompt),
            max_iterations: 10,
            phase: RunPhase::Idle,
        }
    }

    /// The same agent, with at most `max` iterations per run.
    pub fn with_max_iterations(self, max: u32) -> (a: Agent<L>)
        ensures
            a@ == (AgentState { max_iterations: max, ..self@ }),
            a.spec_llm() == self.spec_llm(),
            a.spec_tools() == self.spec_tools(),
    {
        let mut a = self;
        a.max_iterations = max;
        a
    }

    /// The model.
    pub closed spec fn spec_llm(&self) -> L {
        self.llm
    }

    /// The tools.
    pub closed spec fn spec_tools(&self) -> ToolRegistry {
        self.tool_executor.spec_registry()
    }

    /// The model.
    pub fn llm(&self) -> (l: &L)
        ensures
            *l == self.spec_llm(),
    {
        &self.llm
    }

    /// What finds and runs the tools.
    pub fn tool_executor(&self) -> (e: &ToolExecutor)
        ensures
            e.spec_registry() == self.spec_tools(),
    {
        &self.tool_executor
    }

    /// Where the current run stands.
    pub fn phase(&self) -> (p: RunPhase)
        ensures
            p == self@.phase,
    {
        self.phase
    }

    /// The iteration limit of a run.
    pub fn max_iterations(&self) -> (m: u32)
        ensures
            m == self@.max_iterations,
    {
        self.max_iterations
    }

    /// Starts a run of `task`: adds its user message and asks for the model,
    /// or ends at once when no iteration is allowed.
    pub fn start_run(&mut self, task: &Task) -> (a: AgentAction)
        ensures
            (final(self)@, a@) == agent_step(old(self)@, AgentEvent::Start(task@)),
            final(self).spec_llm() == old(self).spec_llm(),
            final(self).spec_tools() == old(self).spec_tools(),
    {
        let text = prompt_text(task);
        self.conversation.add(Message::user(text));
        if self.max_iterations == 0 {
            self.phase = RunPhase::Idle;
            AgentAction::Finish(String::from_str("Max iterations reached. Task may be incomplete."))
        } else {
            self.phase = RunPhase::AwaitingReply { iteration: 0 };
            AgentAction::CallLlm
        }
    }

    /// Takes the model's reply: records it, then runs its tool calls if it
    /// has any, or ends the run with its content.
    pub fn on_llm_reply(&mut self, response: LLMResponse) -> (a: AgentAction)
        requires
            old(self)@.phase is AwaitingReply,
        ensures
            (final(self)@, a@) == agent_step(old(self)@, AgentEvent::Replied(response.message@)),
            final(self).spec_llm() == old(self).spec_llm(),
            final(self).spec_tools() == old(self).spec_tools(),
    {
        let iteration = match self.phase {
            RunPhase::AwaitingReply { iteration } => iteration,
            _ => 0,
        };
        let message = response.message;
        let content = message.content.clone();
        let calls: Option<Vec<ToolCall>> = match &message.tool_calls {
            Some(calls) => if calls.len() > 0 {
                Some(crate::types::copy_calls(calls))
            } else {
                None
            },
            None => None,
        };
        self.conversation.add(message);
        match calls {
            Some(calls) => {
                self.phase = RunPhase::AwaitingTools { iteration };
                AgentAction::ExecuteTools(calls)
            },
            None => {
                self.phase = RunPhase::Idle;
                AgentAction::Finish(content)
            },
        }
    }

    /// The request to the model failed: the run ends with an error.
    pub fn on_llm_failure(&mut self) -> (a: AgentAction)
        requires
            old(self)@.phase is AwaitingReply,
        ensures
            (final(self)@, a@) == agent_step(old(self)@, AgentEvent::ReplyFailed),
            final(self).spec_llm() == old(self).spec_llm(),
            final(self).spec_tools() == old(self).spec_tools(),
    {
        self.phase = RunPhase::Idle;
        AgentAction::Fail(String::from_str("Failed to get LLM response"))
    }

    /// Takes the answers of the tools, each under its call's id: records
    /// them, then asks the model again, or ends the run when the iterations are used up.
    pub fn on_tool_results(&mut self, results: Vec<(String, ToolResult)>) -> (a: AgentAction)
        requires
            old(self)@.phase is AwaitingTools,
        ensures
            (final(self)@, a@) == agent_step(
                old(self)@,
                AgentEvent::ToolsDone(result_views(results@)),
            ),
            final(self).spec_llm() == old(self).spec_llm(),
            final(self).spec_tools() == old(self).spec_tools(),
    {
        let iteration = match self.phase {
            RunPhase::AwaitingTools { iteration } => iteration,
            _ => 0,
        };
        let ghost start = self.conversation@;
        let mut results = results;
        // The answers are recorded in the order of the calls.
        let n = results.len();
        let mut k: usize = 0;
        let ghost all = results@;
        while k < n
            invariant
                n == all.len(),
                results@ == all.subrange(k as int, n as int),
                k <= n,
                self.conversation@ == start + tool_messages(result_views(all)).take(k as int),
                self.phase == old(self).phase,
                self.max_iterations == old(self).max_iterations,
                self.llm == old(self).llm,
                self.tool_executor == old(self).tool_executor,
            decreases n - k,
        {
            let (id, result) = results.remove(0);
            let content = answer_text(result);
            proof {
                assert(all[k as int] == (id, result));
            }
            self.conversation.add(Message::tool_result(id, content));
            assert(tool_messages(result_views(all)).take(k + 1) =~= tool_messages(
                result_views(all),
            ).take(k as int).push(tool_message(all[k as int].0@, all[k as int].1@)));
            assert(results@ =~= all.subrange(k + 1, n as int));
            k = k + 1;
        }
        assert(tool_messages(result_views(all)).take(n as int) =~= tool_messages(
            result_views(all),
        ));
        if iteration < u32::MAX && iteration + 1 < self.max_iterations {
            self.phase = RunPhase::AwaitingReply { iteration: iteration + 1 };
            AgentAction::CallLlm
        } else {
            self.phase = RunPhase::Idle;
            AgentAction::Finish(String::from_str("Max iterations reached. Task may be incomplete."))
        }
    }

    /// Forgets the exchange; only the system prompt the agent was made with stays.
    pub fn clear_history(&mut self)
        ensures
            final(self)@ == (AgentState {
                messages: crate::types::after_clear(old(self)@.messages),
                ..old(self)@
            }),
            final(self).spec_llm() == old(self).spec_llm(),
            final(self).spec_tools() == old(self).spec_tools(),
    {
        self.conversation.clear();
    }

    /// The conversation so far.
    pub fn conversation(&self) -> (c: &Conversation)
        ensures
            c@ == self@.messages,
    {
        &self.conversation
    }

    /// The names of the available tools.
    pub fn available_tools(&self) -> (ns: Vec<String>)
        ensures
            views(ns@) == self.spec_tools()@.map_values(|t: crate::tools::AnyTool| crate::tools::tool_name(t)),
    {
        self.tool_executor.registry().names()
    }
}


/// Why an agent could not be built.
#[derive(Debug, Clone, Copy, PartialEq, Eq, Structural)]
pub enum BuildError {
    /// No model was given.
    MissingLlm,
}

impl BuildError {
    /// The message of the error.
    pub fn message(&self) -> (s: String)
        ensures
            s@ == "LLM provider is required"@,
    {
        String::from_str("LLM provider is required")
    }
}

/// Gathers the parts of an agent; the model is required, the rest has defaults.
#[derive(Debug)]
pub struct AgentBuilder<L> {
    llm: Option<L>,
    tool_registry: Option<ToolRegistry>,
    system_prompt: Option<String>,
    max_iterations: u32,
}

pub struct AgentBuilderView<L> {
    pub llm: Option<L>,
    pub tool_registry: Option<ToolRegistry>,
    pub system_prompt: Option<Seq<char>>,
    pub max_iterations: u32,
}

impl<L> View for AgentBuilder<L> {
    type V = AgentBuilderView<L>;

    closed spec fn view(&self) -> AgentBuilderView<L> {
        AgentBuilderView {
            llm: self.llm,
            tool_registry: self.tool_registry,
            system_prompt: opt_view(self.system_prompt),
            max_iterations: self.max_iterations,
        }
    }
}

/// The messages an agent starts with: the system prompt, if there is one.
pub open spec fn initial_messages(system_prompt: Option<Seq<char>>) -> Seq<MessageView> {
    match system_prompt {
        Some(p) => seq![plain_message(Role::System, p)],
        None => Seq::empty(),
    }
}

impl<L> AgentBuilder<L> {
    /// A builder with nothing set and a limit of ten iterations.
    pub fn new() -> (b: AgentBuilder<L>)
        ensures
            b@ == (AgentBuilderView::<L> {
                llm: None,
                tool_registry: None,
                system_prompt: None,
                max_iterations: 10,
            }),
    {
        AgentBuilder { llm: None, tool_registry: None, system_prompt: None, max_iterations: 10 }
    }

    /// Sets the model.
    pub fn with_llm(self, llm: L) -> (b: AgentBuilder<L>)
        ensures
            b@ == (AgentBuilderView { llm: Some(llm), ..self@ }),
    {
        AgentBuilder { llm: Some(llm), ..self }
    }

    /// Sets the tools.
    pub fn with_tools(self, registry: ToolRegistry) -> (b: AgentBuilder<L>)
        ensures
            b@ == (AgentBuilderView { tool_registry: Some(registry), ..self@ }),
    {
        AgentBuilder { tool_registry: Some(registry), ..self }
    }

    /// Sets the system prompt.
    pub fn with_system_prompt(self, prompt: String) -> (b: AgentBuilder<L>)
        ensures
            b@ == (AgentBuilderView { system_prompt: Some(prompt@), ..self@ }),
    {
        AgentBuilder { system_prompt: Some(prompt), ..self }
    }

    /// Sets the iteration limit.
    pub fn with_max_iterations(self, max: u32) -> (b: AgentBuilder<L>)
        ensures
            b@ == (AgentBuilderView { max_iterations: max, ..self@ }),
    {
        AgentBuilder { max_iterations: max, ..self }
    }

    /// The agent: an error without a model; without tools of its own it gets
    /// the default tools, working in `working_dir`.
    pub fn build(self, working_dir: &str) -> (r: Result<Agent<L>, BuildError>)
        ensures
            match r {
                Err(e) => self@.llm is None && e == BuildError::MissingLlm,
                Ok(a) => {
                    &&& self@.llm == Some(a.spec_llm())
                    &&& a@ == (AgentState {
                        messages: initial_messages(self@.system_prompt),
                        max_iterations: self@.max_iterations,
                        phase: RunPhase::Idle,
                    })
                    &&& match self@.tool_registry {
                        Some(reg) => a.spec_tools() == reg,
                        None => is_default_toolset(a.spec_tools()@, working_dir@),
                    }
                },
            },
    {
        let llm = match self.llm {
            Some(l) => l,
            None => {
                return Err(BuildError::MissingLlm);
            },
        };
        let tool_registry = match self.tool_registry {
            Some(r) => r,
            None => ToolRegistry::with_defaults(working_dir),
        };
        let agent = match self.system_prompt {
            Some(p) => Agent::with_system_prompt(llm, tool_registry, p),
            None => {
                let a = Agent::new(llm, tool_registry);
                assert(a@.messages =~= initial_messages(None));
                a
            },
        };
        Ok(agent.with_max_iterations(self.max_iterations))
    }
}

impl<L> Default for AgentBuilder<L> {
    fn default() -> (b: AgentBuilder<L>)
        ensures
            b@ == (AgentBuilderView::<L> {
                llm: None,
                tool_registry: None,
                system_prompt: None,
                max_iterations: 10,
            }),
    {
        AgentBuilder::new()
    }
}

// ----- laws of a run -----

/// The actions that the events bring about, one per event, from state `s`.
pub open spec fn run_actions(s: AgentState, events: Seq<AgentEvent>) -> Seq<ActionView>
    decreases events.len(),
{
    if events.len() == 0 {
        Seq::empty()
    } else {
        let (next, a) = agent_step(s, events[0]);
        seq![a] + run_actions(next, events.drop_first())
    }
}

/// How many of the actions ask the model.
pub open spec fn model_requests(actions: Seq<ActionView>) -> nat
    decreases actions.len(),
{
    if actions.len() == 0 {
        0
    } else {
        (if actions[0] is CallLlm {
            1nat
        } else {
            0nat
        }) + model_requests(actions.drop_first())
    }
}

/// A run in progress stays within its iteration limit.
pub open spec fn within_limit(s: AgentState) -> bool {
    match s.phase {
        RunPhase::Idle => true,
        RunPhase::AwaitingReply { iteration } => iteration < s.max_iterations,
        RunPhase::AwaitingTools { iteration } => iteration < s.max_iterations,
    }
}

/// How many more times the run in progress may ask the model.
pub open spec fn requests_left(s: AgentState) -> nat {
    match s.phase {
        RunPhase::Idle => 0,
        RunPhase::AwaitingReply { iteration } => (s.max_iterations - iteration - 1) as nat,
        RunPhase::AwaitingTools { iteration } => (s.max_iterations - iteration - 1) as nat,
    }
}

proof fn lemma_requests_within_budget(s: AgentState, events: Seq<AgentEvent>)
    requires
        within_limit(s),
        forall|i: int| 0 <= i < events.len() ==> !(#[trigger] events[i] is Start),
    ensures
        model_requests(run_actions(s, events)) <= requests_left(s),
    decreases events.len(),
{
    if events.len() > 0 {
        let (next, a) = agent_step(s, events[0]);
        let rest = events.drop_first();
        assert forall|i: int| 0 <= i < rest.len() implies !(#[trigger] rest[i] is Start) by {
            assert(rest[i] == events[i + 1]);
        }
        lemma_requests_within_budget(next, rest);
        let acts = run_actions(s, events);
        assert(acts[0] == a);
        assert(acts.drop_first() =~= run_actions(next, rest));
    }
}

/// A run asks the model at most `max_iterations` times: starting a task,
/// whatever the model and the tools then answer, as long as no new task starts.
pub proof fn lemma_run_requests_bounded(s: AgentState, task: TaskView, events: Seq<AgentEvent>)
    requires
        forall|i: int| 0 <= i < events.len() ==> !(#[trigger] events[i] is Start),
    ensures
        model_requests(run_actions(s, seq![AgentEvent::Start(task)] + events))
            <= s.max_iterations,
{
    let all = seq![AgentEvent::Start(task)] + events;
    let (next, a) = agent_step(s, all[0]);
    assert(all.drop_first() =~= events);
    lemma_requests_within_budget(next, events);
    let acts = run_actions(s, all);
    assert(acts[0] == a);
    assert(acts.drop_first() =~= run_actions(next, events));
}

/// The conversation only grows: every step keeps all earlier messages, in
/// order, and keeps the iteration limit.
pub proof fn lemma_history_kept(s: AgentState, e: AgentEvent)
    ensures
        s.messages.len() <= agent_step(s, e).0.messages.len(),
        agent_step(s, e).0.messages.subrange(0, s.messages.len() as int) == s.messages,
        agent_step(s, e).0.max_iterations == s.max_iterations,
{
    let next = agent_step(s, e).0;
    assert(next.messages.subrange(0, s.messages.len() as int) =~= s.messages);
}

/// The next action fits the next phase: the model is asked only while its
/// reply is awaited, tools run only while their answers are awaited, and a
/// finished or failed run is idle.
pub proof fn lemma_action_fits_phase(s: AgentState, e: AgentEvent)
    ensures
        ({
            let (next, a) = agent_step(s, e);
            &&& a is CallLlm ==> next.phase is AwaitingReply
            &&& a is ExecuteTools ==> next.phase is AwaitingTools
            &&& (a is Finish || a is Fail) ==> next.phase is Idle
            &&& a is Ignored ==> next == s
        }),
{
}

/// Every answer of a tool is recorded, in order, as a tool message under the
/// id of its call; a failed tool's message reads `Error: ` and its error.
pub proof fn lemma_tool_answers_recorded(
    s: AgentState,
    results: Seq<(Seq<char>, ToolResultView)>,
    i: int,
)
    requires
        s.phase is AwaitingTools,
        0 <= i < results.len(),
    ensures
        ({
            let next = agent_step(s, AgentEvent::ToolsDone(results)).0;
            &&& next.messages.len() == s.messages.len() + results.len()
            &&& next.messages[s.messages.len() + i].role == Role::Tool
            &&& next.messages[s.messages.len() + i].tool_call_id == Some(results[i].0)
            &&& next.messages[s.messages.len() + i].content == match results[i].1 {
                ToolResultView::Success(c) => c,
                ToolResultView::Error(e) => "Error: "@ + e,
            }
        }),
{
}

/// A reply without tool calls ends the run with its content; a reply with
/// tool calls runs exactly those calls.
pub proof fn lemma_reply_decides(s: AgentState, m: MessageView)
    requires
        s.phase is AwaitingReply,
    ensures
        ({
            let a = agent_step(s, AgentEvent::Replied(m)).1;
            &&& pending_calls(m) is None ==> a == ActionView::Finish(m.content)
            &&& pending_calls(m) matches Some(calls) ==> a == ActionView::ExecuteTools(calls)
        }),
{
}

/// Every tool call of a reply is answered exactly once, in the order of the
/// calls: once the answers that the executor collects for the calls come back,
/// the conversation holds one tool message per call, under that call's id.
pub proof fn lemma_every_call_answered(
    s: AgentState,
    calls: Seq<ToolCallView>,
    outcomes: Seq<Result<ToolResultView, Seq<char>>>,
    i: int,
)
    requires
        s.phase is AwaitingTools,
        outcomes.len() == calls.len(),
        0 <= i < calls.len(),
    ensures
        ({
            let next = agent_step(s, AgentEvent::ToolsDone(collected(calls, outcomes))).0;
            &&& next.messages.len() == s.messages.len() + calls.len()
            &&& next.messages[s.messages.len() + i].role == Role::Tool
            &&& next.messages[s.messages.len() + i].tool_call_id == Some(calls[i].id)
        }),
{
    lemma_tool_answers_recorded(s, collected(calls, outcomes), i);
}

/// Clearing keeps only the system prompt an agent was made with: every
/// message that runs added after it goes, including a reply with the system
/// role. (A run's first message is the user's task, so an agent made without
/// a prompt is left with no message.)
pub proof fn lemma_clear_keeps_only_prompt(prompt: Option<Seq<char>>, added: Seq<MessageView>)
    requires
        added.len() > 0 ==> added[0].role == Role::User,
    ensures
        crate::types::after_clear(initial_messages(prompt) + added) == initial_messages(prompt),
{
    let ms = initial_messages(prompt) + added;
    match prompt {
        Some(p) => {
            assert(ms[0] == plain_message(Role::System, p));
            assert(seq![ms[0]] =~= initial_messages(prompt));
        },
        None => {
            assert(initial_messages(prompt) + added =~= added);
        },
    }
}

/// A reply is recorded exactly as it came, tool calls and all: after any
/// reply awaited by a run, the conversation is the old one with that very
/// message appended, so the next request shows the calls that the tool
/// messages answer.
pub proof fn lemma_reply_recorded_as_received(s: AgentState, m: MessageView)
    requires
        s.phase is AwaitingReply,
    ensures
        agent_step(s, AgentEvent::Replied(m)).0.messages == s.messages.push(m),
        agent_step(s, AgentEvent::Replied(m)).0.messages.last().tool_calls == m.tool_calls,
        agent_step(s, AgentEvent::Replied(m)).0.max_iterations == s.max_iterations,
{
}

} // verus!
