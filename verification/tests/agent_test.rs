use dex::tools::executor::ToolExecutor;
use dex::chat::{classify_input, trim_line, ChatInput};
use dex::agent::{AgentAction, BuildError, RunPhase};
use dex::config::{Config, EnvOverrides};
use dex::llm::openai::ProviderError;
use dex::llm::{create_provider, ChatCompletionResponse, Choice, LLMClient, LLMProvider, ResponseMessage};
use dex::tools::ToolRegistry;
use dex::types::{
    Conversation, FunctionCall, LLMResponse, Message, Role, Task, ToolCall, ToolResult, Usage,
};
use dex::{Agent, AgentBuilder};

fn call(id: &str, name: &str, args: &str) -> ToolCall {
    ToolCall {
        id: id.to_string(),
        call_type: "function".to_string(),
        function: FunctionCall { name: name.to_string(), arguments: args.to_string() },
    }
}

fn reply(content: &str, calls: Option<Vec<ToolCall>>) -> LLMResponse {
    LLMResponse {
        message: Message {
            role: Role::Assistant,
            content: content.to_string(),
            tool_calls: calls,
            tool_call_id: None,
        },
        usage: None,
    }
}

fn agent(max: u32) -> Agent<&'static str> {
    Agent::new("model", ToolRegistry::with_defaults("/w")).with_max_iterations(max)
}

#[test]
fn reply_without_tool_calls_finishes() {
    let mut a = agent(10);
    assert!(matches!(a.start_run(&Task::new("Hello!".to_string())), AgentAction::CallLlm));
    assert_eq!(a.phase(), RunPhase::AwaitingReply { iteration: 0 });
    match a.on_llm_reply(reply("Hi there", None)) {
        AgentAction::Finish(s) => assert_eq!(s, "Hi there"),
        other => panic!("unexpected {:?}", other),
    }
    assert_eq!(a.phase(), RunPhase::Idle);
    let ms = a.conversation().messages();
    assert_eq!(ms.len(), 2);
    assert_eq!(ms[0].role, Role::User);
    assert_eq!(ms[0].content, "Hello!");
    assert_eq!(ms[1].role, Role::Assistant);
    assert_eq!(ms[1].content, "Hi there");
}

#[test]
fn empty_tool_call_list_finishes() {
    let mut a = agent(10);
    a.start_run(&Task::new("x".to_string()));
    match a.on_llm_reply(reply("done", Some(Vec::new()))) {
        AgentAction::Finish(s) => assert_eq!(s, "done"),
        other => panic!("unexpected {:?}", other),
    }
}

#[test]
fn tool_calls_run_and_answers_are_recorded() {
    let mut a = agent(10);
    a.start_run(&Task::new("list files".to_string()));
    let calls = vec![call("c1", "shell", r#"{"command":"ls"}"#), call("c2", "fs", "{}")];
    match a.on_llm_reply(reply("", Some(calls))) {
        AgentAction::ExecuteTools(cs) => {
            assert_eq!(cs.len(), 2);
            assert_eq!(cs[0].id, "c1");
            assert_eq!(cs[1].function.name, "fs");
        }
        other => panic!("unexpected {:?}", other),
    }
    assert_eq!(a.phase(), RunPhase::AwaitingTools { iteration: 0 });
    let results = vec![
        ("c1".to_string(), ToolResult::Success("a.txt".to_string())),
        ("c2".to_string(), ToolResult::Error("Missing 'operation' argument".to_string())),
    ];
    assert!(matches!(a.on_tool_results(results), AgentAction::CallLlm));
    assert_eq!(a.phase(), RunPhase::AwaitingReply { iteration: 1 });
    let ms = a.conversation().messages();
    assert_eq!(ms.len(), 4);
    assert_eq!(ms[2].role, Role::Tool);
    assert_eq!(ms[2].tool_call_id.as_deref(), Some("c1"));
    assert_eq!(ms[2].content, "a.txt");
    assert_eq!(ms[3].tool_call_id.as_deref(), Some("c2"));
    assert_eq!(ms[3].content, "Error: Missing 'operation' argument");
}

#[test]
fn run_stops_after_max_iterations() {
    let mut a = agent(2);
    let mut requests = 0;
    let mut action = a.start_run(&Task::new("loop".to_string()));
    let answer = loop {
        match action {
            AgentAction::CallLlm => {
                requests += 1;
                action = a.on_llm_reply(reply("", Some(vec![call("c", "shell", "{}")])));
            }
            AgentAction::ExecuteTools(calls) => {
                let results = calls
                    .iter()
                    .map(|c| (c.id.clone(), ToolResult::Success("ok".to_string())))
                    .collect();
                action = a.on_tool_results(results);
            }
            AgentAction::Finish(s) => break s,
            AgentAction::Fail(e) => panic!("failed: {}", e),
        }
    };
    assert_eq!(requests, 2);
    assert_eq!(answer, "Max iterations reached. Task may be incomplete.");
    assert_eq!(a.phase(), RunPhase::Idle);
}

#[test]
fn zero_iterations_finish_at_once() {
    let mut a = agent(0);
    match a.start_run(&Task::new("x".to_string())) {
        AgentAction::Finish(s) => assert_eq!(s, "Max iterations reached. Task may be incomplete."),
        other => panic!("unexpected {:?}", other),
    }
    assert_eq!(a.conversation().messages().len(), 1);
}

#[test]
fn model_failure_fails_the_run() {
    let mut a = agent(3);
    a.start_run(&Task::new("x".to_string()));
    match a.on_llm_failure() {
        AgentAction::Fail(s) => assert_eq!(s, "Failed to get LLM response"),
        other => panic!("unexpected {:?}", other),
    }
    assert_eq!(a.phase(), RunPhase::Idle);
}

#[test]
fn task_context_is_appended() {
    let mut a = agent(3);
    let task = Task::with_context(
        "Fix the bug".to_string(),
        vec![("file".to_string(), "main.rs".to_string()), ("line".to_string(), "42".to_string())],
    );
    a.start_run(&task);
    assert_eq!(
        a.conversation().messages()[0].content,
        "Fix the bug\n\nContext:\nfile: main.rs\nline: 42"
    );
}

#[test]
fn clear_history_keeps_system_prompt() {
    let mut a = Agent::with_system_prompt("m", ToolRegistry::new(), "Be brief.".to_string());
    a.start_run(&Task::new("hi".to_string()));
    a.on_llm_reply(reply("hello", None));
    assert_eq!(a.conversation().messages().len(), 3);
    a.clear_history();
    let ms = a.conversation().messages();
    assert_eq!(ms.len(), 1);
    assert_eq!(ms[0].role, Role::System);
    assert_eq!(ms[0].content, "Be brief.");
    let mut c = Conversation::new();
    c.add(Message::user("u".to_string()));
    c.clear();
    assert_eq!(c.len(), 0);
}

#[test]
fn available_tools_lists_registry_names() {
    let a = agent(1);
    assert_eq!(a.available_tools(), vec!["fs".to_string(), "shell".to_string()]);
    assert_eq!(*a.llm(), "model");
    assert_eq!(a.max_iterations(), 1);
}

#[test]
fn builder_requires_a_model() {
    let b: AgentBuilder<&str> = AgentBuilder::new();
    match b.build("/w") {
        Err(e) => {
            assert_eq!(e, BuildError::MissingLlm);
            assert_eq!(e.message(), "LLM provider is required");
        }
        Ok(_) => panic!("built without a model"),
    }
}

#[test]
fn builder_sets_prompt_tools_and_limit() {
    let a = AgentBuilder::new()
        .with_llm("m")
        .with_system_prompt("You help.".to_string())
        .with_max_iterations(3)
        .build("/w")
        .unwrap();
    assert_eq!(a.max_iterations(), 3);
    assert_eq!(a.available_tools(), vec!["fs".to_string(), "shell".to_string()]);
    let ms = a.conversation().messages();
    assert_eq!(ms.len(), 1);
    assert_eq!(ms[0].role, Role::System);
    let a = AgentBuilder::default().with_llm("m").with_tools(ToolRegistry::new()).build("/w").unwrap();
    assert!(a.available_tools().is_empty());
    assert!(a.conversation().messages().is_empty());
    assert_eq!(a.max_iterations(), 10);
}

fn completion(role: &str, content: Option<&str>, calls: Option<Vec<ToolCall>>) -> ChatCompletionResponse {
    ChatCompletionResponse {
        id: "id".to_string(),
        object: "chat.completion".to_string(),
        created: 0,
        model: "gpt".to_string(),
        choices: vec![Choice {
            index: 0,
            message: ResponseMessage {
                role: role.to_string(),
                content: content.map(|s| s.to_string()),
                tool_calls: calls,
            },
            finish_reason: Some("stop".to_string()),
        }],
        usage: Some(Usage::new(1, 2, 3)),
    }
}

#[test]
fn completion_becomes_response() {
    let r = LLMResponse::from_completion(completion("assistant", Some("hi"), None));
    assert_eq!(r.message.role, Role::Assistant);
    assert_eq!(r.message.content, "hi");
    assert!(r.message.tool_calls.is_none());
    assert_eq!(r.usage, Some(Usage::new(1, 2, 3)));
    let r = LLMResponse::from_completion(completion("tool", None, Some(vec![call("1", "fs", "{}")])));
    assert_eq!(r.message.role, Role::Tool);
    assert_eq!(r.message.content, "");
    assert_eq!(r.message.tool_calls.unwrap()[0].id, "1");
    assert_eq!(LLMResponse::from_completion(completion("system", None, None)).message.role, Role::System);
    assert_eq!(LLMResponse::from_completion(completion("user", None, None)).message.role, Role::User);
    assert_eq!(LLMResponse::from_completion(completion("robot", None, None)).message.role, Role::Assistant);
}

#[test]
fn provider_needs_a_key() {
    match create_provider(String::new(), "gpt-4o-mini".to_string(), None) {
        Err(e) => {
            assert_eq!(e, ProviderError::MissingApiKey);
            assert_eq!(e.message(), "API key is required");
        }
        Ok(_) => panic!("made without a key"),
    }
    let p = create_provider("k".to_string(), "gpt-4o-mini".to_string(), None).unwrap();
    assert_eq!(p.client().base_url(), "https://api.openai.com/v1");
    assert_eq!(p.model(), "gpt-4o-mini");
    assert!(p.is_configured());
    assert_eq!(p.max_tokens(), Some(4096));
    let p = create_provider("k".to_string(), "m".to_string(), Some("http://proxy/v1".to_string()))
        .unwrap()
        .with_max_tokens(100);
    assert_eq!(p.client().base_url(), "http://proxy/v1");
    assert_eq!(p.max_tokens(), Some(100));
}

#[test]
fn client_addresses_and_signs() {
    let c = LLMClient::new("sk".to_string(), "https://api.openai.com/v1".to_string());
    assert_eq!(c.url("/chat/completions"), "https://api.openai.com/v1/chat/completions");
    assert_eq!(c.authorization(), "Bearer sk");
    assert_eq!(c.api_key(), "sk");
}

#[test]
fn environment_overrides_config() {
    let mut c = Config::default();
    assert_eq!(c.agent.model, "gpt-4o-mini");
    assert_eq!(c.agent.api_key, "");
    assert_eq!(c.tools.config, "null");
    c.override_from_env(EnvOverrides {
        openai_api_key: Some("openai".to_string()),
        dex_api_key: Some("dex".to_string()),
        dex_model: None,
        dex_api_base: Some("http://local".to_string()),
    });
    assert_eq!(c.agent.api_key, "dex");
    assert_eq!(c.agent.model, "gpt-4o-mini");
    assert_eq!(c.agent.api_base.as_deref(), Some("http://local"));
    c.override_from_env(EnvOverrides {
        openai_api_key: Some("openai".to_string()),
        dex_api_key: None,
        dex_model: Some("gpt-4o".to_string()),
        dex_api_base: None,
    });
    assert_eq!(c.agent.api_key, "openai");
    assert_eq!(c.agent.model, "gpt-4o");
    assert_eq!(c.agent.api_base.as_deref(), Some("http://local"));
}

#[test]
fn config_file_lies_below_home() {
    assert_eq!(Config::config_path("/home/u"), "/home/u/.config/dex/config.toml");
    assert_eq!(Config::config_path("/home/u/"), "/home/u/.config/dex/config.toml");
}

#[test]
fn chat_lines_are_classified() {
    assert_eq!(classify_input("   "), ChatInput::Blank);
    assert_eq!(classify_input(""), ChatInput::Blank);
    assert_eq!(classify_input(" exit "), ChatInput::Exit);
    assert_eq!(classify_input("quit"), ChatInput::Exit);
    assert_eq!(classify_input("clear\n"), ChatInput::Clear);
    assert_eq!(classify_input("\ttools"), ChatInput::Tools);
    assert_eq!(classify_input("  list files  "), ChatInput::Message("list files".to_string()));
    assert_eq!(classify_input("exit now"), ChatInput::Message("exit now".to_string()));
    for s in ["  a b ", "\u{3000}x\u{2028}", "", "   ", "y"] {
        assert_eq!(trim_line(s), s.trim());
    }
}

#[test]
fn api_key_and_prompt_selection() {
    let mut c = Config::default();
    assert_eq!(c.select_api_key(None), None);
    assert_eq!(c.select_api_key(Some("cli".to_string())), Some("cli".to_string()));
    c.agent.api_key = "conf".to_string();
    assert_eq!(c.select_api_key(None), Some("conf".to_string()));
    assert_eq!(c.select_api_key(Some(String::new())), None);
    assert!(c.system_prompt().starts_with("You are a helpful AI assistant with access to tools. When"));
    c.agent.system_prompt = Some("Be terse.".to_string());
    assert_eq!(c.system_prompt(), "Be terse.");
}

#[test]
fn every_call_gets_one_answer_in_order() {
    let mut a = agent(5);
    a.start_run(&Task::new("go".to_string()));
    let calls = vec![call("x1", "fs", "{}"), call("x2", "nope", "{}"), call("x3", "shell", "{}")];
    let calls = match a.on_llm_reply(reply("", Some(calls))) {
        AgentAction::ExecuteTools(cs) => cs,
        other => panic!("unexpected {:?}", other),
    };
    let outcomes = vec![
        Ok(ToolResult::Success("one".to_string())),
        Err("Tool 'nope' not found".to_string()),
        Ok(ToolResult::Error("refused".to_string())),
    ];
    let results = ToolExecutor::collect_results(&calls, outcomes);
    a.on_tool_results(results);
    let ms = a.conversation().messages();
    assert_eq!(ms.len(), 5);
    let ids: Vec<_> = ms[2..].iter().map(|m| m.tool_call_id.clone().unwrap()).collect();
    assert_eq!(ids, vec!["x1", "x2", "x3"]);
    assert_eq!(ms[3].content, "Error: Tool 'nope' not found");
    assert_eq!(ms[4].content, "Error: refused");
}

#[test]
fn overrides_apply_with_and_without_a_file() {
    let env = || EnvOverrides {
        openai_api_key: Some("k".to_string()),
        dex_api_key: None,
        dex_model: Some("m".to_string()),
        dex_api_base: None,
    };
    let c = Config::load_from(None, env());
    assert_eq!(c.agent.api_key, "k");
    assert_eq!(c.agent.model, "m");
    assert_eq!(c.tools.config, "null");
    let mut f = Config::default();
    f.agent.api_base = Some("http://b".to_string());
    f.tools.enabled = vec!["fs".to_string()];
    let c = Config::load_from(Some(f), env());
    assert_eq!(c.agent.api_key, "k");
    assert_eq!(c.agent.api_base.as_deref(), Some("http://b"));
    assert_eq!(c.tools.enabled, vec!["fs".to_string()]);
}

#[test]
fn clear_drops_system_replies_of_runs() {
    let mut a = Agent::with_system_prompt("m", ToolRegistry::new(), "Be brief.".to_string());
    a.start_run(&Task::new("hi".to_string()));
    let mut r = reply("note", None);
    r.message.role = Role::System;
    a.on_llm_reply(r);
    assert_eq!(a.conversation().messages().len(), 3);
    a.clear_history();
    let ms = a.conversation().messages();
    assert_eq!(ms.len(), 1);
    assert_eq!(ms[0].content, "Be brief.");
    let mut b = agent(2);
    b.start_run(&Task::new("hi".to_string()));
    let mut r = reply("note", None);
    r.message.role = Role::System;
    b.on_llm_reply(r);
    b.clear_history();
    assert!(b.conversation().messages().is_empty());
}
