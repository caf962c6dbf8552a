use dex::text::{decimal_string, first_word_of, join_path, join_strings};
use dex::tools::executor::ToolExecutor;
use dex::tools::fs::{DirEntry, EntryKind, FileSystemTool, FsRequest, FsStep, ListOutcome, WriteOutcome};
use dex::tools::shell::{CommandOutcome, ShellStep, ShellTool};
use dex::tools::{AnyTool, CustomTool, ToolImplementation, ToolRegistry};
use dex::types::{FunctionCall, Tool, ToolCall, ToolResult};

fn call(id: &str, name: &str, args: &str) -> ToolCall {
    ToolCall {
        id: id.to_string(),
        call_type: "function".to_string(),
        function: FunctionCall { name: name.to_string(), arguments: args.to_string() },
    }
}

fn success(r: &ToolResult) -> Option<&str> {
    match r {
        ToolResult::Success(s) => Some(s.as_str()),
        ToolResult::Error(_) => None,
    }
}

fn failure(r: &ToolResult) -> Option<&str> {
    match r {
        ToolResult::Error(s) => Some(s.as_str()),
        ToolResult::Success(_) => None,
    }
}

#[test]
fn first_word_splits_on_unicode_white_space() {
    assert_eq!(first_word_of("ls -la"), "ls");
    assert_eq!(first_word_of("  \tgit status"), "git");
    assert_eq!(first_word_of("echo\u{3000}hi"), "echo");
    assert_eq!(first_word_of("pwd"), "pwd");
    assert_eq!(first_word_of(""), "");
    assert_eq!(first_word_of("   "), "   ");
}

#[test]
fn decimal_string_writes_like_to_string() {
    for v in [0, 7, 42, 300, -1, -7, 2147483647, i32::MIN] {
        assert_eq!(decimal_string(v), v.to_string());
    }
}

#[test]
fn join_path_follows_path_push() {
    assert_eq!(join_path("/home/u", "a.txt"), "/home/u/a.txt");
    assert_eq!(join_path("/home/u/", "a.txt"), "/home/u/a.txt");
    assert_eq!(join_path("", "a.txt"), "a.txt");
    assert_eq!(join_path("/home/u", "/etc/hosts"), "/etc/hosts");
    assert_eq!(join_path("dir", ""), "dir/");
    for (base, p) in [("/home/u", "a.txt"), ("/home/u/", "b"), ("x", "/abs"), ("rel", "sub/f")] {
        let mut expected = std::path::PathBuf::from(base);
        expected.push(p);
        assert_eq!(join_path(base, p), expected.to_str().unwrap());
    }
}

#[test]
fn join_strings_puts_separator_between() {
    let parts = vec!["a".to_string(), "b".to_string(), "c".to_string()];
    assert_eq!(join_strings(&parts, "\n"), "a\nb\nc");
    assert_eq!(join_strings(&Vec::new(), ", "), "");
    assert_eq!(join_strings(&vec!["x".to_string()], ", "), "x");
}

#[test]
fn shell_allows_only_listed_commands() {
    let shell = ShellTool::new("/work".to_string());
    assert!(shell.is_allowed("ls -la"));
    assert!(shell.is_allowed("  git status"));
    assert!(!shell.is_allowed("rm -rf /"));
    assert!(!shell.is_allowed("lsblk"));
    assert!(!shell.is_allowed(""));
    let narrow = shell.with_allowed_commands(vec!["make".to_string()]);
    assert!(narrow.is_allowed("make test"));
    assert!(!narrow.is_allowed("ls"));
}

#[test]
fn shell_prepare_reads_command_and_timeout() {
    let shell = ShellTool::new("/work".to_string());
    match shell.prepare(r#"{"command": "ls -la", "timeout": 500}"#) {
        Ok(ShellStep::Run(req)) => {
            assert_eq!(req.command, "ls -la");
            assert_eq!(req.working_dir, "/work");
            assert_eq!(req.timeout_secs, 300);
        }
        other => panic!("unexpected {:?}", other),
    }
    match shell.prepare(r#"{"command": "pwd"}"#) {
        Ok(ShellStep::Run(req)) => assert_eq!(req.timeout_secs, 60),
        other => panic!("unexpected {:?}", other),
    }
    match shell.prepare(r#"{"command": "pwd", "timeout": 5}"#) {
        Ok(ShellStep::Run(req)) => assert_eq!(req.timeout_secs, 5),
        other => panic!("unexpected {:?}", other),
    }
    match shell.prepare(r#"{"command": "pwd", "timeout": -5}"#) {
        Ok(ShellStep::Run(req)) => assert_eq!(req.timeout_secs, 60),
        other => panic!("unexpected {:?}", other),
    }
}

#[test]
fn shell_prepare_errors() {
    let shell = ShellTool::new("/work".to_string());
    assert_eq!(shell.prepare("not json").unwrap_err(), "Failed to parse arguments");
    assert_eq!(shell.prepare("{}").unwrap_err(), "Missing 'command' argument");
    assert_eq!(shell.prepare(r#"{"command": 3}"#).unwrap_err(), "Missing 'command' argument");
}

#[test]
fn shell_refuses_with_the_allowed_list() {
    let shell = ShellTool::new("/work".to_string()).with_allowed_commands(vec![
        "ls".to_string(),
        "cat".to_string(),
    ]);
    match shell.prepare(r#"{"command": "rm -rf /"}"#) {
        Ok(ShellStep::Reply(ToolResult::Error(msg))) => {
            assert_eq!(msg, r#"Command not allowed: rm. Allowed commands: ["ls", "cat"]"#)
        }
        other => panic!("unexpected {:?}", other),
    }
}

#[test]
fn shell_complete_reports_output() {
    let done = |success, code, out: &str, err: &str| CommandOutcome::Finished {
        success,
        exit_code: code,
        stdout: out.to_string(),
        stderr: err.to_string(),
    };
    let r = ShellTool::complete("ls", done(true, Some(0), "a\nb\n", "")).unwrap();
    assert_eq!(success(&r), Some("a\nb\n"));
    let r = ShellTool::complete("ls", done(true, Some(0), "", "warn")).unwrap();
    assert_eq!(success(&r), Some("(stderr)\nwarn"));
    let r = ShellTool::complete("ls", done(true, Some(0), "out", "warn")).unwrap();
    assert_eq!(success(&r), Some("out\n(stderr)\nwarn"));
    let r = ShellTool::complete("ls", done(false, Some(2), "", "no such file")).unwrap();
    assert_eq!(failure(&r), Some("no such file"));
    let r = ShellTool::complete("ls", done(false, Some(2), "", "")).unwrap();
    assert_eq!(failure(&r), Some("Command failed with exit code 2"));
    let r = ShellTool::complete("ls", done(false, None, "x", "")).unwrap();
    assert_eq!(failure(&r), Some("Command failed with exit code -1"));
    let e = ShellTool::complete("grep x", CommandOutcome::Failed).unwrap_err();
    assert_eq!(e, "Failed to execute command: grep x");
}

#[test]
fn fs_resolves_paths_against_working_dir() {
    let fs = FileSystemTool::new("/work".to_string());
    assert_eq!(fs.resolve_path("notes.txt"), "/work/notes.txt");
    assert_eq!(fs.resolve_path("/etc/hosts"), "/etc/hosts");
    let fs = fs.with_working_dir("/tmp/".to_string());
    assert_eq!(fs.resolve_path("a/b"), "/tmp/a/b");
}

#[test]
fn fs_prepare_operations() {
    let fs = FileSystemTool::new("/work".to_string());
    match fs.prepare(r#"{"operation": "read", "path": "a.txt"}"#) {
        Ok(FsStep::Perform(FsRequest::Read { path })) => assert_eq!(path, "/work/a.txt"),
        other => panic!("unexpected {:?}", other),
    }
    match fs.prepare(r#"{"operation": "write", "path": "b.txt", "content": "hi"}"#) {
        Ok(FsStep::Perform(FsRequest::Write { path, content })) => {
            assert_eq!(path, "/work/b.txt");
            assert_eq!(content, "hi");
        }
        other => panic!("unexpected {:?}", other),
    }
    match fs.prepare(r#"{"operation": "list", "path": "/tmp"}"#) {
        Ok(FsStep::Perform(FsRequest::List { path })) => assert_eq!(path, "/tmp"),
        other => panic!("unexpected {:?}", other),
    }
    match fs.prepare(r#"{"operation": "delete", "path": "x"}"#) {
        Ok(FsStep::Reply(ToolResult::Error(msg))) => assert_eq!(msg, "Unknown operation: delete"),
        other => panic!("unexpected {:?}", other),
    }
}

#[test]
fn fs_prepare_errors() {
    let fs = FileSystemTool::new("/work".to_string());
    assert_eq!(fs.prepare("[1,").unwrap_err(), "Failed to parse arguments");
    assert_eq!(fs.prepare(r#"{"path": "x"}"#).unwrap_err(), "Missing 'operation' argument");
    assert_eq!(fs.prepare(r#"{"operation": "read"}"#).unwrap_err(), "Missing 'path' argument");
    assert_eq!(
        fs.prepare(r#"{"operation": "write", "path": "x"}"#).unwrap_err(),
        "Missing 'content' argument for write operation"
    );
    assert_eq!(fs.prepare(r#"["read"]"#).unwrap_err(), "Missing 'operation' argument");
}

#[test]
fn fs_reports_outcomes() {
    let r = FileSystemTool::read_finished("/w/a", Some("text".to_string())).unwrap();
    assert_eq!(success(&r), Some("text"));
    assert_eq!(FileSystemTool::read_finished("/w/a", None).unwrap_err(), "Failed to read file: /w/a");
    let r = FileSystemTool::write_finished("/w/a", WriteOutcome::Written).unwrap();
    assert_eq!(success(&r), Some("File written: /w/a"));
    let e = FileSystemTool::write_finished(
        "/w/a",
        WriteOutcome::DirectoryFailed { parent: "/w".to_string() },
    )
    .unwrap_err();
    assert_eq!(e, "Failed to create directory: /w");
    assert_eq!(
        FileSystemTool::write_finished("/w/a", WriteOutcome::FileFailed).unwrap_err(),
        "Failed to write file: /w/a"
    );
    let entries = vec![
        DirEntry { name: "src".to_string(), kind: EntryKind::Dir },
        DirEntry { name: "Cargo.toml".to_string(), kind: EntryKind::File },
        DirEntry { name: "link".to_string(), kind: EntryKind::Other },
    ];
    let r = FileSystemTool::list_finished("/w", ListOutcome::Listed(entries)).unwrap();
    assert_eq!(success(&r), Some("[dir] src\n[file] Cargo.toml\n[other] link"));
    let r = FileSystemTool::list_finished("/w", ListOutcome::Listed(Vec::new())).unwrap();
    assert_eq!(success(&r), Some(""));
    assert_eq!(
        FileSystemTool::list_finished("/w", ListOutcome::OpenFailed).unwrap_err(),
        "Failed to read directory: /w"
    );
    assert_eq!(
        FileSystemTool::list_finished("/w", ListOutcome::EntryFailed("io".to_string())).unwrap_err(),
        "io"
    );
}

#[test]
fn tool_definitions() {
    let fs = FileSystemTool::new("/w".to_string());
    let d = fs.definition();
    assert_eq!(d.tool_type, "function");
    assert_eq!(d.function.name, "fs");
    assert_eq!(d.function.description, "File system operations: read, write, and list files");
    let schema: serde_json::Value = serde_json::from_str(&d.function.parameters).unwrap();
    assert_eq!(schema["required"][0].as_str(), Some("operation"));
    assert_eq!(schema["required"][1].as_str(), Some("path"));
    let shell = ShellTool::new("/w".to_string());
    let d = shell.definition();
    assert_eq!(d.function.name, "shell");
    let schema: serde_json::Value = serde_json::from_str(&d.function.parameters).unwrap();
    assert_eq!(schema["properties"]["timeout"]["default"].as_u64(), Some(60));
    assert_eq!(shell.name(), "shell");
    assert_eq!(fs.name(), "fs");
}

fn custom(name: &str, description: &str) -> AnyTool {
    AnyTool::Custom(CustomTool::new(Tool::new(
        name.to_string(),
        description.to_string(),
        "{}".to_string(),
    )))
}

#[test]
fn registry_defaults_and_lookup() {
    let reg = ToolRegistry::with_defaults("/w");
    assert_eq!(reg.names(), vec!["fs".to_string(), "shell".to_string()]);
    assert!(reg.has("fs"));
    assert!(reg.has("shell"));
    assert!(!reg.has("web"));
    assert!(matches!(reg.get("shell"), Some(AnyTool::Shell(_))));
    assert!(reg.get("web").is_none());
    let defs = reg.definitions();
    assert_eq!(defs.len(), 2);
    assert_eq!(defs[0].function.name, "fs");
    assert_eq!(defs[1].function.name, "shell");
    assert!(ToolRegistry::new().names().is_empty());
}

#[test]
fn registry_register_replaces_same_name() {
    let mut reg = ToolRegistry::with_defaults("/w");
    reg.register(custom("web", "first"));
    assert_eq!(reg.names(), vec!["fs".to_string(), "shell".to_string(), "web".to_string()]);
    reg.register(custom("web", "second"));
    assert_eq!(reg.names().len(), 3);
    match reg.get("web") {
        Some(t) => assert_eq!(t.definition().function.description, "second"),
        None => panic!("web missing"),
    }
    reg.register(custom("fs", "mine"));
    assert_eq!(reg.names(), vec!["fs".to_string(), "shell".to_string(), "web".to_string()]);
    assert!(matches!(reg.get("fs"), Some(AnyTool::Custom(_))));
}

#[test]
fn executor_finds_tools_and_collects_answers() {
    let exec = ToolExecutor::new(ToolRegistry::with_defaults("/w"));
    assert!(matches!(exec.tool_for(&call("1", "fs", "{}")), Ok(AnyTool::FileSystem(_))));
    assert_eq!(exec.tool_for(&call("2", "web", "{}")).unwrap_err(), "Tool 'web' not found");
    assert_eq!(exec.registry().names().len(), 2);
    let calls = vec![call("a", "fs", "{}"), call("b", "shell", "{}"), call("c", "web", "{}")];
    let outcomes = vec![
        Ok(ToolResult::Success("done".to_string())),
        Ok(ToolResult::Error("refused".to_string())),
        Err("Tool 'web' not found".to_string()),
    ];
    let results = ToolExecutor::collect_results(&calls, outcomes);
    assert_eq!(results.len(), 3);
    assert_eq!(results[0].0, "a");
    assert_eq!(success(&results[0].1), Some("done"));
    assert_eq!(results[1].0, "b");
    assert_eq!(failure(&results[1].1), Some("refused"));
    assert_eq!(results[2].0, "c");
    assert_eq!(failure(&results[2].1), Some("Tool 'web' not found"));
}

fn command_args(cmd: &str) -> String {
    serde_json::to_string(&serde_json::Value::Object(
        [("command".to_string(), serde_json::Value::String(cmd.to_string()))].into_iter().collect(),
    ))
    .unwrap()
}

#[test]
fn shell_checks_every_command_of_a_line() {
    let shell = ShellTool::new("/work".to_string());
    for cmd in ["ls | grep x", "ls && cat a", "cat < /etc/passwd", "echo hi > f", "ls; pwd;", "ls &", "ls || echo no", "echo $HOME"] {
        assert!(shell.is_allowed(cmd), "{}", cmd);
        assert!(matches!(shell.prepare(&command_args(cmd)), Ok(ShellStep::Run(_))), "{}", cmd);
    }
    for (cmd, word) in [("ls && rm -rf x", "rm"), ("ls; rm x", "rm"), ("ls | sh", "sh"), ("ls\nrm x", "rm"), ("ls & rm x", "rm")] {
        assert!(!shell.is_allowed(cmd), "{}", cmd);
        assert_eq!(shell.refused_command(cmd).as_deref(), Some(word));
        match shell.prepare(&command_args(cmd)) {
            Ok(ShellStep::Reply(ToolResult::Error(msg))) => {
                assert!(msg.starts_with(&format!("Command not allowed: {}. Allowed commands: [", word)), "{}", msg)
            }
            other => panic!("unexpected {:?}", other),
        }
    }
    for cmd in ["echo `rm x`", "echo $(rm x)", "cat <(rm x)", "ls >(rm x)"] {
        assert!(!shell.is_allowed(cmd), "{}", cmd);
        match shell.prepare(&command_args(cmd)) {
            Ok(ShellStep::Reply(ToolResult::Error(msg))) => assert_eq!(
                msg,
                format!("Command not allowed: {}. Command substitution (`...`, $(...), <(...), >(...)) is not allowed", cmd)
            ),
            other => panic!("unexpected {:?}", other),
        }
    }
    let narrow = ShellTool::new("/w".to_string()).with_allowed_commands(vec!["ls".to_string()]);
    assert!(narrow.is_allowed("ls | ls"));
    assert!(!narrow.is_allowed("ls | grep x"));
    assert!(!ShellTool::new("/w".to_string()).with_allowed_commands(Vec::new()).is_allowed("ls"));
}

#[test]
fn shell_decide_takes_parsed_arguments() {
    let shell = ShellTool::new("/work".to_string());
    match shell.decide(Some("git status".to_string()), Some(1000)) {
        Ok(ShellStep::Run(req)) => assert_eq!((req.command.as_str(), req.timeout_secs), ("git status", 300)),
        other => panic!("unexpected {:?}", other),
    }
    assert_eq!(shell.decide(None, Some(5)).unwrap_err(), "Missing 'command' argument");
}

#[test]
fn fs_decide_takes_parsed_arguments() {
    let fs = FileSystemTool::new("/work".to_string());
    match fs.decide(Some("write".to_string()), Some("n.txt".to_string()), Some("x".to_string())) {
        Ok(FsStep::Perform(FsRequest::Write { path, content })) => {
            assert_eq!((path.as_str(), content.as_str()), ("/work/n.txt", "x"))
        }
        other => panic!("unexpected {:?}", other),
    }
    assert_eq!(fs.decide(None, None, None).unwrap_err(), "Missing 'operation' argument");
    assert_eq!(
        fs.decide(Some("write".to_string()), Some("a".to_string()), None).unwrap_err(),
        "Missing 'content' argument for write operation"
    );
}

#[test]
fn registrations_keep_the_last_tool_per_name() {
    let mut reg = ToolRegistry::new();
    for (n, d) in [("a", "1"), ("b", "2"), ("a", "3")] {
        reg.register(custom(n, d));
    }
    assert_eq!(reg.names(), vec!["a".to_string(), "b".to_string()]);
    assert_eq!(reg.get("a").unwrap().definition().function.description, "3");
    assert!(reg.has("b") && reg.get("b").is_some());
    assert!(!reg.has("c") && reg.get("c").is_none());
}
