//! The shell tool: runs commands whose first word is on an allow-list.

use vstd::prelude::*;
use crate::json::{
    json_accepts, json_string_member, json_u64_member, parses_as_json, string_member, u64_member,
};
use crate::text::{
    char_is_space, decimal_string, first_word, first_word_of, lemma_skip_spaces_bounds, signed_decimal,
    skip_spaces, views,
};
use crate::types::{Tool, ToolResult, ToolResultView, ToolView, opt_view};
use crate::tools::{ToolImplementation, parse_error_text};

verus! {

/// The commands a fresh shell tool allows.
pub open spec fn default_allowed() -> Seq<Seq<char>> {
    seq![
        "ls"@, "cat"@, "echo"@, "pwd"@, "grep"@, "find"@,
        "head"@, "tail"@, "wc"@, "git"@, "cargo"@, "rustc"@,
    ]
}

/// The JSON schema of the shell tool's arguments.
pub open spec fn shell_schema() -> Seq<char> {
    "{\"type\":\"object\",\"properties\":{\"command\":{\"type\":\"string\",\"description\":\"The shell command to execute\"},\"timeout\":{\"type\":\"integer\",\"description\":\"Timeout in seconds (default: 60, max: 300)\",\"default\":60}},\"required\":[\"command\"]}"@
}

/// The Rust `Debug` text of a list of strings, as `format!("{:?}", list)`
/// writes it for a `Vec<String>`.
pub uninterp spec fn debug_list_text(items: Seq<Seq<char>>) -> Seq<char>;

/// Calls `format!("{:?}", items)`; claims that the text is the one
/// `debug_list_text` names for the items.
#[verifier::external_body]
fn debug_list(items: &Vec<String>) -> (r: String)
    ensures
        r@ == debug_list_text(views(items@)),
{
    format!("{:?}", items)
}

/// Runs shell commands in a working directory, but only those on its allow-list.
#[derive(Debug)]
pub struct ShellTool {
    working_dir: String,
    allowed_commands: Vec<String>,
}

pub struct ShellToolView {
    pub working_dir: Seq<char>,
    pub allowed: Seq<Seq<char>>,
}

impl View for ShellTool {
    type V = ShellToolView;

    closed spec fn view(&self) -> ShellToolView {
        ShellToolView { working_dir: self.working_dir@, allowed: views(self.allowed_commands@) }
    }
}

/// A command that the tool is to run.
#[derive(Debug)]
pub struct ShellRequest {
    pub command: String,
    pub working_dir: String,
    pub timeout_secs: u64,
}

/// What comes of the arguments of a call: a command to run, or an answer at once.
#[derive(Debug)]
pub enum ShellStep {
    Run(ShellRequest),
    Reply(ToolResult),
}

/// How a command ended.
#[derive(Debug)]
pub enum CommandOutcome {
    /// It could not be started, or did not end within its time.
    Failed,
    /// It ran to its end; `exit_code` is `None` when a signal ended it.
    Finished { success: bool, exit_code: Option<i32>, stdout: String, stderr: String },
}

pub enum ShellStepView {
    Run { command: Seq<char>, working_dir: Seq<char>, timeout_secs: u64 },
    Reply(ToolResultView),
}

impl View for ShellStep {
    type V = ShellStepView;

    open spec fn view(&self) -> ShellStepView {
        match self {
            ShellStep::Run(r) => ShellStepView::Run {
                command: r.command@,
                working_dir: r.working_dir@,
                timeout_secs: r.timeout_secs,
            },
            ShellStep::Reply(t) => ShellStepView::Reply(t@),
        }
    }
}

/// Characters that end one command and start the next: `;`, `&` (also in
/// `&&`), `|` (also in `||` and `|&`) and line breaks.
pub open spec fn is_separator(c: char) -> bool {
    c == ';' || c == '&' || c == '|' || c == '\n'
}

/// Whether a substitution starts at position `i` of `s`: a backtick, `$(`,
/// `<(` or `>(`. bash runs the command inside, which no allow-list check sees.
pub open spec fn substitution_at(s: Seq<char>, i: int) -> bool {
    s[i] == '`' || ((s[i] == '$' || s[i] == '<' || s[i] == '>') && i + 1 < s.len() && s[i + 1]
        == '(')
}

/// Whether `s` holds a substitution.
pub open spec fn has_substitution(s: Seq<char>) -> bool {
    exists|i: int| 0 <= i < s.len() && substitution_at(s, i)
}

/// The first position at or after `i` that holds a separator, or the end.
pub open spec fn separator_from(s: Seq<char>, i: int) -> int
    decreases s.len() - i,
{
    if 0 <= i < s.len() && !is_separator(s[i]) {
        separator_from(s, i + 1)
    } else {
        i
    }
}

/// Whether `s` is empty or only white space.
pub open spec fn is_blank(s: Seq<char>) -> bool {
    skip_spaces(s, 0) >= s.len()
}

/// Whether one command of a command line may run: its first word is on the
/// allow-list. An empty command, which runs nothing, is accepted between
/// separators, but not as the whole command line.
pub open spec fn segment_allowed(allowed: Seq<Seq<char>>, seg: Seq<char>, alone: bool) -> bool {
    allowed.contains(first_word(seg)) || (!alone && is_blank(seg))
}

/// `separator_from` stays within the text, stops at a separator or the end,
/// and passes over no separator.
pub proof fn lemma_separator_from(s: Seq<char>, i: int)
    requires
        0 <= i <= s.len(),
    ensures
        i <= separator_from(s, i) <= s.len(),
        separator_from(s, i) < s.len() ==> is_separator(s[separator_from(s, i)]),
        forall|j: int| i <= j < separator_from(s, i) ==> !is_separator(#[trigger] s[j]),
    decreases s.len() - i,
{
    if i < s.len() && !is_separator(s[i]) {
        lemma_separator_from(s, i + 1);
    }
}

/// The first word of the first command, from position `start` on, that may
/// not run; `None` when every one may.
pub open spec fn refused_from(allowed: Seq<Seq<char>>, s: Seq<char>, start: int, alone: bool) -> Option<
    Seq<char>,
>
    decreases s.len() - start,
{
    if start < 0 || start > s.len() {
        None
    } else {
        let end = separator_from(s, start);
        proof {
            lemma_separator_from(s, start);
        }
        let seg = s.subrange(start, end);
        if !segment_allowed(allowed, seg, alone) {
            Some(first_word(seg))
        } else if end < s.len() {
            refused_from(allowed, s, end + 1, alone)
        } else {
            None
        }
    }
}

/// Whether the command line `s` is a single command.
pub open spec fn single_command(s: Seq<char>) -> bool {
    separator_from(s, 0) >= s.len()
}

/// The first word of the first command of `s` that may not run, if any.
pub open spec fn refused_word(allowed: Seq<Seq<char>>, s: Seq<char>) -> Option<Seq<char>> {
    refused_from(allowed, s, 0, single_command(s))
}

/// Whether the command line `command` may run: it holds no substitution, and
/// each of its commands (between `;`, `&`, `|` and line breaks) starts with
/// a word on the allow-list. Quotes are not read: a separator inside quotes
/// also starts a command, which can only refuse more. Redirections run no
/// command and are allowed.
pub open spec fn command_allowed(allowed: Seq<Seq<char>>, command: Seq<char>) -> bool {
    !has_substitution(command) && refused_word(allowed, command) is None
}

/// Whether `command` holds a substitution.
pub fn holds_substitution(command: &str) -> (b: bool)
    ensures
        b == has_substitution(command@),
{
    let n = command.unicode_len();
    let mut i: usize = 0;
    while i < n
        invariant
            n == command@.len(),
            i <= n,
            forall|j: int| 0 <= j < i ==> !substitution_at(command@, j),
        decreases n - i,
    {
        let c = command.get_char(i);
        if c == '`' {
            assert(substitution_at(command@, i as int));
            return true;
        }
        if (c == '$' || c == '<' || c == '>') && i + 1 < n && command.get_char(i + 1) == '(' {
            assert(substitution_at(command@, i as int));
            return true;
        }
        i = i + 1;
    }
    false
}

fn separator_index(command: &str, start: usize) -> (r: usize)
    requires
        start <= command@.len(),
    ensures
        r == separator_from(command@, start as int),
{
    let n = command.unicode_len();
    let mut i = start;
    while i < n && !(command.get_char(i) == ';' || command.get_char(i) == '&' || command.get_char(i)
        == '|' || command.get_char(i) == '\n')
        invariant
            n == command@.len(),
            start <= i <= n,
            separator_from(command@, start as int) == separator_from(command@, i as int),
        decreases n - i,
    {
        i = i + 1;
    }
    i
}

fn text_is_blank(s: &str) -> (b: bool)
    ensures
        b == is_blank(s@),
{
    let n = s.unicode_len();
    let mut i: usize = 0;
    while i < n && char_is_space(s.get_char(i))
        invariant
            n == s@.len(),
            i <= n,
            skip_spaces(s@, 0) == skip_spaces(s@, i as int),
        decreases n - i,
    {
        i = i + 1;
    }
    proof {
        lemma_skip_spaces_bounds(s@, i as int);
    }
    i >= n
}

/// Whether a position starts a command: the start of the line, or just after a separator.
pub open spec fn starts_command(s: Seq<char>, i: int) -> bool {
    i == 0 || (0 < i <= s.len() && is_separator(s[i - 1]))
}

proof fn lemma_refused_from_none(
    allowed: Seq<Seq<char>>,
    s: Seq<char>,
    start: int,
    alone: bool,
    i: int,
)
    requires
        0 <= start <= i <= s.len(),
        refused_from(allowed, s, start, alone) is None,
        i == start || is_separator(s[i - 1]),
    ensures
        segment_allowed(allowed, s.subrange(i, separator_from(s, i)), alone),
    decreases s.len() - start,
{
    lemma_separator_from(s, start);
    let end = separator_from(s, start);
    if i != start {
        assert(!(start <= i - 1 < end));
        assert(end < s.len());
        lemma_refused_from_none(allowed, s, end + 1, alone, i);
    }
}

/// No command off the allow-list runs: in a command line that may run, every
/// command (at the start, or after a `;`, `&`, `|` or line break) starts with
/// an allowed word, or is empty between separators; and no substitution
/// hides another command.
pub proof fn lemma_every_command_allowed(allowed: Seq<Seq<char>>, s: Seq<char>, i: int)
    requires
        command_allowed(allowed, s),
        0 <= i <= s.len(),
        starts_command(s, i),
    ensures
        !has_substitution(s),
        segment_allowed(allowed, s.subrange(i, separator_from(s, i)), single_command(s)),
{
    lemma_refused_from_none(allowed, s, 0, single_command(s), i);
}

/// A single command may run exactly when it holds no substitution and its
/// first word is on the allow-list.
pub proof fn lemma_single_command_rule(allowed: Seq<Seq<char>>, s: Seq<char>)
    requires
        single_command(s),
    ensures
        command_allowed(allowed, s) == (!has_substitution(s) && allowed.contains(first_word(s))),
{
    lemma_separator_from(s, 0);
    assert(s.subrange(0, s.len() as int) =~= s);
}

/// The time a command gets: the `timeout` argument, 60 when absent, at most 300.
pub open spec fn clamp_timeout(t: Option<u64>) -> u64 {
    let t = match t {
        Some(t) => t,
        None => 60u64,
    };
    if t <= 300 {
        t
    } else {
        300u64
    }
}

/// The answer to a command line that may not run: one with a substitution
/// is refused whole; otherwise the refusal names the first word of the first
/// command that may not run, and the allowed commands.
pub open spec fn refusal(allowed: Seq<Seq<char>>, command: Seq<char>) -> Seq<char> {
    if has_substitution(command) {
        "Command not allowed: "@ + command + substitution_refused()
    } else {
        "Command not allowed: "@ + refused_word(allowed, command)->0 + ". Allowed commands: "@
            + debug_list_text(allowed)
    }
}

/// Why a command line with a substitution is refused.
pub open spec fn substitution_refused() -> Seq<char> {
    ". Command substitution (`...`, $(...), <(...), >(...)) is not allowed"@
}

/// What a call with the command `command` and the `timeout` argument makes
/// the tool do.
pub open spec fn shell_decide(tool: ShellToolView, command: Option<Seq<char>>, timeout: Option<u64>) -> Result<
    ShellStepView,
    Seq<char>,
> {
    match command {
        None => Err("Missing 'command' argument"@),
        Some(command) => if command_allowed(tool.allowed, command) {
            Ok(
                ShellStepView::Run {
                    command,
                    working_dir: tool.working_dir,
                    timeout_secs: clamp_timeout(timeout),
                },
            )
        } else {
            Ok(ShellStepView::Reply(ToolResultView::Error(refusal(tool.allowed, command))))
        },
    }
}

/// What the arguments `args` of a call make the tool do.
pub open spec fn shell_prepare(tool: ShellToolView, args: Seq<char>) -> Result<
    ShellStepView,
    Seq<char>,
> {
    if !json_accepts(args) {
        Err(parse_error_text())
    } else {
        shell_decide(tool, json_string_member(args, "command"@), json_u64_member(args, "timeout"@))
    }
}

/// What a command that ran to its end reports.
pub open spec fn command_report(
    success: bool,
    exit_code: Option<i32>,
    stdout: Seq<char>,
    stderr: Seq<char>,
) -> ToolResultView {
    if success {
        if stdout.len() == 0 && stderr.len() != 0 {
            ToolResultView::Success("(stderr)\n"@ + stderr)
        } else if stderr.len() != 0 {
            ToolResultView::Success(stdout + "\n(stderr)\n"@ + stderr)
        } else {
            ToolResultView::Success(stdout)
        }
    } else if stderr.len() != 0 {
        ToolResultView::Error(stderr)
    } else {
        let code: int = match exit_code {
            Some(c) => c as int,
            None => -1,
        };
        ToolResultView::Error("Command failed with exit code "@ + signed_decimal(code))
    }
}

/// The view of a result whose error is a string.
pub open spec fn result_view<T: View>(r: Result<T, String>) -> Result<T::V, Seq<char>> {
    match r {
        Ok(t) => Ok(t@),
        Err(e) => Err(e@),
    }
}

impl ShellTool {
    /// A shell tool working in `working_dir` that allows the default commands.
    pub fn new(working_dir: String) -> (t: ShellTool)
        ensures
            t@ == (ShellToolView { working_dir: working_dir@, allowed: default_allowed() }),
    {
        let mut allowed: Vec<String> = Vec::new();
        allowed.push(String::from_str("ls"));
        allowed.push(String::from_str("cat"));
        allowed.push(String::from_str("echo"));
        allowed.push(String::from_str("pwd"));
        allowed.push(String::from_str("grep"));
        allowed.push(String::from_str("find"));
        allowed.push(String::from_str("head"));
        allowed.push(String::from_str("tail"));
        allowed.push(String::from_str("wc"));
        allowed.push(String::from_str("git"));
        allowed.push(String::from_str("cargo"));
        allowed.push(String::from_str("rustc"));
        let t = ShellTool { working_dir, allowed_commands: allowed };
        assert(t@.allowed =~= default_allowed());
        t
    }

    /// The same tool, working in `path`.
    pub fn with_working_dir(self, path: String) -> (t: ShellTool)
        ensures
            t@ == (ShellToolView { working_dir: path@, allowed: self@.allowed }),
    {
        ShellTool { working_dir: path, allowed_commands: self.allowed_commands }
    }

    /// The same tool, allowing exactly `commands`. A word that runs the
    /// program named after it (such as `time`, `exec`, `eval`, `command`,
    /// `env`, `xargs`, `sudo` or `sh`) lets any program run when it is on the
    /// list; the tool checks only first words.
    pub fn with_allowed_commands(self, commands: Vec<String>) -> (t: ShellTool)
        ensures
            t@ == (ShellToolView { working_dir: self@.working_dir, allowed: views(commands@) }),
    {
        ShellTool { working_dir: self.working_dir, allowed_commands: commands }
    }

    /// The directory in which commands run.
    pub fn working_dir(&self) -> (d: &str)
        ensures
            d@ == self@.working_dir,
    {
        self.working_dir.as_str()
    }

    /// Whether `word` is on the allow-list.
    fn lists(&self, word: &str) -> (b: bool)
        ensures
            b == self@.allowed.contains(word@),
    {
        let w = String::from_str(word);
        let n = self.allowed_commands.len();
        let mut i: usize = 0;
        while i < n
            invariant
                n == self.allowed_commands@.len(),
                i <= n,
                w@ == word@,
                forall|j: int| 0 <= j < i ==> self.allowed_commands@[j]@ != word@,
            decreases n - i,
        {
            if self.allowed_commands[i] == w {
                assert(self@.allowed[i as int] == word@);
                return true;
            }
            i = i + 1;
        }
        proof {
            if self@.allowed.contains(word@) {
                let k = choose|k: int| 0 <= k < self@.allowed.len() && self@.allowed[k] == word@;
                assert(self.allowed_commands@[k]@ == word@);
            }
        }
        false
    }

    /// The first word of the first command of `command` that may not run, if any.
    pub fn refused_command(&self, command: &str) -> (r: Option<String>)
        ensures
            opt_view(r) == refused_word(self@.allowed, command@),
    {
        let n = command.unicode_len();
        let alone = separator_index(command, 0) >= n;
        let mut start: usize = 0;
        loop
            invariant
                n == command@.len(),
                start <= n,
                alone == single_command(command@),
                refused_word(self@.allowed, command@) == refused_from(
                    self@.allowed,
                    command@,
                    start as int,
                    alone,
                ),
            decreases n - start,
        {
            let end = separator_index(command, start);
            proof {
                lemma_separator_from(command@, start as int);
            }
            let seg = command.substring_char(start, end);
            let word = first_word_of(seg);
            let ok = self.lists(word) || (!alone && text_is_blank(seg));
            if !ok {
                return Some(String::from_str(word));
            }
            if end >= n {
                return None;
            }
            start = end + 1;
        }
    }

    /// Whether the command line `command` may run: it holds no substitution
    /// and each of its commands starts with an allowed word.
    pub fn is_allowed(&self, command: &str) -> (b: bool)
        ensures
            b == command_allowed(self@.allowed, command@),
    {
        !holds_substitution(command) && self.refused_command(command).is_none()
    }

    /// What a call with the command `command` and the `timeout` argument
    /// makes the tool do: the command to run, for at most `timeout` seconds
    /// (60 when absent, 300 at most), or the refusal of a command line that
    /// may not run, or the error of a missing command.
    pub fn decide(&self, command: Option<String>, timeout: Option<u64>) -> (r: Result<
        ShellStep,
        String,
    >)
        ensures
            result_view(r) == shell_decide(self@, opt_view(command), timeout),
    {
        let command = match command {
            Some(c) => c,
            None => {
                return Err(String::from_str("Missing 'command' argument"));
            },
        };
        let requested: u64 = match timeout {
            Some(t) => t,
            None => 60,
        };
        let timeout: u64 = if requested <= 300 {
            requested
        } else {
            300
        };
        if holds_substitution(command.as_str()) {
            let mut msg = String::from_str("Command not allowed: ");
            msg.append(command.as_str());
            msg.append(". Command substitution (`...`, $(...), <(...), >(...)) is not allowed");
            return Ok(ShellStep::Reply(ToolResult::Error(msg)));
        }
        match self.refused_command(command.as_str()) {
            Some(word) => {
                let mut msg = String::from_str("Command not allowed: ");
                msg.append(word.as_str());
                msg.append(". Allowed commands: ");
                let listed = debug_list(&self.allowed_commands);
                msg.append(listed.as_str());
                Ok(ShellStep::Reply(ToolResult::Error(msg)))
            },
            None => Ok(
                ShellStep::Run(
                    ShellRequest {
                        command,
                        working_dir: self.working_dir.clone(),
                        timeout_secs: timeout,
                    },
                ),
            ),
        }
    }

    /// What the arguments of a call make the tool do: the error of arguments
    /// that are not JSON, or what `decide` makes of their `command` and
    /// `timeout` members.
    pub fn prepare(&self, args: &str) -> (r: Result<ShellStep, String>)
        ensures
            result_view(r) == shell_prepare(self@, args@),
    {
        if !parses_as_json(args) {
            return Err(String::from_str("Failed to parse arguments"));
        }
        self.decide(string_member(args, "command"), u64_member(args, "timeout"))
    }

    /// What a call reports once `command` has run.
    pub fn complete(command: &str, outcome: CommandOutcome) -> (r: Result<ToolResult, String>)
        ensures
            result_view(r) == match outcome {
                CommandOutcome::Failed => Err("Failed to execute command: "@ + command@),
                CommandOutcome::Finished { success, exit_code, stdout, stderr } => Ok(
                    command_report(success, exit_code, stdout@, stderr@),
                ),
            },
    {
        match outcome {
            CommandOutcome::Failed => {
                let mut msg = String::from_str("Failed to execute command: ");
                msg.append(command);
                Err(msg)
            },
            CommandOutcome::Finished { success, exit_code, stdout, stderr } => {
                let out_empty = stdout.as_str().is_empty();
                let err_empty = stderr.as_str().is_empty();
                if success {
                    if out_empty && !err_empty {
                        let mut s = String::from_str("(stderr)\n");
                        s.append(stderr.as_str());
                        Ok(ToolResult::Success(s))
                    } else if !err_empty {
                        let mut s = stdout;
                        s.append("\n(stderr)\n");
                        s.append(stderr.as_str());
                        Ok(ToolResult::Success(s))
                    } else {
                        Ok(ToolResult::Success(stdout))
                    }
                } else if !err_empty {
                    Ok(ToolResult::Error(stderr))
                } else {
                    let code: i32 = match exit_code {
                        Some(c) => c,
                        None => -1,
                    };
                    let mut s = String::from_str("Command failed with exit code ");
                    let digits = decimal_string(code);
                    s.append(digits.as_str());
                    Ok(ToolResult::Error(s))
                }
            },
        }
    }
}

impl ToolImplementation for ShellTool {
    open spec fn spec_name(&self) -> Seq<char> {
        "shell"@
    }

    open spec fn spec_definition(&self) -> ToolView {
        ToolView {
            tool_type: "function"@,
            name: "shell"@,
            description: "Execute shell commands (restricted to safe commands only)"@,
            parameters: shell_schema(),
        }
    }

    fn definition(&self) -> (t: Tool) {
        Tool::new(
            String::from_str("shell"),
            String::from_str("Execute shell commands (restricted to safe commands only)"),
            String::from_str(
                "{\"type\":\"object\",\"properties\":{\"command\":{\"type\":\"string\",\"description\":\"The shell command to execute\"},\"timeout\":{\"type\":\"integer\",\"description\":\"Timeout in seconds (default: 60, max: 300)\",\"default\":60}},\"required\":[\"command\"]}",
            ),
        )
    }

    fn name(&self) -> (n: &str) {
        "shell"
    }
}


/// A command line runs only when it may (no substitution, and every one of
/// its commands starts with an allowed word), and never for longer than 300 seconds.
pub proof fn lemma_only_allowed_commands_run(tool: ShellToolView, args: Seq<char>)
    ensures
        shell_prepare(tool, args) matches Ok(ShellStepView::Run { command, timeout_secs, .. })
            ==> command_allowed(tool.allowed, command) && timeout_secs <= 300,
{
}

/// A command line that may not run is answered with a refusal and runs not.
pub proof fn lemma_refused_command(tool: ShellToolView, args: Seq<char>, command: Seq<char>)
    requires
        json_accepts(args),
        json_string_member(args, "command"@) == Some(command),
        !command_allowed(tool.allowed, command),
    ensures
        shell_prepare(tool, args) == Ok::<ShellStepView, Seq<char>>(
            ShellStepView::Reply(ToolResultView::Error(refusal(tool.allowed, command))),
        ),
{
}

/// The timeout of a command that runs is the requested one when it is at
/// most 300 seconds, 300 when more is asked, and 60 when none is.
pub proof fn lemma_timeout_kept_up_to_limit(
    tool: ShellToolView,
    command: Seq<char>,
    timeout: Option<u64>,
)
    requires
        command_allowed(tool.allowed, command),
    ensures
        shell_decide(tool, Some(command), timeout) matches Ok(ShellStepView::Run { timeout_secs, .. })
            && match timeout {
            Some(t) => if t <= 300 {
                timeout_secs == t
            } else {
                timeout_secs == 300
            },
            None => timeout_secs == 60,
        },
{
}

/// A command that did not succeed is reported as an error, whatever it
/// printed: its error output when there is any, else its exit code; a
/// command that succeeded is reported as a success.
pub proof fn lemma_failure_reported_as_error(
    success: bool,
    exit_code: Option<i32>,
    stdout: Seq<char>,
    stderr: Seq<char>,
)
    ensures
        !success ==> command_report(success, exit_code, stdout, stderr) is Error,
        !success && stderr.len() != 0 ==> command_report(success, exit_code, stdout, stderr)
            == ToolResultView::Error(stderr),
        success ==> command_report(success, exit_code, stdout, stderr) is Success,
        success && stderr.len() == 0 ==> command_report(success, exit_code, stdout, stderr)
            == ToolResultView::Success(stdout),
{
}

} // verus!
