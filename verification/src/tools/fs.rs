//! The file system tool: reads, writes and lists files below a working directory.

use vstd::prelude::*;
use crate::json::{json_accepts, json_string_member, parses_as_json, string_member};
use crate::text::{
    is_absolute, join_path, join_strings, join_with, path_is_absolute, path_join, views,
};
use crate::types::{Tool, ToolResult, ToolResultView, ToolView, opt_view};
use crate::tools::{ToolImplementation, parse_error_text};
use crate::tools::shell::result_view;

verus! {

/// The JSON schema of the file system tool's arguments.
pub open spec fn fs_schema() -> Seq<char> {
    "{\"type\":\"object\",\"properties\":{\"operation\":{\"type\":\"string\",\"enum\":[\"read\",\"write\",\"list\"],\"description\":\"The file system operation to perform\"},\"path\":{\"type\":\"string\",\"description\":\"The file or directory path\"},\"content\":{\"type\":\"string\",\"description\":\"Content to write (for write operation)\"}},\"required\":[\"operation\",\"path\"]}"@
}

/// Reads, writes and lists files; relative paths are taken from its working directory.
#[derive(Debug)]
pub struct FileSystemTool {
    working_dir: String,
}

impl View for FileSystemTool {
    type V = Seq<char>;

    /// The working directory.
    closed spec fn view(&self) -> Seq<char> {
        self.working_dir@
    }
}

/// A file operation for the tool to perform, on a resolved path.
#[derive(Debug)]
pub enum FsRequest {
    Read { path: String },
    Write { path: String, content: String },
    List { path: String },
}

/// What comes of the arguments of a call: an operation, or an answer at once.
#[derive(Debug)]
pub enum FsStep {
    Perform(FsRequest),
    Reply(ToolResult),
}

pub enum FsStepView {
    Read(Seq<char>),
    Write(Seq<char>, Seq<char>),
    List(Seq<char>),
    Reply(ToolResultView),
}

impl View for FsStep {
    type V = FsStepView;

    open spec fn view(&self) -> FsStepView {
        match self {
            FsStep::Perform(FsRequest::Read { path }) => FsStepView::Read(path@),
            FsStep::Perform(FsRequest::Write { path, content }) => FsStepView::Write(
                path@,
                content@,
            ),
            FsStep::Perform(FsRequest::List { path }) => FsStepView::List(path@),
            FsStep::Reply(t) => FsStepView::Reply(t@),
        }
    }
}

/// How writing a file went.
#[derive(Debug)]
pub enum WriteOutcome {
    Written,
    /// Creating the parent directory `parent` failed.
    DirectoryFailed { parent: String },
    FileFailed,
}

/// What a directory entry is.
#[derive(Debug, Clone, Copy, PartialEq, Eq, Structural)]
pub enum EntryKind {
    Dir,
    File,
    Other,
}

/// One entry of a listed directory.
#[derive(Debug)]
pub struct DirEntry {
    pub name: String,
    pub kind: EntryKind,
}

/// How listing a directory went.
#[derive(Debug)]
pub enum ListOutcome {
    Listed(Vec<DirEntry>),
    /// The directory could not be opened.
    OpenFailed,
    /// Reading an entry failed, with this message.
    EntryFailed(String),
}

/// The path that `path` names for a tool working in `working_dir`.
pub open spec fn resolved(working_dir: Seq<char>, path: Seq<char>) -> Seq<char> {
    if is_absolute(path) {
        path
    } else {
        path_join(working_dir, path)
    }
}

/// What a call with the `operation`, `path` and `content` arguments makes
/// a tool working in `working_dir` do.
pub open spec fn fs_decide(
    working_dir: Seq<char>,
    operation: Option<Seq<char>>,
    path: Option<Seq<char>>,
    content: Option<Seq<char>>,
) -> Result<FsStepView, Seq<char>> {
    match operation {
        None => Err("Missing 'operation' argument"@),
        Some(op) => match path {
            None => Err("Missing 'path' argument"@),
            Some(path) => if op == "read"@ {
                Ok(FsStepView::Read(resolved(working_dir, path)))
            } else if op == "write"@ {
                match content {
                    None => Err("Missing 'content' argument for write operation"@),
                    Some(content) => Ok(FsStepView::Write(resolved(working_dir, path), content)),
                }
            } else if op == "list"@ {
                Ok(FsStepView::List(resolved(working_dir, path)))
            } else {
                Ok(FsStepView::Reply(ToolResultView::Error("Unknown operation: "@ + op)))
            },
        },
    }
}

/// What the arguments `args` of a call make the tool do.
pub open spec fn fs_prepare(working_dir: Seq<char>, args: Seq<char>) -> Result<FsStepView, Seq<char>> {
    if !json_accepts(args) {
        Err(parse_error_text())
    } else {
        fs_decide(
            working_dir,
            json_string_member(args, "operation"@),
            json_string_member(args, "path"@),
            json_string_member(args, "content"@),
        )
    }
}

/// The line that lists one directory entry.
pub open spec fn entry_line(name: Seq<char>, kind: EntryKind) -> Seq<char> {
    let tag = match kind {
        EntryKind::Dir => "dir"@,
        EntryKind::File => "file"@,
        EntryKind::Other => "other"@,
    };
    "["@ + tag + "] "@ + name
}

/// The lines that list the entries of a directory.
pub open spec fn listing_lines(entries: Seq<DirEntry>) -> Seq<Seq<char>> {
    entries.map_values(|e: DirEntry| entry_line(e.name@, e.kind))
}

fn text_eq(a: &String, b: &str) -> (r: bool)
    ensures
        r == (a@ == b@),
{
    let b = String::from_str(b);
    *a == b
}

fn kind_tag(kind: EntryKind) -> (t: &'static str)
    ensures
        t@ == match kind {
            EntryKind::Dir => "dir"@,
            EntryKind::File => "file"@,
            EntryKind::Other => "other"@,
        },
{
    match kind {
        EntryKind::Dir => "dir",
        EntryKind::File => "file",
        EntryKind::Other => "other",
    }
}

impl FileSystemTool {
    /// A file system tool working in `working_dir`.
    pub fn new(working_dir: String) -> (t: FileSystemTool)
        ensures
            t@ == working_dir@,
    {
        FileSystemTool { working_dir }
    }

    /// The same tool, working in `path`.
    pub fn with_working_dir(self, path: String) -> (t: FileSystemTool)
        ensures
            t@ == path@,
    {
        FileSystemTool { working_dir: path }
    }

    /// The working directory.
    pub fn working_dir(&self) -> (d: &str)
        ensures
            d@ == self@,
    {
        self.working_dir.as_str()
    }

    /// The path that `path` names: itself when absolute, else joined onto the
    /// working directory.
    pub fn resolve_path(&self, path: &str) -> (r: String)
        ensures
            r@ == resolved(self@, path@),
    {
        if path_is_absolute(path) {
            String::from_str(path)
        } else {
            join_path(self.working_dir.as_str(), path)
        }
    }

    /// What a call with the `operation`, `path` and `content` arguments makes
    /// the tool do: the operation on the resolved path, the answer to an
    /// unknown operation, or the error of a missing argument.
    pub fn decide(
        &self,
        operation: Option<String>,
        path: Option<String>,
        content: Option<String>,
    ) -> (r: Result<FsStep, String>)
        ensures
            result_view(r) == fs_decide(self@, opt_view(operation), opt_view(path), opt_view(content)),
    {
        let op = match operation {
            Some(op) => op,
            None => {
                return Err(String::from_str("Missing 'operation' argument"));
            },
        };
        let path = match path {
            Some(p) => p,
            None => {
                return Err(String::from_str("Missing 'path' argument"));
            },
        };
        if text_eq(&op, "read") {
            Ok(FsStep::Perform(FsRequest::Read { path: self.resolve_path(path.as_str()) }))
        } else if text_eq(&op, "write") {
            match content {
                Some(content) => Ok(
                    FsStep::Perform(
                        FsRequest::Write { path: self.resolve_path(path.as_str()), content },
                    ),
                ),
                None => Err(String::from_str("Missing 'content' argument for write operation")),
            }
        } else if text_eq(&op, "list") {
            Ok(FsStep::Perform(FsRequest::List { path: self.resolve_path(path.as_str()) }))
        } else {
            let mut msg = String::from_str("Unknown operation: ");
            msg.append(op.as_str());
            Ok(FsStep::Reply(ToolResult::Error(msg)))
        }
    }

    /// What the arguments of a call make the tool do: the error of arguments
    /// that are not JSON, or what `decide` makes of their `operation`, `path`
    /// and `content` members.
    pub fn prepare(&self, args: &str) -> (r: Result<FsStep, String>)
        ensures
            result_view(r) == fs_prepare(self@, args@),
    {
        if !parses_as_json(args) {
            return Err(String::from_str("Failed to parse arguments"));
        }
        self.decide(
            string_member(args, "operation"),
            string_member(args, "path"),
            string_member(args, "content"),
        )
    }

    /// What a read of `path` reports: the content, or the failure.
    pub fn read_finished(path: &str, content: Option<String>) -> (r: Result<ToolResult, String>)
        ensures
            result_view(r) == match content {
                Some(c) => Ok(ToolResultView::Success(c@)),
                None => Err("Failed to read file: "@ + path@),
            },
    {
        match content {
            Some(c) => Ok(ToolResult::Success(c)),
            None => {
                let mut msg = String::from_str("Failed to read file: ");
                msg.append(path);
                Err(msg)
            },
        }
    }

    /// What a write to `path` reports.
    pub fn write_finished(path: &str, outcome: WriteOutcome) -> (r: Result<ToolResult, String>)
        ensures
            result_view(r) == match outcome {
                WriteOutcome::Written => Ok(ToolResultView::Success("File written: "@ + path@)),
                WriteOutcome::DirectoryFailed { parent } => Err(
                    "Failed to create directory: "@ + parent@,
                ),
                WriteOutcome::FileFailed => Err("Failed to write file: "@ + path@),
            },
    {
        match outcome {
            WriteOutcome::Written => {
                let mut msg = String::from_str("File written: ");
                msg.append(path);
                Ok(ToolResult::Success(msg))
            },
            WriteOutcome::DirectoryFailed { parent } => {
                let mut msg = String::from_str("Failed to create directory: ");
                msg.append(parent.as_str());
                Err(msg)
            },
            WriteOutcome::FileFailed => {
                let mut msg = String::from_str("Failed to write file: ");
                msg.append(path);
                Err(msg)
            },
        }
    }

    /// What a listing of `path` reports: one line `[kind] name` per entry.
    pub fn list_finished(path: &str, outcome: ListOutcome) -> (r: Result<ToolResult, String>)
        ensures
            result_view(r) == match outcome {
                ListOutcome::Listed(entries) => Ok(
                    ToolResultView::Success(join_with(listing_lines(entries@), "\n"@)),
                ),
                ListOutcome::OpenFailed => Err("Failed to read directory: "@ + path@),
                ListOutcome::EntryFailed(e) => Err(e@),
            },
    {
        match outcome {
            ListOutcome::Listed(entries) => {
                let mut lines: Vec<String> = Vec::new();
                let n = entries.len();
                let mut i: usize = 0;
                while i < n
                    invariant
                        n == entries@.len(),
                        i <= n,
                        views(lines@) =~= listing_lines(entries@).take(i as int),
                    decreases n - i,
                {
                    let mut line = String::from_str("[");
                    line.append(kind_tag(entries[i].kind));
                    line.append("] ");
                    line.append(entries[i].name.as_str());
                    assert(line@ == entry_line(entries@[i as int].name@, entries@[i as int].kind));
                    lines.push(line);
                    assert(listing_lines(entries@).take(i + 1) =~= listing_lines(entries@).take(
                        i as int,
                    ).push(line@));
                    i = i + 1;
                }
                assert(listing_lines(entries@).take(n as int) =~= listing_lines(entries@));
                Ok(ToolResult::Success(join_strings(&lines, "\n")))
            },
            ListOutcome::OpenFailed => {
                let mut msg = String::from_str("Failed to read directory: ");
                msg.append(path);
                Err(msg)
            },
            ListOutcome::EntryFailed(e) => Err(e),
        }
    }
}

impl ToolImplementation for FileSystemTool {
    open spec fn spec_name(&self) -> Seq<char> {
        "fs"@
    }

    open spec fn spec_definition(&self) -> ToolView {
        ToolView {
            tool_type: "function"@,
            name: "fs"@,
            description: "File system operations: read, write, and list files"@,
            parameters: fs_schema(),
        }
    }

    fn definition(&self) -> (t: Tool) {
        Tool::new(
            String::from_str("fs"),
            String::from_str("File system operations: read, write, and list files"),
            String::from_str(
                "{\"type\":\"object\",\"properties\":{\"operation\":{\"type\":\"string\",\"enum\":[\"read\",\"write\",\"list\"],\"description\":\"The file system operation to perform\"},\"path\":{\"type\":\"string\",\"description\":\"The file or directory path\"},\"content\":{\"type\":\"string\",\"description\":\"Content to write (for write operation)\"}},\"required\":[\"operation\",\"path\"]}",
            ),
        )
    }

    fn name(&self) -> (n: &str) {
        "fs"
    }
}

/// A listing has exactly one line per directory entry, in the order of the
/// entries, each `[dir]`, `[file]` or `[other]`, a space and the entry's name;
/// no entry is left out.
pub proof fn lemma_one_line_per_entry(entries: Seq<DirEntry>, i: int)
    requires
        0 <= i < entries.len(),
    ensures
        listing_lines(entries).len() == entries.len(),
        listing_lines(entries)[i] == "["@ + match entries[i].kind {
            EntryKind::Dir => "dir"@,
            EntryKind::File => "file"@,
            EntryKind::Other => "other"@,
        } + "] "@ + entries[i].name@,
{
}

} // verus!
