//! The interactive chat: what a line typed by the user asks for.

use vstd::prelude::*;
use crate::text::{char_is_space, is_space, lemma_skip_spaces_bounds, skip_spaces};
use crate::tools::text_equal;

verus! {

/// The first index at or before `j` after which only white space follows (up to `j`).
pub open spec fn trailing_start(s: Seq<char>, j: int) -> int
    decreases j,
{
    if 0 < j <= s.len() && is_space(s[j - 1]) {
        trailing_start(s, j - 1)
    } else {
        j
    }
}

/// `s` without leading and trailing white space, as `str::trim` gives it.
pub open spec fn trimmed(s: Seq<char>) -> Seq<char> {
    let start = skip_spaces(s, 0);
    if start >= s.len() {
        Seq::empty()
    } else {
        s.subrange(start, trailing_start(s, s.len() as int))
    }
}

/// What a line of the chat asks for.
#[derive(Debug, PartialEq, Eq)]
pub enum ChatInput {
    /// Nothing: the line is blank.
    Blank,
    /// `exit` or `quit`: leave the chat.
    Exit,
    /// `clear`: forget the conversation.
    Clear,
    /// `tools`: list the tools.
    Tools,
    /// A message for the agent.
    Message(String),
}

pub enum ChatInputView {
    Blank,
    Exit,
    Clear,
    Tools,
    Message(Seq<char>),
}

impl View for ChatInput {
    type V = ChatInputView;

    open spec fn view(&self) -> ChatInputView {
        match self {
            ChatInput::Blank => ChatInputView::Blank,
            ChatInput::Exit => ChatInputView::Exit,
            ChatInput::Clear => ChatInputView::Clear,
            ChatInput::Tools => ChatInputView::Tools,
            ChatInput::Message(m) => ChatInputView::Message(m@),
        }
    }
}

/// What the trimmed line `t` asks for.
pub open spec fn chat_input(t: Seq<char>) -> ChatInputView {
    if t.len() == 0 {
        ChatInputView::Blank
    } else if t == "exit"@ || t == "quit"@ {
        ChatInputView::Exit
    } else if t == "clear"@ {
        ChatInputView::Clear
    } else if t == "tools"@ {
        ChatInputView::Tools
    } else {
        ChatInputView::Message(t)
    }
}

/// `line` without leading and trailing white space.
pub fn trim_line(line: &str) -> (t: &str)
    ensures
        t@ == trimmed(line@),
{
    let n = line.unicode_len();
    let mut i: usize = 0;
    while i < n && char_is_space(line.get_char(i))
        invariant
            n == line@.len(),
            i <= n,
            skip_spaces(line@, 0) == skip_spaces(line@, i as int),
        decreases n - i,
    {
        i = i + 1;
    }
    proof {
        lemma_skip_spaces_bounds(line@, i as int);
    }
    if i == n {
        let empty = line.substring_char(n, n);
        assert(empty@ =~= Seq::<char>::empty());
        return empty;
    }
    let mut j: usize = n;
    while j > i && char_is_space(line.get_char(j - 1))
        invariant
            n == line@.len(),
            i < n,
            i < j <= n,
            !is_space(line@[i as int]),
            trailing_start(line@, n as int) == trailing_start(line@, j as int),
        decreases j,
    {
        j = j - 1;
    }
    assert(trailing_start(line@, j as int) == j);
    line.substring_char(i, j)
}

/// What the line `line` asks for: blank lines, `exit`, `quit`, `clear` and
/// `tools` are commands; anything else, trimmed, is a message.
pub fn classify_input(line: &str) -> (c: ChatInput)
    ensures
        c@ == chat_input(trimmed(line@)),
{
    let t = trim_line(line);
    if t.is_empty() {
        ChatInput::Blank
    } else if text_equal(t, "exit") || text_equal(t, "quit") {
        ChatInput::Exit
    } else if text_equal(t, "clear") {
        ChatInput::Clear
    } else if text_equal(t, "tools") {
        ChatInput::Tools
    } else {
        ChatInput::Message(String::from_str(t))
    }
}

} // verus!
