//! Dex, an agent framework: an agent keeps a conversation with a model,
//! lets the model call tools (files, shell commands, tools of the
//! application) and decides what each step of a task does next.
//!
//! The library holds the decisions; the application performs the requests
//! to the model, the file operations and the commands that the decisions ask for.

pub mod text;
pub mod types;
pub mod json;
pub mod tools;
pub mod agent;
pub mod llm;
pub mod config;
pub mod chat;

pub use agent::{Agent, AgentBuilder};
pub use config::Config;
pub use tools::ToolRegistry;
