# dex

An agent framework: an agent keeps a conversation with a language model,
lets the model call tools (reading, writing and listing files, running
allowed shell commands, tools of the application) and decides what each
step of a task does next.

- `src/` is the library, with its proofs. It holds the decisions: the
  agent's step function (`agent.rs`) with its laws (a run asks the model at
  most `max_iterations` times, the history only grows, every tool answer is
  recorded under its call's id), the tool registry (`tools/mod.rs`), the
  preparation and reporting of file and shell operations (`tools/fs.rs`,
  `tools/shell.rs`), the reading of model replies (`llm/`), configuration
  defaults and environment overrides (`config.rs`), and text helpers
  (`text.rs`). JSON arguments are read with `serde_json` (`json.rs`).
- `app/` is the command line program: it talks to the model over HTTP,
  performs file operations and commands, reads the configuration file and
  the environment, and runs the loop that feeds outcomes back to the agent.
- `tests/` exercise the library on concrete values.
