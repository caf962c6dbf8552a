//! Configuration: its defaults, where its file lies and what the environment overrides.

use vstd::prelude::*;
use crate::text::{join_path, path_join};
use crate::types::{AgentConfig, AgentConfigView, opt_view};

verus! {

/// Settings of the tools: which are enabled, and their own settings as JSON text.
#[derive(Debug)]
pub struct ToolConfig {
    pub enabled: Vec<String>,
    pub config: String,
}

/// The application's configuration.
#[derive(Debug)]
pub struct Config {
    pub agent: AgentConfig,
    pub tools: ToolConfig,
}

/// The values of the environment variables that override a configuration;
/// `None` for a variable that is not set.
#[derive(Debug)]
pub struct EnvOverrides {
    /// `OPENAI_API_KEY`
    pub openai_api_key: Option<String>,
    /// `DEX_API_KEY`
    pub dex_api_key: Option<String>,
    /// `DEX_MODEL`
    pub dex_model: Option<String>,
    /// `DEX_API_BASE`
    pub dex_api_base: Option<String>,
}

impl Default for ToolConfig {
    /// No tool enabled by name and no settings (`null`).
    fn default() -> (c: ToolConfig)
        ensures
            c.enabled@.len() == 0,
            c.config@ == "null"@,
    {
        ToolConfig { enabled: Vec::new(), config: String::from_str("null") }
    }
}

impl Default for AgentConfig {
    fn default() -> (c: AgentConfig)
        ensures
            c@ == (AgentConfigView {
                model: "gpt-4o-mini"@,
                api_key: Seq::empty(),
                api_base: None,
                system_prompt: None,
            }),
    {
        AgentConfig::default_settings()
    }
}

impl Default for Config {
    fn default() -> (c: Config)
        ensures
            c.agent@ == (AgentConfigView {
                model: "gpt-4o-mini"@,
                api_key: Seq::empty(),
                api_base: None,
                system_prompt: None,
            }),
            c.tools.enabled@.len() == 0,
            c.tools.config@ == "null"@,
    {
        Config { agent: AgentConfig::default_settings(), tools: ToolConfig::default() }
    }
}

/// The settings after the environment's overrides: `DEX_API_KEY` wins over
/// `OPENAI_API_KEY`, and each set variable replaces its setting.
pub open spec fn overridden(c: AgentConfigView, env: EnvOverrides) -> AgentConfigView {
    AgentConfigView {
        api_key: match env.dex_api_key {
            Some(k) => k@,
            None => match env.openai_api_key {
                Some(k) => k@,
                None => c.api_key,
            },
        },
        model: match env.dex_model {
            Some(m) => m@,
            None => c.model,
        },
        api_base: match env.dex_api_base {
            Some(b) => Some(b@),
            None => c.api_base,
        },
        system_prompt: c.system_prompt,
    }
}

/// The configuration file below the home directory `home`:
/// `home/.config/dex/config.toml`.
pub open spec fn config_file(home: Seq<char>) -> Seq<char> {
    path_join(path_join(path_join(home, ".config"@), "dex"@), "config.toml"@)
}

/// The API key a session uses: the one given on the command line, else the
/// configured one; none when that key is empty.
pub open spec fn chosen_key(given: Option<Seq<char>>, configured: Seq<char>) -> Option<Seq<char>> {
    let k = match given {
        Some(k) => k,
        None => configured,
    };
    if k.len() == 0 {
        None
    } else {
        Some(k)
    }
}

/// The system prompt of a configuration without one of its own.
pub open spec fn default_system_prompt() -> Seq<char> {
    "You are a helpful AI assistant with access to tools. When you need to perform actions like reading files or running commands, use the available tools. Otherwise, provide direct answers."@
}

/// The agent settings of a fresh configuration.
pub open spec fn default_agent_settings() -> AgentConfigView {
    AgentConfigView {
        model: "gpt-4o-mini"@,
        api_key: Seq::empty(),
        api_base: None,
        system_prompt: None,
    }
}

impl Config {
    /// The configuration a session uses: the one read from the configuration
    /// file, or the default one when there is no file, with the environment's
    /// overrides applied in either case.
    pub fn load_from(file: Option<Config>, env: EnvOverrides) -> (c: Config)
        ensures
            c.agent@ == overridden(
                match file {
                    Some(f) => f.agent@,
                    None => default_agent_settings(),
                },
                env,
            ),
            match file {
                Some(f) => c.tools == f.tools,
                None => c.tools.enabled@.len() == 0 && c.tools.config@ == "null"@,
            },
    {
        let mut c = match file {
            Some(f) => f,
            None => Config::default(),
        };
        c.override_from_env(env);
        c
    }

    /// The API key a session uses (see `chosen_key`).
    pub fn select_api_key(&self, given: Option<String>) -> (k: Option<String>)
        ensures
            opt_view(k) == chosen_key(opt_view(given), self.agent.api_key@),
    {
        let k = match given {
            Some(k) => k,
            None => self.agent.api_key.clone(),
        };
        if k.as_str().is_empty() {
            None
        } else {
            Some(k)
        }
    }

    /// The configured system prompt, or the default one.
    pub fn system_prompt(&self) -> (p: String)
        ensures
            p@ == match self.agent.system_prompt {
                Some(p) => p@,
                None => default_system_prompt(),
            },
    {
        match &self.agent.system_prompt {
            Some(p) => p.clone(),
            None => String::from_str(
                "You are a helpful AI assistant with access to tools. When you need to perform actions like reading files or running commands, use the available tools. Otherwise, provide direct answers.",
            ),
        }
    }

    /// Applies the environment's overrides to the agent settings.
    pub fn override_from_env(&mut self, env: EnvOverrides)
        ensures
            final(self).agent@ == overridden(old(self).agent@, env),
            final(self).tools == old(self).tools,
    {
        let ghost before = self.agent@;
        let ghost e = env;
        if let Some(k) = env.openai_api_key {
            self.agent.api_key = k;
        }
        if let Some(k) = env.dex_api_key {
            self.agent.api_key = k;
        }
        if let Some(m) = env.dex_model {
            self.agent.model = m;
        }
        if let Some(b) = env.dex_api_base {
            self.agent.api_base = Some(b);
        }
        assert(self.agent@ == overridden(before, e));
    }

    /// Where the configuration file lies for the home directory `home`.
    pub fn config_path(home: &str) -> (p: String)
        ensures
            p@ == config_file(home@),
    {
        let a = join_path(home, ".config");
        let b = join_path(a.as_str(), "dex");
        join_path(b.as_str(), "config.toml")
    }
}

/// The environment overrides only the key, the model and the endpoint: the
/// system prompt stays as configured, a variable that is not set changes
/// nothing, and with no variable set the settings stay as they are.
pub proof fn lemma_overrides_keep_the_rest(c: AgentConfigView, env: EnvOverrides)
    ensures
        overridden(c, env).system_prompt == c.system_prompt,
        env.dex_api_key is None && env.openai_api_key is None ==> overridden(c, env).api_key
            == c.api_key,
        env.dex_model is None ==> overridden(c, env).model == c.model,
        env.dex_api_base is None ==> overridden(c, env).api_base == c.api_base,
        env.dex_api_key is None && env.openai_api_key is None && env.dex_model is None
            && env.dex_api_base is None ==> overridden(c, env) == c,
{
}

} // verus!
