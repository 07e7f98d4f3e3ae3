//! The agent's configuration (`config.toml`), its defaults, the checks made
//! right after loading it, and the layout of the agent's home directory.
use vstd::prelude::*;
use crate::providers::Providers;
use crate::text::{concat2, ends_with, has_prefix, has_suffix, owned, slice_chars, starts_with};

verus! {

/// The `[model]` section.
pub struct ModelConfig {
    pub provider: String,
    pub base_url: String,
    pub name: String,
    pub reasoning: String,
}

/// The `[agent]` section.
pub struct AgentConfig {
    pub max_iterations: i32,
}

/// The `[tui]` section.
pub struct TuiConfig {
    pub username: String,
    pub max_history: usize,
    pub show_reasoning: bool,
    pub streaming: bool,
    pub show_spinner: bool,
}

/// The whole configuration file.
pub struct AppConfig {
    pub model: ModelConfig,
    pub agent: AgentConfig,
    pub tui: TuiConfig,
}

impl Clone for ModelConfig {
    fn clone(&self) -> (r: Self)
        ensures
            r.provider@ == self.provider@,
            r.base_url@ == self.base_url@,
            r.name@ == self.name@,
            r.reasoning@ == self.reasoning@,
    {
        ModelConfig {
            provider: self.provider.clone(),
            base_url: self.base_url.clone(),
            name: self.name.clone(),
            reasoning: self.reasoning.clone(),
        }
    }
}

impl Clone for AgentConfig {
    fn clone(&self) -> (r: Self)
        ensures
            r.max_iterations == self.max_iterations,
    {
        AgentConfig { max_iterations: self.max_iterations }
    }
}

impl Clone for TuiConfig {
    fn clone(&self) -> (r: Self)
        ensures
            r.username@ == self.username@,
            r.max_history == self.max_history,
            r.show_reasoning == self.show_reasoning,
            r.streaming == self.streaming,
            r.show_spinner == self.show_spinner,
    {
        TuiConfig {
            username: self.username.clone(),
            max_history: self.max_history,
            show_reasoning: self.show_reasoning,
            streaming: self.streaming,
            show_spinner: self.show_spinner,
        }
    }
}

impl Clone for AppConfig {
    fn clone(&self) -> (r: Self)
        ensures
            r.model.provider@ == self.model.provider@,
            r.model.base_url@ == self.model.base_url@,
            r.model.name@ == self.model.name@,
            r.model.reasoning@ == self.model.reasoning@,
            r.agent.max_iterations == self.agent.max_iterations,
            r.tui.username@ == self.tui.username@,
            r.tui.max_history == self.tui.max_history,
            r.tui.show_reasoning == self.tui.show_reasoning,
            r.tui.streaming == self.tui.streaming,
            r.tui.show_spinner == self.tui.show_spinner,
    {
        AppConfig { model: self.model.clone(), agent: self.agent.clone(), tui: self.tui.clone() }
    }
}

impl Default for ModelConfig {
    fn default() -> (r: Self)
        ensures
            r.provider@ == "openrouter"@,
            r.base_url@ == "https://openrouter.ai/api/v1"@,
            r.name@ == "openrouter/owl-alpha"@,
            r.reasoning@ == "medium"@,
    {
        ModelConfig {
            provider: owned("openrouter"),
            base_url: owned("https://openrouter.ai/api/v1"),
            name: owned("openrouter/owl-alpha"),
            reasoning: owned("medium"),
        }
    }
}

impl Default for AgentConfig {
    fn default() -> (r: Self)
        ensures
            r.max_iterations == 20,
    {
        AgentConfig { max_iterations: 20 }
    }
}

impl Default for TuiConfig {
    fn default() -> (r: Self)
        ensures
            r.username@ == "user"@,
            r.max_history == 1000,
            r.show_reasoning,
            r.streaming,
            r.show_spinner,
    {
        TuiConfig {
            username: owned("user"),
            max_history: 1000,
            show_reasoning: true,
            streaming: true,
            show_spinner: true,
        }
    }
}

impl Default for AppConfig {
    fn default() -> (r: Self)
        ensures
            r.model.provider@ == "openrouter"@,
            r.model.base_url@ == "https://openrouter.ai/api/v1"@,
            r.model.name@ == "openrouter/owl-alpha"@,
            r.model.reasoning@ == "medium"@,
            r.agent.max_iterations == 20,
            r.tui.username@ == "user"@,
            r.tui.max_history == 1000,
            r.tui.show_reasoning,
            r.tui.streaming,
            r.tui.show_spinner,
    {
        AppConfig {
            model: ModelConfig::default(),
            agent: AgentConfig::default(),
            tui: TuiConfig::default(),
        }
    }
}

/// `url` without one trailing `/`, if it has one.
pub open spec fn without_trailing_slash(url: Seq<char>) -> Seq<char> {
    if url.len() > 0 && url.last() == '/' {
        url.drop_last()
    } else {
        url
    }
}

/// The outcome of the checks made right after loading: the provider must be
/// known, and a remote provider's API key variable must be set.
pub open spec fn spec_load_check(provider: Seq<char>, api_key_set: bool) -> Result<(), Seq<char>> {
    match Providers::spec_from_name(provider) {
        None => Err("Unknown provider: "@ + provider),
        Some(p) => match p.spec_api_key_name() {
            Some(k) => if api_key_set {
                Ok(())
            } else {
                Err(k + " not set in .env"@)
            },
            None => Ok(()),
        },
    }
}

impl AppConfig {
    /// The environment variable that must hold an API key for the configured
    /// provider; none for a local server or an unknown provider.
    pub fn required_api_key(&self) -> (r: Option<&'static str>)
        ensures
            match r {
                Some(k) => match Providers::spec_from_name(self.model.provider@) {
                    Some(p) => p.spec_api_key_name() == Some(k@),
                    None => false,
                },
                None => match Providers::spec_from_name(self.model.provider@) {
                    Some(p) => p.spec_api_key_name() is None,
                    None => true,
                },
            },
    {
        match Providers::from_name(self.model.provider.as_str()) {
            Some(p) => p.api_key_name(),
            None => None,
        }
    }

    /// The checks and fixes made right after loading: an unknown provider, or a
    /// remote provider whose API key variable is not set (`api_key_set`), is an
    /// error; otherwise the configuration comes back with one trailing `/`
    /// removed from the base URL.
    pub fn post_config_load(config: AppConfig, api_key_set: bool) -> (r: Result<AppConfig, String>)
        ensures
            match r {
                Ok(c) => spec_load_check(config.model.provider@, api_key_set) is Ok
                    && c.model.base_url@ == without_trailing_slash(config.model.base_url@)
                    && c.model.provider@ == config.model.provider@ && c.model.name@
                    == config.model.name@ && c.model.reasoning@ == config.model.reasoning@
                    && c.agent.max_iterations == config.agent.max_iterations && c.tui.username@
                    == config.tui.username@ && c.tui.max_history == config.tui.max_history
                    && c.tui.show_reasoning == config.tui.show_reasoning && c.tui.streaming
                    == config.tui.streaming && c.tui.show_spinner == config.tui.show_spinner,
                Err(m) => spec_load_check(config.model.provider@, api_key_set) == Err::<
                    (),
                    Seq<char>,
                >(m@),
            },
    {
        let mut config = config;
        match Providers::from_name(config.model.provider.as_str()) {
            Some(p) => {
                if p != Providers::Local {
                    match p.api_key_name() {
                        Some(k) => {
                            if !api_key_set {
                                return Err(concat2(k, " not set in .env"));
                            }
                        },
                        None => {},
                    }
                }
            },
            None => {
                return Err(concat2("Unknown provider: ", config.model.provider.as_str()));
            },
        }
        let n = config.model.base_url.as_str().unicode_len();
        if n > 0 && config.model.base_url.as_str().get_char(n - 1) == '/' {
            let trimmed = slice_chars(config.model.base_url.as_str(), 0, n - 1);
            proof {
                assert(config.model.base_url@.subrange(0, n - 1) =~= config.model.base_url@.drop_last());
            }
            config.model.base_url = trimmed;
        }
        Ok(config)
    }
}

/// `child` placed under `base`, in the manner of `Path::join` on Unix.
pub open spec fn joined(base: Seq<char>, child: Seq<char>) -> Seq<char> {
    if has_prefix(child, "/"@) || base.len() == 0 {
        child
    } else if has_suffix(base, "/"@) {
        base + child
    } else {
        base + "/"@ + child
    }
}

/// `child` placed under `base`, in the manner of `Path::join` on Unix.
pub fn join_path(base: &str, child: &str) -> (r: String)
    ensures
        r@ == joined(base@, child@),
{
    if starts_with(child, "/") || base.unicode_len() == 0 {
        owned(child)
    } else if ends_with(base, "/") {
        concat2(base, child)
    } else {
        let mut s = concat2(base, "/");
        s.append(child);
        s
    }
}

/// The files and folders the agent keeps under the user's home directory.
pub struct InternalConfig {
    pub home_dir: String,
    pub mia_dir: String,
    pub config_file: String,
    pub env_file: String,
    pub sessions_dir: String,
    pub gateways_dir: String,
    pub soul_file: String,
    pub memory_dir: String,
    pub user_memory_file: String,
    pub system_memory_file: String,
    pub tui_history_file: String,
}

impl InternalConfig {
    /// The agent's layout under the home directory `home`.
    pub fn from_home(home: &str) -> (r: InternalConfig)
        ensures
            r.home_dir@ == home@,
            r.mia_dir@ == joined(home@, ".mia"@),
            r.env_file@ == joined(r.mia_dir@, ".env"@),
            r.config_file@ == joined(r.mia_dir@, "config.toml"@),
            r.sessions_dir@ == joined(r.mia_dir@, "sessions"@),
            r.gateways_dir@ == joined(r.mia_dir@, "gateways"@),
            r.soul_file@ == joined(r.mia_dir@, "SOUL.md"@),
            r.memory_dir@ == joined(r.mia_dir@, "memories"@),
            r.user_memory_file@ == joined(r.memory_dir@, "USER.md"@),
            r.system_memory_file@ == joined(r.memory_dir@, "MEMORY.md"@),
            r.tui_history_file@ == joined(r.mia_dir@, ".mia_tui_history"@),
    {
        let mia_dir = join_path(home, ".mia");
        let memory_dir = join_path(mia_dir.as_str(), "memories");
        InternalConfig {
            home_dir: owned(home),
            env_file: join_path(mia_dir.as_str(), ".env"),
            config_file: join_path(mia_dir.as_str(), "config.toml"),
            sessions_dir: join_path(mia_dir.as_str(), "sessions"),
            gateways_dir: join_path(mia_dir.as_str(), "gateways"),
            soul_file: join_path(mia_dir.as_str(), "SOUL.md"),
            user_memory_file: join_path(memory_dir.as_str(), "USER.md"),
            system_memory_file: join_path(memory_dir.as_str(), "MEMORY.md"),
            tui_history_file: join_path(mia_dir.as_str(), ".mia_tui_history"),
            memory_dir,
            mia_dir,
        }
    }
}

/// A known remote provider with its key set passes; a local server always
/// passes; an unknown provider never does.
pub proof fn law_load_check_cases(provider: Seq<char>, api_key_set: bool)
    ensures
        Providers::spec_from_name(provider) is None ==> spec_load_check(provider, api_key_set) is Err,
        Providers::spec_from_name(provider) == Some(Providers::Local) ==> spec_load_check(
            provider,
            api_key_set,
        ) is Ok,
        Providers::spec_from_name(provider) is Some && api_key_set ==> spec_load_check(
            provider,
            api_key_set,
        ) is Ok,
{
}

} // verus!
