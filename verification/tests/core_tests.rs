use mia_agent::config::{join_path, AppConfig, InternalConfig};
use mia_agent::providers::Providers;
use mia_agent::text::{lines, split_on, str_lt, trim, trim_end, decimal_string, join};
use mia_agent::numbers::{context_allowed, model_columns, number_format, signed_decimal_string, split_human_number, ModelInfo, NumberFormat};
use mia_agent::setup::{default_base_url, default_model_name, env_has_key, http_validator, reasoning_levels, set_env_key, starting_index};
use mia_agent::prompt::{get_system_prompt, tui_system_prompt, PromptContext, DEFAULT_SOUL};

#[test]
fn provider_names_round_trip() {
    for p in Providers::all() {
        assert_eq!(Providers::from_name(p.name()), Some(p));
        assert_eq!(Providers::all()[p.index()], p);
    }
    assert_eq!(Providers::from_name("openai"), None);
    assert_eq!(Providers::from_name("google"), Some(Providers::GoogleAIStudio));
    assert_eq!(Providers::GoogleAIStudio.name(), "google");
    assert_eq!(Providers::Groq.api_key_name(), Some("GROQ_API_KEY"));
    assert_eq!(Providers::Local.api_key_name(), None);
    assert_eq!(Providers::Local.base_url(), Err("Local provider doesn't have default base url".to_string()));
    assert_eq!(Providers::Cerebras.base_url(), Ok("https://api.cerebras.ai/v1"));
    assert_eq!(Providers::GoogleAIStudio.title(), "Google AI Studio");
}

#[test]
fn config_checks_after_loading() {
    let mut c = AppConfig::default();
    c.model.base_url = "https://x/v1/".to_string();
    let ok = AppConfig::post_config_load(c, true).unwrap();
    assert_eq!(ok.model.base_url, "https://x/v1");
    let missing = AppConfig::post_config_load(AppConfig::default(), false);
    assert_eq!(missing.err().unwrap(), "OPENROUTER_API_KEY not set in .env");
    let mut local = AppConfig::default();
    local.model.provider = "local".to_string();
    assert!(AppConfig::post_config_load(local, false).is_ok());
    let mut odd = AppConfig::default();
    odd.model.provider = "acme".to_string();
    assert_eq!(AppConfig::post_config_load(odd, true).err().unwrap(), "Unknown provider: acme");
}

#[test]
fn home_layout() {
    let i = InternalConfig::from_home("/home/mia");
    assert_eq!(i.mia_dir, "/home/mia/.mia");
    assert_eq!(i.user_memory_file, "/home/mia/.mia/memories/USER.md");
    assert_eq!(i.sessions_dir, "/home/mia/.mia/sessions");
    assert_eq!(join_path("/a/", "b"), "/a/b");
    assert_eq!(join_path("/a", "/b"), "/b");
}

#[test]
fn text_helpers() {
    assert_eq!(lines("a\r\nb\n\nc\n"), vec!["a", "b", "", "c"]);
    assert_eq!(split_on("a\n\nb\n", '\n'), vec!["a", "", "b", ""]);
    assert_eq!(trim("  x y \t"), "x y");
    assert_eq!(trim_end("x \n"), "x");
    assert!(str_lt("abc", "abd"));
    assert!(str_lt("ab", "abc"));
    assert!(!str_lt("b", "abc"));
    assert!(!str_lt("same", "same"));
    assert_eq!(decimal_string(1234567890), "1234567890");
    assert_eq!(join(&vec!["a".to_string(), "b".to_string()], ", "), "a, b");
}

#[test]
fn number_scales() {
    assert_eq!(number_format(999), NumberFormat::Plain("999".to_string()));
    assert_eq!(number_format(-5), NumberFormat::Plain("-5".to_string()));
    assert_eq!(number_format(1000), NumberFormat::Scaled { divisor: 1000, unit: 'K' });
    assert_eq!(number_format(2_500_000), NumberFormat::Scaled { divisor: 1_000_000, unit: 'M' });
    assert_eq!(number_format(7_000_000_000), NumberFormat::Scaled { divisor: 1_000_000_000, unit: 'B' });
    assert_eq!(signed_decimal_string(i64::MIN), "-9223372036854775808");
}

#[test]
fn human_numbers_split() {
    assert_eq!(split_human_number(" 4.5M "), ("4.5".to_string(), 1_000_000));
    assert_eq!(split_human_number("3k"), ("3".to_string(), 1_000));
    assert_eq!(split_human_number("2B"), ("2".to_string(), 1_000_000_000));
    assert_eq!(split_human_number("128"), ("128".to_string(), 1));
    assert_eq!(split_human_number(""), ("".to_string(), 1));
}

#[test]
fn model_table_columns() {
    let ms = vec![
        ModelInfo { id: "a".to_string(), context_length: None, completion_price: None },
        ModelInfo { id: "b".to_string(), context_length: Some(8000), completion_price: None },
    ];
    assert_eq!(model_columns(&ms), (true, false));
    assert!(!context_allowed(Some(4000), Some(8000)));
    assert!(context_allowed(Some(8000), Some(8000)));
    assert!(context_allowed(None, Some(8000)));
}

#[test]
fn setup_choices() {
    assert_eq!(reasoning_levels(Providers::Groq), vec!["high", "medium", "low", "default", "none"]);
    let levels = reasoning_levels(Providers::Openrouter);
    assert_eq!(starting_index(&levels, "low"), 3);
    assert_eq!(starting_index(&levels, "absurd"), 0);
    assert!(http_validator("https://api.x/v1"));
    assert!(!http_validator("ftp://x"));
    assert_eq!(default_base_url("local", "http://localhost:1234/v1"), "http://localhost:1234/v1");
    assert_eq!(default_base_url("groq", "http://x"), "");
    assert_eq!(default_model_name("groq", "groq", "llama"), "llama");
    assert_eq!(default_model_name("groq", "openrouter", "owl"), "");
}

#[test]
fn env_keys_are_replaced_or_added() {
    assert!(env_has_key("A=1\nGROQ_API_KEY=old\n", "GROQ_API_KEY"));
    assert_eq!(set_env_key("A=1\nGROQ_API_KEY=old\n", "GROQ_API_KEY", "new"), "A=1\nGROQ_API_KEY=new");
    assert_eq!(set_env_key("A=1\n\n", "B", "2"), "A=1\nB=2");
    assert_eq!(set_env_key("", "B", "2"), "\nB=2");
}

fn context() -> PromptContext {
    PromptContext {
        soul: DEFAULT_SOUL.to_string(),
        model_name: "m".to_string(),
        executable: "/bin/mia".to_string(),
        config_folder: "/h/.mia".to_string(),
        os_name: "Linux".to_string(),
        cwd: "/w".to_string(),
        timestamp: "Mon".to_string(),
        user_memory_path: "/u".to_string(),
        user_memory: "likes tea\n§\nuses vim".to_string(),
        system_memory_path: "/s".to_string(),
        system_memory: String::new(),
        agents_md: Some("Be careful.".to_string()),
    }
}

#[test]
fn system_prompt_sections() {
    let p = get_system_prompt(&context());
    assert!(p.starts_with("You are Mia, a personal, capable AI agent running on the user's workstation.\n\n# Agent Runtime Information\n"));
    assert!(p.contains("- Active Model: m\n- Environment Binary: /bin/mia\n- Config Root: /h/.mia\n"));
    assert!(p.contains("# Operating Context\n- OS Environment: Linux\n- Active Working Directory: /w\n- Current Timestamp: Mon (use"));
    assert!(p.contains("## User Context (/u)\nlikes tea\nuses vim\n\n## System Context (/s)\n\n"));
    assert!(p.ends_with("# Repository Instructions (AGENTS.md)\nBe careful.\n"));
    let t = tui_system_prompt(&context(), "ana", Some("/help"));
    assert!(t.starts_with(&p));
    assert!(t.ends_with("# Terminal Interface Session\nActive TUI User: ana\n\nUser's available TUI commands:\n/help\n"));
}
