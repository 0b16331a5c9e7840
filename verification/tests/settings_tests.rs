use ai_commit::ai::protocol::ProtocolKind;
use ai_commit::config::prompt::{DEFAULT_SYSTEM_PROMPT, DEFAULT_USER_PROMPT_TEMPLATE};
use ai_commit::config::settings::{
    normalize_newlines, ApiConfig, AppConfig, CommitConfig, ConfigError, PromptConfig, Temperature,
    DEFAULT_TEMPERATURE_BITS,
};

fn commit_and_prompts() -> (CommitConfig, PromptConfig) {
    (
        CommitConfig {
            auto_confirm: false,
            dry_run_by_default: false,
            gpg_sign: None,
            ignore_lock_files: true,
            custom_ignore_patterns: vec![],
            cache_expiry_days: 7,
        },
        PromptConfig { system_prompt: "sys".to_string(), user_prompt_template: "user".to_string() },
    )
}

fn entry(name: Option<&str>, provider: Option<&str>, model: &str) -> ApiConfig {
    ApiConfig {
        name: name.map(|n| n.to_string()),
        provider: provider.map(|p| p.to_string()),
        endpoint: None,
        model: model.to_string(),
        api_key: None,
        max_tokens: None,
        temperature: None,
        protocol: None,
    }
}

fn parse(default_provider: Option<&str>, providers: Vec<ApiConfig>, api: Option<ApiConfig>) -> AppConfig {
    let (commit, prompts) = commit_and_prompts();
    let mut config =
        AppConfig { default_provider: default_provider.map(|d| d.to_string()), providers, api, commit, prompts };
    config.normalize();
    config
}

fn work_and_local(default_provider: Option<&str>) -> AppConfig {
    parse(
        default_provider,
        vec![entry(Some("work"), Some("openrouter"), "glm-4.5"), entry(Some("local"), Some("ollama"), "qwen2.5")],
        None,
    )
}

#[test]
fn should_migrate_legacy_api_section_into_providers() {
    let mut legacy = entry(None, Some("openrouter"), "glm-4.5");
    legacy.api_key = Some("key".to_string());
    let config = parse(None, vec![], Some(legacy));

    assert!(config.api.is_none());
    assert_eq!(config.providers.len(), 1);
    assert_eq!(config.providers[0].entry_name(), "openrouter");
    assert_eq!(config.default_provider.as_deref(), Some("openrouter"));
    // the legacy section is gone and the entry now sits in the provider list
    assert_eq!(config.providers[0].name.as_deref(), Some("openrouter"));
    assert_eq!(config.providers[0].api_key.as_deref(), Some("key"));
}

#[test]
fn should_select_default_provider() {
    let config = work_and_local(Some("local"));

    assert_eq!(config.active_provider(None).expect("active provider").entry_name(), "local");
}

#[test]
fn should_prefer_override_over_default() {
    let config = work_and_local(Some("local"));

    assert_eq!(config.active_provider(Some("work")).expect("active provider").entry_name(), "work");
}

#[test]
fn should_error_on_unknown_provider_name() {
    let config = parse(None, vec![entry(Some("work"), Some("openrouter"), "glm-4.5")], None);

    assert!(config.active_provider(Some("missing")).is_err());
}

#[test]
fn should_fall_back_to_first_provider_when_default_missing() {
    let config = parse(Some("gone"), vec![entry(Some("work"), Some("openrouter"), "glm-4.5")], None);

    assert_eq!(config.active_provider(None).expect("active provider").entry_name(), "work");
}

#[test]
fn entry_name_prefers_trimmed_name_then_provider_then_default() {
    assert_eq!(entry(Some("  work "), Some("openai"), "m").entry_name(), "work");
    assert_eq!(entry(Some("   "), Some("openai"), "m").entry_name(), "openai");
    assert_eq!(entry(None, Some("openai"), "m").entry_name(), "openai");
    assert_eq!(entry(None, None, "m").entry_name(), "default");
}

#[test]
fn normalize_keeps_providers_over_legacy_and_names_every_entry() {
    let config = parse(
        None,
        vec![entry(None, Some("ollama"), "qwen"), entry(None, None, "x")],
        Some(entry(None, Some("openai"), "gpt")),
    );
    assert!(config.api.is_none());
    assert_eq!(config.providers.len(), 2);
    assert_eq!(config.providers[0].name.as_deref(), Some("ollama"));
    assert_eq!(config.providers[1].name.as_deref(), Some("default"));
    assert_eq!(config.default_provider.as_deref(), Some("ollama"));
}

#[test]
fn normalize_twice_changes_nothing() {
    let once = parse(None, vec![], Some(entry(Some(" a "), None, "m")));
    let mut twice = once.duplicate();
    twice.normalize();
    assert_eq!(twice.default_provider, once.default_provider);
    assert_eq!(twice.provider_names(), once.provider_names());
    assert_eq!(twice.providers[0].name, once.providers[0].name);
}

#[test]
fn normalize_of_an_empty_config_sets_no_default() {
    let config = parse(None, vec![], None);
    assert!(config.providers.is_empty());
    assert!(config.default_provider.is_none());
    assert!(matches!(config.active_provider(None), Err(ConfigError::NoProviders)));
}

#[test]
fn lookup_by_name_trims_and_takes_first() {
    let config = parse(
        None,
        vec![entry(Some("a"), None, "first"), entry(Some("a"), None, "second"), entry(Some("b"), None, "third")],
        None,
    );
    assert_eq!(config.find_provider_index(" a "), Some(0));
    assert_eq!(config.find_provider("b").map(|p| p.model.as_str()), Some("third"));
    assert!(config.find_provider("c").is_none());
    assert_eq!(config.provider_names(), vec!["a".to_string(), "a".to_string(), "b".to_string()]);
}

#[test]
fn unknown_override_lists_available_names() {
    let config = work_and_local(None);
    match config.active_provider(Some(" nope ")) {
        Err(ConfigError::ProviderNotFound { name, available }) => {
            assert_eq!(name, "nope");
            assert_eq!(available, vec!["work".to_string(), "local".to_string()]);
        }
        _ => panic!("expected ProviderNotFound"),
    }
}

#[test]
fn blank_override_uses_default() {
    let config = work_and_local(Some("local"));
    assert_eq!(config.active_provider(Some("  ")).expect("active").entry_name(), "local");
}

#[test]
fn set_default_then_active_is_that_entry() {
    let mut config = work_and_local(Some("local"));
    config.set_default_provider("work").expect("known entry");
    assert_eq!(config.default_provider.as_deref(), Some("work"));
    assert_eq!(config.active_provider(None).expect("active").entry_name(), "work");
}

#[test]
fn set_default_of_unknown_entry_changes_nothing() {
    let mut config = work_and_local(Some("local"));
    let result = config.set_default_provider("other");
    assert!(matches!(result, Err(ConfigError::ProviderNotFound { .. })));
    assert_eq!(config.default_provider.as_deref(), Some("local"));
}

#[test]
fn remove_default_entry_moves_default_to_first_left() {
    let mut config = work_and_local(Some("work"));
    config.remove_provider_entry("work").expect("removed");
    assert_eq!(config.provider_names(), vec!["local".to_string()]);
    assert_eq!(config.default_provider.as_deref(), Some("local"));
}

#[test]
fn remove_other_entry_keeps_default() {
    let mut config = work_and_local(Some("work"));
    config.remove_provider_entry("local").expect("removed");
    assert_eq!(config.provider_names(), vec!["work".to_string()]);
    assert_eq!(config.default_provider.as_deref(), Some("work"));
}

#[test]
fn remove_last_entry_clears_default() {
    let mut config = parse(None, vec![entry(Some("only"), None, "m")], None);
    config.remove_provider_entry("only").expect("removed");
    assert!(config.providers.is_empty());
    assert!(config.default_provider.is_none());
}

#[test]
fn remove_unknown_entry_reports_and_keeps() {
    let mut config = work_and_local(Some("work"));
    match config.remove_provider_entry("gone") {
        Err(ConfigError::ProviderNotFound { name, available }) => {
            assert_eq!(name, "gone");
            assert_eq!(available, vec!["work".to_string(), "local".to_string()]);
        }
        _ => panic!("expected ProviderNotFound"),
    }
    assert_eq!(config.providers.len(), 2);
}

#[test]
fn add_and_init_entries() {
    let mut config = work_and_local(Some("work"));
    config.add_provider_entry(entry(Some("extra"), Some("zhipu"), "glm"), false);
    assert_eq!(config.provider_names().len(), 3);
    assert_eq!(config.default_provider.as_deref(), Some("work"));
    config.add_provider_entry(entry(Some("new"), Some("zhipu"), "glm"), true);
    assert_eq!(config.default_provider.as_deref(), Some("new"));
    config.init_with_entry(entry(Some("fresh"), Some("openai"), "gpt"));
    assert_eq!(config.provider_names(), vec!["fresh".to_string()]);
    assert_eq!(config.default_provider.as_deref(), Some("fresh"));
}

#[test]
fn new_entry_takes_limits_from_first_entry_or_defaults() {
    let empty = parse(None, vec![], None);
    let e = empty.new_provider_entry(" mine ", "openai", String::new());
    assert_eq!(e.name.as_deref(), Some("mine"));
    assert_eq!(e.provider.as_deref(), Some("openai"));
    assert_eq!(e.api_key, None);
    assert_eq!(e.max_tokens, Some(1000));
    assert_eq!(e.temperature.map(|t| f64::from_bits(t.to_bits())), Some(0.7));
    assert_eq!(e.model, "");

    let mut first = entry(Some("a"), None, "m");
    first.max_tokens = Some(42);
    first.temperature = Some(Temperature::from_bits(0.1f64.to_bits()));
    let config = parse(None, vec![first], None);
    let e = config.new_provider_entry("b", "ollama", "key".to_string());
    assert_eq!(e.api_key.as_deref(), Some("key"));
    assert_eq!(e.max_tokens, Some(42));
    assert_eq!(e.temperature.map(|t| f64::from_bits(t.to_bits())), Some(0.1));
}

#[test]
fn probe_config_holds_only_the_entry_with_a_placeholder_model() {
    let config = work_and_local(Some("work"));
    let probe = config.probe_config(&entry(Some("try"), Some("ollama"), " "));
    assert_eq!(probe.providers.len(), 1);
    assert_eq!(probe.providers[0].model, "_");
    assert_eq!(probe.default_provider.as_deref(), Some("try"));
    let probe = config.probe_config(&entry(Some("try"), Some("ollama"), "qwen"));
    assert_eq!(probe.providers[0].model, "qwen");
}

#[test]
fn user_prompt_replaces_every_placeholder() {
    let (commit, _) = commit_and_prompts();
    let config = AppConfig {
        default_provider: None,
        providers: vec![],
        api: None,
        commit,
        prompts: PromptConfig {
            system_prompt: "s".to_string(),
            user_prompt_template: "Diff:\n{diff}\nAgain: {diff}".to_string(),
        },
    };
    assert_eq!(config.generate_user_prompt("+x"), "Diff:\n+x\nAgain: +x");
    assert_eq!(config.generate_user_prompt("{diff}"), "Diff:\n{diff}\nAgain: {diff}");
}

#[test]
fn normalize_newlines_drops_carriage_returns() {
    assert_eq!(normalize_newlines("a\r\nb\rc\n"), "a\nbc\n");
    assert_eq!(normalize_newlines("\r\r\n"), "\n");
    assert_eq!(normalize_newlines("plain"), "plain");
}

#[test]
fn default_config_has_one_migrated_entry_and_default_prompts() {
    let config = AppConfig::default();
    assert!(config.api.is_none());
    assert_eq!(config.provider_names(), vec!["default".to_string()]);
    assert_eq!(config.default_provider.as_deref(), Some("default"));
    let p = &config.providers[0];
    assert_eq!(p.endpoint.as_deref(), Some("https://ark.cn-beijing.volces.com/api/v3/chat/completions"));
    assert_eq!(p.model, "doubao-1-5-pro-32k-250115");
    assert_eq!(p.max_tokens, Some(1000));
    assert_eq!(p.temperature.map(|t| f64::from_bits(t.to_bits())), Some(0.7));
    assert_eq!(p.protocol, None::<ProtocolKind>);
    assert!(!config.commit.auto_confirm);
    assert!(config.commit.ignore_lock_files);
    assert_eq!(config.commit.cache_expiry_days, 7);
    assert_eq!(config.prompts.system_prompt, DEFAULT_SYSTEM_PROMPT.replace("\r\n", "\n").replace('\r', ""));
    assert_eq!(config.prompts.user_prompt_template, DEFAULT_USER_PROMPT_TEMPLATE);
    assert_eq!(f64::from_bits(DEFAULT_TEMPERATURE_BITS), 0.7);
}

#[test]
fn removing_a_just_added_entry_restores_the_list() {
    let mut config = work_and_local(Some("local"));
    let before = config.provider_names();
    config.add_provider_entry(entry(Some("extra"), Some("zhipu"), "glm"), false);
    config.remove_provider_entry("extra").expect("removed");
    assert_eq!(config.provider_names(), before);
    assert_eq!(config.default_provider.as_deref(), Some("local"));
}

#[test]
fn template_without_placeholder_is_sent_as_is() {
    let (commit, _) = commit_and_prompts();
    let config = AppConfig {
        default_provider: None,
        providers: vec![],
        api: None,
        commit,
        prompts: PromptConfig { system_prompt: "s".to_string(), user_prompt_template: "no placeholder".to_string() },
    };
    assert_eq!(config.generate_user_prompt("+x"), "no placeholder");
}
