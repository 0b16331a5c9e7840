use ai_commit::ai::client::{prepare_chat_request, prepare_models_request, ClientError, Message};
use ai_commit::ai::prompts::{SYSTEM_PROMPT, USER_PROMPT_TEMPLATE};
use ai_commit::ai::protocol::ProtocolKind;
use ai_commit::ai::provider::ResolveError;
use ai_commit::config::settings::{ApiConfig, AppConfig, CommitConfig, ConfigError, PromptConfig};

fn entry(name: &str, provider: Option<&str>, endpoint: Option<&str>, model: &str, key: Option<&str>) -> ApiConfig {
    ApiConfig {
        name: Some(name.to_string()),
        provider: provider.map(|p| p.to_string()),
        endpoint: endpoint.map(|e| e.to_string()),
        model: model.to_string(),
        api_key: key.map(|k| k.to_string()),
        max_tokens: Some(1000),
        temperature: None,
        protocol: None,
    }
}

fn config(default_provider: Option<&str>, providers: Vec<ApiConfig>) -> AppConfig {
    AppConfig {
        default_provider: default_provider.map(|d| d.to_string()),
        providers,
        api: None,
        commit: CommitConfig {
            auto_confirm: false,
            dry_run_by_default: false,
            gpg_sign: None,
            ignore_lock_files: true,
            custom_ignore_patterns: vec![],
            cache_expiry_days: 7,
        },
        prompts: PromptConfig { system_prompt: "s".to_string(), user_prompt_template: "{diff}".to_string() },
    }
}

#[test]
fn messages_carry_role_and_content() {
    let m = Message::system("be brief");
    assert_eq!(m.role(), "system");
    assert_eq!(m.content, "be brief");
    let m = Message::user("diff");
    assert_eq!(m.role(), "user");
    assert_eq!(m.content, "diff");
    assert_eq!(m.content(), "diff");
}

#[test]
fn builtin_prompts_mention_the_diff_placeholder() {
    assert!(USER_PROMPT_TEMPLATE.contains("{diff}"));
    assert!(SYSTEM_PROMPT.contains("Conventional Commits"));
}

#[test]
fn chat_request_for_the_default_entry() {
    let c = config(
        Some("local"),
        vec![
            entry("work", Some("openai"), None, "gpt-4o", Some("k")),
            entry("local", Some("ollama"), None, "qwen", None),
        ],
    );
    let req = prepare_chat_request(&c, None).expect("request");
    assert_eq!(req.config.endpoint, "http://localhost:11434/api/chat");
    assert_eq!(req.config.protocol, ProtocolKind::Ollama);
    assert!(req.headers.get("authorization").is_none());

    let req = prepare_chat_request(&c, Some("work")).expect("request");
    assert_eq!(req.config.endpoint, "https://api.openai.com/v1/chat/completions");
    assert_eq!(req.headers.get("authorization").and_then(|v| v.to_str().ok()), Some("Bearer k"));
}

#[test]
fn chat_request_errors() {
    let empty = config(None, vec![]);
    assert!(matches!(prepare_chat_request(&empty, None), Err(ClientError::Config(ConfigError::NoProviders))));
    let c = config(None, vec![entry("work", None, None, "m", None)]);
    assert!(matches!(
        prepare_chat_request(&c, Some("x")),
        Err(ClientError::Config(ConfigError::ProviderNotFound { .. }))
    ));
    assert!(matches!(prepare_chat_request(&c, None), Err(ClientError::Resolve(ResolveError::EndpointNotFound))));
    let c = config(None, vec![entry("work", Some("openai"), None, " ", None)]);
    assert!(matches!(prepare_chat_request(&c, None), Err(ClientError::Resolve(ResolveError::ModelNotFound))));
    let c = config(None, vec![entry("work", Some("openai"), None, "m", Some("a\u{7f}b"))]);
    assert!(matches!(prepare_chat_request(&c, None), Err(ClientError::InvalidApiKey)));
}

#[test]
fn models_request_needs_a_builtin_provider() {
    let c = config(None, vec![entry("custom", None, Some("http://host/chat"), "m", None)]);
    assert!(matches!(prepare_models_request(&c, None), Err(ClientError::NoModelsEndpoint)));
    let c = config(None, vec![entry("z", Some("zhipu"), Some("http://proxy/chat"), "glm", Some("t"))]);
    let req = prepare_models_request(&c, None).expect("request");
    assert_eq!(req.endpoint, "https://open.bigmodel.cn/api/paas/v4/models");
    assert_eq!(req.headers.get("authorization").and_then(|v| v.to_str().ok()), Some("Bearer t"));
}
