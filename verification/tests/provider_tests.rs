use ai_commit::ai::protocol::ProtocolKind;
use ai_commit::ai::provider::{find_provider, join_url, provider_specs, resolve_api_config, ResolveError};
use ai_commit::config::settings::{ApiConfig, Temperature};

fn entry(provider: Option<&str>, endpoint: Option<&str>, model: &str) -> ApiConfig {
    ApiConfig {
        name: None,
        provider: provider.map(|p| p.to_string()),
        endpoint: endpoint.map(|e| e.to_string()),
        model: model.to_string(),
        api_key: None,
        max_tokens: None,
        temperature: None,
        protocol: None,
    }
}

#[test]
fn should_get_provider_by_name_case_insensitively() {
    let provider = find_provider(" OpenAI ").expect("provider should exist");
    assert_eq!(provider.name, "openai");
}

#[test]
fn should_return_builtin_provider_names() {
    let names: Vec<&str> = provider_specs().iter().map(|provider| provider.name).collect();

    assert_eq!(names, vec!["openai", "openrouter", "deepseek", "zhipu", "ollama", "lmstudio"]);
}

#[test]
fn should_resolve_builtin_provider_defaults_with_config_overrides() {
    let resolved = resolve_api_config(&ApiConfig {
        name: None,
        provider: Some("openai".to_string()),
        endpoint: Some("https://proxy.example.com/chat".to_string()),
        model: "gpt-5.4".to_string(),
        api_key: Some("test-key".to_string()),
        max_tokens: Some(1000),
        temperature: Some(Temperature::from_bits(0.2f64.to_bits())),
        protocol: None,
    })
    .expect("config should resolve");

    assert_eq!(resolved.endpoint, "https://proxy.example.com/chat");
    assert_eq!(resolved.models_endpoint.as_deref(), Some("https://api.openai.com/v1/models"));
    assert_eq!(resolved.model, "gpt-5.4");
    assert_eq!(resolved.protocol, ProtocolKind::OpenAiCompatible);
}

#[test]
fn should_resolve_custom_api_config_without_provider() {
    let resolved = resolve_api_config(&ApiConfig {
        name: None,
        provider: None,
        endpoint: Some("http://localhost:11434".to_string()),
        model: "qwen2.5:14b".to_string(),
        api_key: None,
        max_tokens: None,
        temperature: None,
        protocol: Some(ProtocolKind::Ollama),
    })
    .expect("custom config should resolve");

    assert_eq!(resolved.models_endpoint, None);
    assert_eq!(resolved.model, "qwen2.5:14b");
    assert_eq!(resolved.protocol, ProtocolKind::Ollama);
}

#[test]
fn find_provider_matches_every_builtin_in_any_case() {
    for spec in provider_specs() {
        let upper = format!("  {}\t", spec.name.to_ascii_uppercase());
        let found = find_provider(&upper).expect("built-in provider should be found");
        assert_eq!(found.name, spec.name);
        assert_eq!(found.base_url, spec.base_url);
    }
}

#[test]
fn find_provider_rejects_unknown_and_blank_names() {
    assert!(find_provider("anthropic").is_none());
    assert!(find_provider("").is_none());
    assert!(find_provider("   ").is_none());
    assert!(find_provider("open ai").is_none());
}

#[test]
fn builtin_display_names_and_protocols() {
    let specs = provider_specs();
    assert_eq!(specs[0].display_name, "OpenAI");
    assert_eq!(specs[3].base_url, "https://open.bigmodel.cn/api/paas/v4");
    assert_eq!(specs[4].protocol, ProtocolKind::Ollama);
    assert_eq!(specs[5].protocol, ProtocolKind::LMStudio);
}

#[test]
fn join_url_puts_exactly_one_slash_between() {
    assert_eq!(join_url("https://api.openai.com/v1", "chat/completions"), "https://api.openai.com/v1/chat/completions");
    assert_eq!(join_url("https://api.openai.com/v1///", "//models"), "https://api.openai.com/v1/models");
    assert_eq!(join_url("", ""), "/");
}

#[test]
fn resolve_uses_builtin_endpoints_per_protocol() {
    let ollama = resolve_api_config(&entry(Some("ollama"), None, "qwen2.5")).expect("resolves");
    assert_eq!(ollama.endpoint, "http://localhost:11434/api/chat");
    assert_eq!(ollama.models_endpoint.as_deref(), Some("http://localhost:11434/api/tags"));
    assert_eq!(ollama.protocol, ProtocolKind::Ollama);

    let lmstudio = resolve_api_config(&entry(Some("LMStudio"), Some("   "), "m")).expect("resolves");
    assert_eq!(lmstudio.endpoint, "http://localhost:1234/v1/chat/completions");
    assert_eq!(lmstudio.models_endpoint.as_deref(), Some("http://localhost:1234/v1/models"));
    assert_eq!(lmstudio.protocol, ProtocolKind::LMStudio);
}

#[test]
fn resolve_keeps_an_explicit_protocol() {
    let mut e = entry(Some("ollama"), None, "qwen2.5");
    e.protocol = Some(ProtocolKind::OpenAiCompatible);
    let resolved = resolve_api_config(&e).expect("resolves");
    assert_eq!(resolved.protocol, ProtocolKind::OpenAiCompatible);
}

#[test]
fn resolve_reports_missing_endpoint_and_model() {
    let err = resolve_api_config(&entry(None, None, "gpt")).expect_err("no endpoint");
    assert_eq!(err, ResolveError::EndpointNotFound);
    let err = resolve_api_config(&entry(Some("unknown"), None, "gpt")).expect_err("no endpoint");
    assert_eq!(err, ResolveError::EndpointNotFound);
    let err = resolve_api_config(&entry(Some("openai"), None, "  ")).expect_err("no model");
    assert_eq!(err, ResolveError::ModelNotFound);
}

#[test]
fn resolve_carries_key_limits_and_temperature() {
    let mut e = entry(Some("deepseek"), None, "deepseek-chat");
    e.api_key = Some("k".to_string());
    e.max_tokens = Some(512);
    e.temperature = Some(Temperature::from_bits(0.7f64.to_bits()));
    let resolved = resolve_api_config(&e).expect("resolves");
    assert_eq!(resolved.api_key.as_deref(), Some("k"));
    assert_eq!(resolved.max_tokens, Some(512));
    assert_eq!(f64::from_bits(resolved.temperature.expect("temperature").to_bits()), 0.7);
    assert_eq!(resolved.endpoint, "https://api.deepseek.com/v1/chat/completions");
}
