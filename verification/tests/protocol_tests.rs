use ai_commit::ai::client::Message;
use ai_commit::ai::protocol::{
    ChatChoice, ChatRequestBody, ChatResponse, HeaderError, ModelEntry, ModelsResponse, ProtocolKind,
};

fn ids(values: &[&str]) -> Vec<ModelEntry> {
    values.iter().map(|v| ModelEntry { id: Some(v.to_string()), name: None }).collect()
}

fn names(values: &[&str]) -> Vec<ModelEntry> {
    values.iter().map(|v| ModelEntry { id: None, name: Some(v.to_string()) }).collect()
}

#[test]
fn should_parse_openai_compatible_models_response() {
    let response = ModelsResponse { data: Some(ids(&["gpt-4o", "gpt-4.1-mini"])), models: None };

    assert_eq!(
        ProtocolKind::OpenAiCompatible.parse_models_response(response),
        vec!["gpt-4o".to_string(), "gpt-4.1-mini".to_string()]
    );
}

#[test]
fn should_parse_ollama_models_response() {
    let response = ModelsResponse { data: None, models: Some(names(&["qwen2.5:14b", "deepseek-r1:14b"])) };

    assert_eq!(
        ProtocolKind::Ollama.parse_models_response(response),
        vec!["qwen2.5:14b".to_string(), "deepseek-r1:14b".to_string()]
    );
}

#[test]
fn should_build_authorization_header_for_openai_compatible_protocol() {
    let headers = ProtocolKind::OpenAiCompatible.headers(&Some("test-key".to_string())).expect("headers should build");

    assert_eq!(headers.get("authorization").and_then(|value| value.to_str().ok()), Some("Bearer test-key"));
}

#[test]
fn should_not_add_authorization_header_without_api_key() {
    let headers = ProtocolKind::Ollama.headers(&None).expect("headers should build");

    assert!(headers.get("authorization").is_none());
}

#[test]
fn headers_always_carry_json_content_type() {
    let headers = ProtocolKind::LMStudio.headers(&Some("abc".to_string())).expect("headers should build");
    assert_eq!(headers.get("content-type").and_then(|v| v.to_str().ok()), Some("application/json"));
    assert_eq!(headers.len(), 2);
    let headers = ProtocolKind::OpenAiCompatible.headers(&None).expect("headers should build");
    assert_eq!(headers.len(), 1);
}

#[test]
fn headers_refuse_a_key_with_a_line_break() {
    let result = ProtocolKind::OpenAiCompatible.headers(&Some("bad\nkey".to_string()));
    assert!(matches!(result, Err(HeaderError::InvalidApiKey)));
}

#[test]
fn models_response_skips_entries_without_the_field() {
    let response = ModelsResponse {
        data: Some(vec![
            ModelEntry { id: Some("a".to_string()), name: Some("x".to_string()) },
            ModelEntry { id: None, name: Some("y".to_string()) },
            ModelEntry { id: Some("c".to_string()), name: None },
        ]),
        models: Some(names(&["ignored"])),
    };
    assert_eq!(ProtocolKind::LMStudio.parse_models_response(response), vec!["a".to_string(), "c".to_string()]);
}

#[test]
fn models_response_without_array_is_empty() {
    let response = ModelsResponse { data: Some(ids(&["gpt-4o"])), models: None };
    assert!(ProtocolKind::Ollama.parse_models_response(response).is_empty());
    let response = ModelsResponse { data: None, models: None };
    assert!(ProtocolKind::OpenAiCompatible.parse_models_response(response).is_empty());
}

#[test]
fn chat_response_takes_first_choice_or_message() {
    let response = ChatResponse {
        choices: Some(vec![
            ChatChoice { content: Some("feat: add x".to_string()) },
            ChatChoice { content: Some("second".to_string()) },
        ]),
        message: Some(ChatChoice { content: Some("ollama".to_string()) }),
    };
    assert_eq!(ProtocolKind::OpenAiCompatible.parse_chat_response(response), Some("feat: add x".to_string()));

    let response = ChatResponse {
        choices: Some(vec![ChatChoice { content: Some("openai".to_string()) }]),
        message: Some(ChatChoice { content: Some("fix: y".to_string()) }),
    };
    assert_eq!(ProtocolKind::Ollama.parse_chat_response(response), Some("fix: y".to_string()));
}

#[test]
fn chat_response_without_content_is_none() {
    let response = ChatResponse { choices: Some(vec![]), message: None };
    assert_eq!(ProtocolKind::OpenAiCompatible.parse_chat_response(response), None);
    let response = ChatResponse { choices: None, message: Some(ChatChoice { content: None }) };
    assert_eq!(ProtocolKind::Ollama.parse_chat_response(response), None);
}

#[test]
fn paths_per_protocol() {
    assert_eq!(ProtocolKind::OpenAiCompatible.chat_path(), "chat/completions");
    assert_eq!(ProtocolKind::Ollama.chat_path(), "api/chat");
    assert_eq!(ProtocolKind::LMStudio.chat_path(), "v1/chat/completions");
    assert_eq!(ProtocolKind::OpenAiCompatible.models_path(), "models");
    assert_eq!(ProtocolKind::Ollama.models_path(), "api/tags");
    assert_eq!(ProtocolKind::LMStudio.models_path(), "v1/models");
    assert_eq!(ProtocolKind::default(), ProtocolKind::OpenAiCompatible);
}

fn resolved(protocol: ProtocolKind) -> ai_commit::ai::provider::ResolvedApiConfig {
    ai_commit::ai::provider::ResolvedApiConfig {
        endpoint: "http://host/chat".to_string(),
        models_endpoint: None,
        model: "m1".to_string(),
        api_key: None,
        max_tokens: Some(256),
        temperature: Some(ai_commit::config::settings::Temperature::from_bits(0.3f64.to_bits())),
        protocol,
    }
}

#[test]
fn chat_request_body_per_protocol() {
    let messages = [Message::system("sys"), Message::user("diff")];
    let expected_messages = vec![("system".to_string(), "sys".to_string()), ("user".to_string(), "diff".to_string())];
    for p in [ProtocolKind::OpenAiCompatible, ProtocolKind::LMStudio] {
        match p.build_chat_request(&resolved(p), &messages) {
            ChatRequestBody::OpenAi { model, messages, max_tokens, temperature } => {
                assert_eq!(model, "m1");
                assert_eq!(messages, expected_messages);
                assert_eq!(max_tokens, Some(256));
                assert_eq!(temperature.map(|t| f64::from_bits(t.to_bits())), Some(0.3));
            }
            other => panic!("unexpected body {other:?}"),
        }
    }
    match ProtocolKind::Ollama.build_chat_request(&resolved(ProtocolKind::Ollama), &messages) {
        ChatRequestBody::Ollama { model, messages, temperature } => {
            assert_eq!(model, "m1");
            assert_eq!(messages, expected_messages);
            assert_eq!(temperature.map(|t| f64::from_bits(t.to_bits())), Some(0.3));
        }
        other => panic!("unexpected body {other:?}"),
    }
}
