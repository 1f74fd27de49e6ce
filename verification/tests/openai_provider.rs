use uni_llm::config::{Config, DefaultConfig, LoggingConfig, ProviderConfig};
use uni_llm::error::LlmError;
use uni_llm::json::JsonValue;
use uni_llm::providers::openai::{stream_event, OpenAiCompatibleProvider};
use uni_llm::providers::{create_provider, provider_kind, status_error, send_error, Provider, ProviderKind};
use uni_llm::types::{ChatRequest, Message, ToolCall, ToolDefinition};

fn to_value(v: &JsonValue) -> serde_json::Value {
    match v {
        JsonValue::Null => serde_json::Value::Null,
        JsonValue::Bool(b) => serde_json::Value::Bool(*b),
        JsonValue::Str(s) => serde_json::Value::String(s.clone()),
        JsonValue::UInt(n) => serde_json::Value::from(*n),
        JsonValue::F32(bits) => serde_json::Value::from(f32::from_bits(*bits)),
        JsonValue::Raw(t) => serde_json::from_str(t).unwrap(),
        JsonValue::Array(items) => serde_json::Value::Array(items.iter().map(to_value).collect()),
        JsonValue::Object(members) => {
            let mut m = serde_json::Map::new();
            for (k, x) in members {
                m.insert(k.clone(), to_value(x));
            }
            serde_json::Value::Object(m)
        },
    }
}

fn parse(text: &str) -> serde_json::Value {
    serde_json::from_str(text).unwrap()
}

fn provider_config(base_url: &str) -> ProviderConfig {
    ProviderConfig {
        api_key_env: Some("OPENAI_API_KEY".to_string()),
        api_secret_env: None,
        base_url: base_url.to_string(),
        models: vec![],
    }
}

fn provider() -> OpenAiCompatibleProvider {
    OpenAiCompatibleProvider::new("openai", &provider_config("https://api.openai.com/v1/"), Some("sk".to_string()))
        .unwrap()
}

fn request() -> ChatRequest {
    let call = ToolCall { id: "c1".to_string(), function_name: "weather".to_string(), arguments: "{\"city\":\"x\"}".to_string() };
    ChatRequest {
        messages: vec![
            Message::system("sys"),
            Message::user("hi"),
            Message::assistant_with_tool_calls("", vec![call]),
            Message::tool("c1", "sunny"),
        ],
        model: None,
        temperature: Some(0.5f32.to_bits()),
        max_tokens: None,
        tools: Some(vec![ToolDefinition::new("weather", "the weather", "{\"type\":\"object\"}")]),
        json_mode: true,
    }
}

#[test]
fn new_trims_the_base_url_and_needs_a_key() {
    let p = provider();
    assert_eq!(p.base_url, "https://api.openai.com/v1");
    assert_eq!(p.name, "openai");
    match OpenAiCompatibleProvider::new("deepseek", &provider_config("u"), None) {
        Err(LlmError::ApiKeyMissing { provider, env_var }) => {
            assert_eq!(provider, "deepseek");
            assert_eq!(env_var, "OPENAI_API_KEY");
        },
        other => panic!("unexpected {:?}", other),
    }
    let mut no_env = provider_config("u");
    no_env.api_key_env = None;
    match OpenAiCompatibleProvider::new("glm", &no_env, None) {
        Err(LlmError::ApiKeyMissing { env_var, .. }) => assert_eq!(env_var, "API_KEY"),
        other => panic!("unexpected {:?}", other),
    }
    let ollama = OpenAiCompatibleProvider::new("ollama", &provider_config("http://localhost:11434/v1"), None).unwrap();
    assert!(ollama.api_key.is_none());
}

#[test]
fn body_has_messages_tools_and_json_format() {
    let body = to_value(&provider().build_request_body(&request(), "gpt-4o"));
    let expected = parse(
        r#"{
        "model": "gpt-4o",
        "messages": [
            {"role": "system", "content": "sys"},
            {"role": "user", "content": "hi"},
            {"role": "assistant", "content": "", "tool_calls": [
                {"id": "c1", "type": "function", "function": {"name": "weather", "arguments": "{\"city\":\"x\"}"}}
            ]},
            {"role": "tool", "content": "sunny", "tool_call_id": "c1"}
        ],
        "temperature": 0.5,
        "max_tokens": 4096,
        "tools": [{"type": "function", "function": {"name": "weather", "description": "the weather", "parameters": {"type": "object"}}}],
        "response_format": {"type": "json_object"}
    }"#,
    );
    assert_eq!(body, expected);
}

#[test]
fn tool_call_arguments_are_sent_canonical() {
    let odd = ToolCall { id: "a".to_string(), function_name: "f".to_string(), arguments: "{ \"b\" : 2,\n \"a\": 1 }".to_string() };
    let bad = ToolCall { id: "b".to_string(), function_name: "g".to_string(), arguments: "not json".to_string() };
    let req = ChatRequest {
        messages: vec![Message::assistant_with_tool_calls("", vec![odd, bad])],
        model: None,
        temperature: None,
        max_tokens: None,
        tools: None,
        json_mode: false,
    };
    let body = to_value(&provider().build_request_body(&req, "m"));
    let calls = &body["messages"][0]["tool_calls"];
    assert_eq!(calls[0]["function"]["arguments"], serde_json::Value::String("{\"a\":1,\"b\":2}".to_string()));
    assert_eq!(calls[1]["function"]["arguments"], serde_json::Value::String("{}".to_string()));
}

#[test]
fn chat_request_posts_to_chat_completions() {
    let p = provider();
    let r = p.chat_request(&request(), "gpt-4o", true);
    assert!(r.post);
    assert_eq!(r.url, "https://api.openai.com/v1/chat/completions");
    assert_eq!(r.bearer_token.as_deref(), Some("sk"));
    assert!(r.headers.is_empty());
    let body = to_value(r.body.as_ref().unwrap());
    assert_eq!(body["stream"], serde_json::Value::Bool(true));
    let plain = p.chat_request(&request(), "gpt-4o", false);
    assert!(to_value(plain.body.as_ref().unwrap()).get("stream").is_none());
}

#[test]
fn parse_response_reads_content_tools_and_usage() {
    let body = r#"{"model": "gpt-4o-2024", "choices": [{"message": {"content": "hello", "tool_calls": [
        {"id": "c9", "function": {"name": "f", "arguments": "{\"a\": 1}"}},
        {"function": {"name": "no_id"}},
        {"id": "c10", "function": {"name": "g", "arguments": "not json"}}
    ]}}], "usage": {"prompt_tokens": 3, "completion_tokens": 4, "total_tokens": 7}}"#;
    let r = provider().parse_response(&body.to_string(), 12).unwrap();
    assert_eq!(r.content, "hello");
    assert_eq!(r.model, "gpt-4o-2024");
    assert_eq!(r.provider, "openai");
    assert_eq!(r.latency_ms, 12);
    assert_eq!((r.usage.prompt_tokens, r.usage.completion_tokens, r.usage.total_tokens), (3, 4, 7));
    let calls = r.tool_calls.unwrap();
    assert_eq!(calls.len(), 2);
    assert_eq!(calls[0].id, "c9");
    assert_eq!(parse(&calls[0].arguments), parse("{\"a\": 1}"));
    assert_eq!(calls[1].function_name, "g");
    assert_eq!(calls[1].arguments, "{}");
}

#[test]
fn parse_response_defaults() {
    let r = provider().parse_response(&r#"{"choices": [{"message": {}}]}"#.to_string(), 0).unwrap();
    assert_eq!(r.content, "");
    assert_eq!(r.model, "unknown");
    assert!(r.tool_calls.is_none());
    assert_eq!(r.usage.total_tokens, 0);
}

#[test]
fn parse_response_errors() {
    match provider().parse_response(&"not json".to_string(), 0) {
        Err(LlmError::ResponseParseFailed { raw, .. }) => assert_eq!(raw, "not json"),
        other => panic!("unexpected {:?}", other),
    }
    match provider().parse_response(&r#"{"choices": []}"#.to_string(), 0) {
        Err(LlmError::ResponseParseFailed { raw, source }) => {
            assert_eq!(raw, r#"{"choices": []}"#);
            assert_eq!(source, serde_json::from_str::<serde_json::Value>("{").unwrap_err().to_string());
        },
        other => panic!("unexpected {:?}", other),
    }
}

#[test]
fn http_errors_map_by_status() {
    let p = provider();
    assert!(matches!(p.map_http_error(401, "x".to_string()), LlmError::AuthenticationFailed { .. }));
    assert!(matches!(p.map_http_error(429, "x".to_string()), LlmError::RateLimited { retry_after_ms: None, .. }));
    match p.map_http_error(404, "x".to_string()) {
        LlmError::ModelNotFound { provider, model } => {
            assert_eq!(provider, "openai");
            assert_eq!(model, "");
        },
        other => panic!("unexpected {:?}", other),
    }
    assert!(matches!(p.map_http_error(400, "x".to_string()), LlmError::InvalidRequest { status: 400, .. }));
    assert!(matches!(p.map_http_error(500, "x".to_string()), LlmError::ServerError { status: 500, .. }));
    assert!(matches!(p.map_http_error(302, "x".to_string()), LlmError::ServerError { status: 302, .. }));
    assert!(matches!(p.handle_response(503, "down".to_string(), 0), Err(LlmError::ServerError { .. })));
    assert!(p.handle_response(200, r#"{"choices":[{"message":{"content":"ok"}}]}"#.to_string(), 0).is_ok());
}

#[test]
fn status_and_send_errors() {
    match status_error("gemini", 404, "gone".to_string(), None) {
        LlmError::InvalidRequest { provider, status, body } => {
            assert_eq!((provider.as_str(), status, body.as_str()), ("gemini", 404, "gone"));
        },
        other => panic!("unexpected {:?}", other),
    }
    assert!(matches!(
        status_error("anthropic", 404, "gone".to_string(), Some("mystery")),
        LlmError::ModelNotFound { .. }
    ));
    assert!(matches!(
        send_error(true, 10, 5, "u".to_string(), "s".to_string()),
        LlmError::Timeout { elapsed_ms: 10, limit_ms: 5 }
    ));
    assert!(matches!(send_error(false, 0, 0, "u".to_string(), "s".to_string()), LlmError::ConnectionFailed { .. }));
}

#[test]
fn stream_events() {
    let done = stream_event("[DONE]").unwrap().unwrap();
    assert!(done.is_final && done.delta.is_empty());
    let c = stream_event(r#"{"choices":[{"delta":{"content":"He"}}]}"#).unwrap().unwrap();
    assert_eq!(c.delta, "He");
    assert!(!c.is_final);
    let end = stream_event(r#"{"choices":[{"delta":{},"finish_reason":"stop"}]}"#).unwrap().unwrap();
    assert!(end.is_final);
    assert!(stream_event(r#"{"choices":[{"delta":{"role":"assistant"}}]}"#).is_none());
    assert!(matches!(stream_event("{oops"), Some(Err(LlmError::ResponseParseFailed { .. }))));
}

fn config_with(names: &[&str]) -> Config {
    Config {
        default: DefaultConfig::default(),
        providers: names.iter().map(|n| (n.to_string(), provider_config("https://x/"))).collect(),
        fallback: None,
        logging: LoggingConfig::default(),
    }
}

#[test]
fn create_provider_by_name() {
    let c = config_with(&["openai", "anthropic", "gemini", "wenxin", "ollama", "mystery"]);
    assert!(matches!(create_provider(&c, "openai", Some("k".to_string()), None), Ok(Provider::OpenAiCompatible(_))));
    assert!(matches!(create_provider(&c, "anthropic", Some("k".to_string()), None), Ok(Provider::Anthropic(_))));
    assert!(matches!(create_provider(&c, "gemini", Some("k".to_string()), None), Ok(Provider::Gemini(_))));
    let w = create_provider(&c, "wenxin", Some("k".to_string()), Some("s".to_string())).unwrap();
    assert!(!w.supports_tool_calling() && !w.supports_json_mode());
    assert_eq!(w.provider_name(), "wenxin");
    let o = create_provider(&c, "ollama", None, None).unwrap();
    assert!(o.supports_tool_calling() && o.supports_json_mode());
    match create_provider(&c, "mystery", Some("k".to_string()), None) {
        Err(LlmError::ModelNotFound { provider, model }) => {
            assert_eq!(provider, "mystery");
            assert_eq!(model, "");
        },
        other => panic!("unexpected {:?}", other),
    }
    assert!(matches!(create_provider(&c, "deepseek", Some("k".to_string()), None), Err(LlmError::ModelNotFound { .. })));
    assert_eq!(provider_kind("glm"), Some(ProviderKind::OpenAiCompatible));
    assert_eq!(provider_kind("dashscope"), Some(ProviderKind::OpenAiCompatible));
    assert_eq!(provider_kind("mystery"), None);
}
