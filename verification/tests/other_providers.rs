use uni_llm::config::ProviderConfig;
use uni_llm::error::LlmError;
use uni_llm::json::JsonValue;
use uni_llm::providers::anthropic::{request_body_value, AnthropicProvider};
use uni_llm::providers::gemini::GeminiProvider;
use uni_llm::providers::wenxin::{TokenCache, WenxinProvider};
use uni_llm::types::{ChatRequest, Message, ToolCall, ToolDefinition};

fn to_value(v: &JsonValue) -> serde_json::Value {
    match v {
        JsonValue::Null => serde_json::Value::Null,
        JsonValue::Bool(b) => serde_json::Value::Bool(*b),
        JsonValue::Str(s) => serde_json::Value::String(s.clone()),
        JsonValue::UInt(n) => serde_json::Value::from(*n),
        JsonValue::F32(bits) => serde_json::Value::from(f32::from_bits(*bits)),
        JsonValue::Raw(t) => serde_json::from_str(t).unwrap(),
        JsonValue::Array(items) => serde_json::Value::Array(items.iter().map(to_value).collect()),
        JsonValue::Object(members) => {
            let mut m = serde_json::Map::new();
            for (k, x) in members {
                m.insert(k.clone(), to_value(x));
            }
            serde_json::Value::Object(m)
        },
    }
}

fn parse(text: &str) -> serde_json::Value {
    serde_json::from_str(text).unwrap()
}

fn config(key_env: Option<&str>, secret_env: Option<&str>, base_url: &str) -> ProviderConfig {
    ProviderConfig {
        api_key_env: key_env.map(|s| s.to_string()),
        api_secret_env: secret_env.map(|s| s.to_string()),
        base_url: base_url.to_string(),
        models: vec![],
    }
}

fn request(messages: Vec<Message>, tools: Option<Vec<ToolDefinition>>, json_mode: bool) -> ChatRequest {
    ChatRequest { messages, model: None, temperature: Some(0.25f32.to_bits()), max_tokens: Some(256), tools, json_mode }
}

fn anthropic() -> AnthropicProvider {
    AnthropicProvider::new(&config(Some("ANTHROPIC_API_KEY"), None, "https://api.anthropic.com/v1//"), Some("ak".to_string()))
        .unwrap()
}

#[test]
fn anthropic_new_needs_a_key() {
    assert_eq!(anthropic().base_url, "https://api.anthropic.com/v1");
    match AnthropicProvider::new(&config(None, None, "u"), None) {
        Err(LlmError::ApiKeyMissing { provider, env_var }) => {
            assert_eq!(provider, "anthropic");
            assert_eq!(env_var, "ANTHROPIC_API_KEY");
        },
        other => panic!("unexpected {:?}", other),
    }
}

#[test]
fn anthropic_body_merges_tool_results_and_takes_the_last_system() {
    let call = ToolCall { id: "t1".to_string(), function_name: "f".to_string(), arguments: "{\"x\":1}".to_string() };
    let messages = vec![
        Message::system("first"),
        Message::user("q"),
        Message::assistant_with_tool_calls("", vec![call]),
        Message::tool("t1", "r1"),
        Message::tool("t2", "r2"),
        Message::system("second"),
        Message::assistant("a"),
    ];
    let tools = vec![ToolDefinition::new("f", "does f", "{\"type\":\"object\"}")];
    let body = to_value(&request_body_value(&request(messages, Some(tools), false), "anthro-3"));
    let expected = parse(
        r#"{
        "model": "anthro-3",
        "max_tokens": 256,
        "messages": [
            {"role": "user", "content": "q"},
            {"role": "assistant", "content": [{"type": "tool_use", "id": "t1", "name": "f", "input": {"x": 1}}]},
            {"role": "user", "content": [
                {"type": "tool_result", "tool_use_id": "t1", "content": "r1"},
                {"type": "tool_result", "tool_use_id": "t2", "content": "r2"}
            ]},
            {"role": "assistant", "content": "a"}
        ],
        "system": "second",
        "tools": [{"name": "f", "description": "does f", "input_schema": {"type": "object"}}]
    }"#,
    );
    assert_eq!(body, expected);
}

#[test]
fn anthropic_tool_use_input_is_canonical_json() {
    let odd = ToolCall { id: "t".to_string(), function_name: "f".to_string(), arguments: " [1, 2 ] ".to_string() };
    let bad = ToolCall { id: "u".to_string(), function_name: "g".to_string(), arguments: "{oops".to_string() };
    let req = request(vec![Message::assistant_with_tool_calls("", vec![odd, bad])], None, false);
    let v = request_body_value(&req, "m");
    let body = to_value(&v);
    let blocks = &body["messages"][0]["content"];
    assert_eq!(blocks[0]["input"], parse("[1,2]"));
    assert_eq!(blocks[1]["input"], parse("{}"));
}

#[test]
fn anthropic_request_headers() {
    let p = anthropic();
    let r = p.chat_request(&request(vec![Message::user("q")], None, false), "anthro-3");
    assert!(r.post);
    assert_eq!(r.url, "https://api.anthropic.com/v1/messages");
    assert!(r.bearer_token.is_none());
    let headers: Vec<(&str, &str)> = r.headers.iter().map(|(a, b)| (a.as_str(), b.as_str())).collect();
    assert_eq!(headers, vec![("x-api-key", "ak"), ("anthropic-version", "2023-06-01"), ("content-type", "application/json")]);
}

#[test]
fn anthropic_reads_text_tools_and_usage() {
    let body = r#"{"content": [
        {"type": "tool_use", "id": "u1", "name": "f", "input": {"k": "v"}},
        {"type": "text", "text": "answer"},
        {"type": "text", "text": "second"}
    ], "usage": {"input_tokens": 10, "output_tokens": 5}}"#;
    let r = anthropic().parse_response(&body.to_string(), "anthro-3", 9).unwrap();
    assert_eq!(r.content, "answer");
    assert_eq!(r.model, "anthro-3");
    assert_eq!((r.usage.prompt_tokens, r.usage.completion_tokens, r.usage.total_tokens), (10, 5, 15));
    let calls = r.tool_calls.unwrap();
    assert_eq!(calls.len(), 1);
    assert_eq!(calls[0].function_name, "f");
    assert_eq!(parse(&calls[0].arguments), parse(r#"{"k": "v"}"#));
}

#[test]
fn anthropic_status_and_overflow() {
    let p = anthropic();
    match p.handle_response(404, "nf".to_string(), "anthro-x", 0) {
        Some(Err(LlmError::ModelNotFound { model, .. })) => assert_eq!(model, "anthro-x"),
        other => panic!("unexpected {:?}", other),
    }
    let big = r#"{"content": [], "usage": {"input_tokens": 4294967295, "output_tokens": 1}}"#;
    assert!(p.handle_response(200, big.to_string(), "m", 0).is_none());
    let ok = p.handle_response(200, r#"{"model": "anthro-real", "content": []}"#.to_string(), "m", 0);
    match ok {
        Some(Ok(r)) => {
            assert_eq!(r.model, "anthro-real");
            assert_eq!(r.content, "");
            assert!(r.tool_calls.is_none());
        },
        other => panic!("unexpected {:?}", other),
    }
}

fn gemini() -> GeminiProvider {
    GeminiProvider::new(&config(Some("GEMINI_API_KEY"), None, "https://g/v1beta/"), Some("gk".to_string())).unwrap()
}

#[test]
fn gemini_request() {
    let p = gemini();
    let messages = vec![Message::system("be kind"), Message::user("q"), Message::assistant("a"), Message::tool("t", "r")];
    let r = p.chat_request(&request(messages, None, true), "gemini-pro");
    assert_eq!(r.url, "https://g/v1beta/models/gemini-pro:generateContent?key=gk");
    let expected = parse(
        r#"{
        "contents": [
            {"role": "user", "parts": [{"text": "q"}]},
            {"role": "model", "parts": [{"text": "a"}]},
            {"role": "user", "parts": [{"text": "r"}]}
        ],
        "generationConfig": {"temperature": 0.25, "maxOutputTokens": 256, "responseMimeType": "application/json"},
        "systemInstruction": {"parts": [{"text": "be kind"}]}
    }"#,
    );
    assert_eq!(to_value(r.body.as_ref().unwrap()), expected);
}

#[test]
fn gemini_reads_the_first_candidate() {
    let body = r#"{"candidates": [{"content": {"parts": [{"text": "hi"}]}}],
        "usageMetadata": {"promptTokenCount": 2, "candidatesTokenCount": 3}}"#;
    match gemini().handle_response(200, body.to_string(), "gemini-pro", 4) {
        Some(Ok(r)) => {
            assert_eq!(r.content, "hi");
            assert_eq!(r.model, "gemini-pro");
            assert_eq!((r.usage.prompt_tokens, r.usage.completion_tokens, r.usage.total_tokens), (2, 3, 5));
        },
        other => panic!("unexpected {:?}", other),
    }
    assert!(matches!(gemini().handle_response(500, "x".to_string(), "m", 0), Some(Err(LlmError::ServerError { .. }))));
}

fn wenxin() -> WenxinProvider {
    WenxinProvider::new(&config(Some("WK"), Some("WS"), "https://w/"), Some("key".to_string()), Some("secret".to_string()))
        .unwrap()
}

#[test]
fn wenxin_needs_key_and_secret() {
    match WenxinProvider::new(&config(None, None, "u"), None, Some("s".to_string())) {
        Err(LlmError::ApiKeyMissing { env_var, .. }) => assert_eq!(env_var, "WENXIN_API_KEY"),
        other => panic!("unexpected {:?}", other),
    }
    match WenxinProvider::new(&config(None, Some("MY_SECRET"), "u"), Some("k".to_string()), None) {
        Err(LlmError::ApiKeyMissing { env_var, .. }) => assert_eq!(env_var, "MY_SECRET"),
        other => panic!("unexpected {:?}", other),
    }
    let p = wenxin();
    assert!(!p.supports_tool_calling() && !p.supports_json_mode());
}

#[test]
fn wenxin_token_exchange() {
    let p = wenxin();
    let t = p.token_request();
    assert!(!t.post);
    assert_eq!(
        t.url,
        "https://aip.baidubce.com/oauth/2.0/token?grant_type=client_credentials&client_id=key&client_secret=secret"
    );
    assert_eq!(p.token_from_response(r#"{"access_token": "tok", "expires_in": 3600}"#.to_string()).unwrap(), ("tok".to_string(), 3600));
    assert_eq!(p.token_from_response(r#"{"access_token": "tok"}"#.to_string()).unwrap(), ("tok".to_string(), 2592000));
    match p.token_from_response(r#"{"error": "invalid_client"}"#.to_string()) {
        Err(LlmError::AuthenticationFailed { message, .. }) => assert_eq!(parse(&message), parse(r#"{"error": "invalid_client"}"#)),
        other => panic!("unexpected {:?}", other),
    }
    assert!(matches!(p.token_from_response("<html>".to_string()), Err(LlmError::ResponseParseFailed { .. })));
}

#[test]
fn wenxin_token_cache_expires_with_margin() {
    let mut cache = TokenCache::new();
    assert!(cache.cached_token(0).is_none());
    cache.store("tok".to_string(), 1_000, 3600);
    assert_eq!(cache.expires_at_ms, Some(1_000 + 3300 * 1000));
    assert_eq!(cache.cached_token(3_300_999).as_deref(), Some("tok"));
    assert!(cache.cached_token(3_301_000).is_none());
    cache.store("short".to_string(), 0, 100);
    assert!(cache.cached_token(0).is_none());
}

#[test]
fn wenxin_request_and_reply() {
    let p = wenxin();
    let messages = vec![Message::user("q"), Message::system("s1"), Message::system("s2"), Message::assistant("a")];
    let r = p.chat_request(&request(messages, None, false), "ernie-4", "tok");
    assert_eq!(r.url, "https://w/chat/ernie-4?access_token=tok");
    let expected = parse(
        r#"{
        "messages": [{"role": "user", "content": "q"}, {"role": "assistant", "content": "a"}],
        "stream": false,
        "temperature": 0.25,
        "max_output_tokens": 256,
        "system": "s1"
    }"#,
    );
    assert_eq!(to_value(r.body.as_ref().unwrap()), expected);
    let reply = p.handle_response(200, r#"{"result": ["x", "y"], "usage": {"prompt_tokens": 1}}"#.to_string(), "ernie-4", 3).unwrap();
    assert_eq!(reply.content, "x");
    assert_eq!(reply.model, "ernie-4");
    assert_eq!(reply.usage.prompt_tokens, 1);
    assert!(matches!(p.handle_response(401, "no".to_string(), "m", 0), Err(LlmError::AuthenticationFailed { .. })));
}
