use uni_llm::client::{built_in_config, prepare_json_request, UniLlmClient, UniLlmClientBuilder};
use uni_llm::config::{
    default_log_file, default_log_level, default_max_retries, default_max_tokens, default_model,
    default_provider, default_retry_delay_ms, default_temperature, default_timeout_secs, default_true,
    Config, DefaultConfig, FallbackConfig, FallbackEntry, LoggingConfig, ProviderConfig,
};
use uni_llm::types::{ChatRequest, Message, Role, ToolDefinition};

fn provider_config(key_env: &str, base_url: &str) -> ProviderConfig {
    ProviderConfig {
        api_key_env: Some(key_env.to_string()),
        api_secret_env: None,
        base_url: base_url.to_string(),
        models: vec!["m1".to_string()],
    }
}

fn sample_config() -> Config {
    Config {
        default: DefaultConfig {
            provider: "deepseek".to_string(),
            model: "deepseek-chat".to_string(),
            temperature: 0.5f32.to_bits(),
            max_tokens: 1024,
            timeout_secs: 30,
            max_retries: 2,
            retry_delay_ms: 500,
        },
        providers: vec![
            ("deepseek".to_string(), provider_config("DEEPSEEK_API_KEY", "https://api.deepseek.com/v1")),
            ("openai".to_string(), provider_config("OPENAI_API_KEY", "https://api.openai.com/v1")),
        ],
        fallback: Some(FallbackConfig {
            chain: vec![FallbackEntry { provider: "openai".to_string(), model: "gpt-4o-mini".to_string() }],
        }),
        logging: LoggingConfig::default(),
    }
}

#[test]
fn defaults_have_documented_values() {
    assert_eq!(default_provider(), "openai");
    assert_eq!(default_model(), "gpt-4o");
    assert_eq!(f32::from_bits(default_temperature()), 0.0);
    assert_eq!(default_max_tokens(), 4096);
    assert_eq!(default_timeout_secs(), 60);
    assert_eq!(default_max_retries(), 3);
    assert_eq!(default_retry_delay_ms(), 1000);
    assert_eq!(default_log_level(), "info");
    assert!(default_true());
    assert_eq!(default_log_file(), "uni-llm.log");
}

#[test]
fn default_sections_use_the_defaults() {
    let d = DefaultConfig::default();
    assert_eq!(d.provider, "openai");
    assert_eq!(d.model, "gpt-4o");
    assert_eq!(d.max_tokens, 4096);
    assert_eq!(d.timeout_secs, 60);
    assert_eq!(d.max_retries, 3);
    assert_eq!(d.retry_delay_ms, 1000);
    let l = LoggingConfig::default();
    assert_eq!(l.level, "info");
    assert!(l.log_requests);
    assert!(!l.log_responses);
    assert!(!l.log_to_file);
    assert_eq!(l.log_file, "uni-llm.log");
}

#[test]
fn config_lookup_and_timeout() {
    let c = sample_config();
    assert_eq!(c.timeout(), 30);
    assert_eq!(c.get_provider("openai").unwrap().base_url, "https://api.openai.com/v1");
    assert_eq!(c.get_provider("deepseek").unwrap().api_key_env.as_deref(), Some("DEEPSEEK_API_KEY"));
    assert!(c.get_provider("gemini").is_none());
}

#[test]
fn builder_without_config_uses_built_in_openai() {
    let client = UniLlmClient::builder().provider("deepseek").model("deepseek-chat").build().unwrap();
    assert_eq!(client.provider_name(), "deepseek");
    assert_eq!(client.model(), "deepseek-chat");
    assert_eq!(client.max_tokens(), 4096);
    assert_eq!(client.timeout(), 60);
    assert_eq!(f32::from_bits(client.temperature()), 0.0);
    assert_eq!(client.config.default.max_retries, 3);
    assert_eq!(client.config.default.retry_delay_ms, 1000);
    let openai = client.config.get_provider("openai").unwrap();
    assert_eq!(openai.api_key_env.as_deref(), Some("OPENAI_API_KEY"));
    assert_eq!(openai.models, vec!["gpt-4o", "gpt-4o-mini", "gpt-4-turbo"]);
    assert!(client.config.fallback.is_none());
}

#[test]
fn builder_settings_reach_the_built_in_config() {
    let client = UniLlmClientBuilder::new()
        .temperature(0.7f32.to_bits())
        .max_tokens(100)
        .timeout(5)
        .build()
        .unwrap();
    assert_eq!(client.provider_name(), "openai");
    assert_eq!(client.model(), "gpt-4o");
    assert_eq!(f32::from_bits(client.temperature()), 0.7);
    assert_eq!(client.max_tokens(), 100);
    assert_eq!(client.timeout(), 5);
}

#[test]
fn builder_settings_go_over_a_given_config() {
    let client = UniLlmClient::builder()
        .from_config(sample_config())
        .provider("anthropic")
        .model("model-a")
        .max_tokens(77)
        .build()
        .unwrap();
    assert_eq!(client.provider_name(), "anthropic");
    assert_eq!(client.model(), "model-a");
    assert_eq!(client.max_tokens(), 77);
    assert_eq!(client.timeout(), 30);
    assert_eq!(f32::from_bits(client.temperature()), 0.5);
    assert_eq!(client.config.default.max_retries, 2);
    assert!(client.config.fallback.is_some());
    assert_eq!(client.config.providers.len(), 2);
    let plain = UniLlmClient::builder().from_config(sample_config()).build().unwrap();
    assert_eq!(plain.provider_name(), "deepseek");
    assert_eq!(plain.model(), "deepseek-chat");
}

#[test]
fn built_in_config_is_openai() {
    let c = built_in_config();
    assert_eq!(c.default.provider, "openai");
    assert_eq!(c.providers.len(), 1);
    assert_eq!(c.providers[0].0, "openai");
    assert_eq!(c.providers[0].1.base_url, "https://api.openai.com/v1");
}

#[test]
fn overrides_switch_provider_and_model_only() {
    let client = UniLlmClient::from_loaded_config(sample_config());
    let other = client.with_provider("openai").with_model("gpt-4o-mini");
    assert_eq!(other.provider_name(), "openai");
    assert_eq!(other.model(), "gpt-4o-mini");
    assert_eq!(other.max_tokens(), 1024);
    assert_eq!(client.provider_name(), "deepseek");
    assert_eq!(client.model(), "deepseek-chat");
}

#[test]
fn build_request_carries_the_settings() {
    let client = UniLlmClient::from_loaded_config(sample_config());
    let tools = vec![ToolDefinition::new("f", "does f", "{\"type\":\"object\"}")];
    let r = client.build_request(vec![Message::user("hi")], Some(tools), true);
    assert_eq!(r.messages.len(), 1);
    assert!(r.model.is_none());
    assert_eq!(r.temperature, Some(0.5f32.to_bits()));
    assert_eq!(r.max_tokens, Some(1024));
    assert_eq!(r.tools.as_ref().unwrap()[0].name, "f");
    assert!(r.json_mode);
    let r2 = client.with_model("x").build_request(vec![], None, false);
    assert_eq!(r2.model.as_deref(), Some("x"));
    let r3 = r2.with_model("y");
    assert_eq!(r3.model.as_deref(), Some("y"));
}

const PROMPT: &str = "你必须只输出合法 JSON，不要输出任何其他文字。输出格式：\n{...}";

fn request(messages: Vec<Message>) -> ChatRequest {
    ChatRequest { messages, model: None, temperature: None, max_tokens: None, tools: None, json_mode: true }
}

#[test]
fn json_request_unchanged_with_json_mode() {
    let r = prepare_json_request(request(vec![Message::user("u")]), true);
    assert!(r.json_mode);
    assert_eq!(r.messages.len(), 1);
    assert_eq!(r.messages[0].content, "u");
}

#[test]
fn json_request_prefixes_the_system_message() {
    let r = prepare_json_request(request(vec![Message::system("be brief"), Message::user("u")]), false);
    assert!(!r.json_mode);
    assert_eq!(r.messages.len(), 2);
    assert_eq!(r.messages[0].role, Role::System);
    assert_eq!(r.messages[0].content, format!("{}\n\n{}", PROMPT, "be brief"));
    assert_eq!(r.messages[1].content, "u");
}

#[test]
fn json_request_adds_a_system_message() {
    let r = prepare_json_request(request(vec![Message::user("u")]), false);
    assert!(!r.json_mode);
    assert_eq!(r.messages.len(), 2);
    assert_eq!(r.messages[0].role, Role::System);
    assert_eq!(r.messages[0].content, PROMPT);
    assert_eq!(r.messages[1].content, "u");
    let empty = prepare_json_request(request(vec![]), false);
    assert_eq!(empty.messages.len(), 1);
    assert_eq!(empty.messages[0].content, PROMPT);
}
