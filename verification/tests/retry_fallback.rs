use uni_llm::client::{retry_delay, FallbackState, FallbackStep, RetryState, RetryStep, UniLlmClient};
use uni_llm::config::{Config, DefaultConfig, FallbackConfig, FallbackEntry, LoggingConfig};
use uni_llm::error::LlmError;
use uni_llm::types::{ChatResponse, TokenUsage};

fn reply(text: &str) -> ChatResponse {
    ChatResponse {
        content: text.to_string(),
        tool_calls: None,
        usage: TokenUsage::default(),
        model: "m".to_string(),
        provider: "p".to_string(),
        latency_ms: 7,
    }
}

fn server_error(provider: &str) -> LlmError {
    LlmError::ServerError { provider: provider.to_string(), status: 503, body: "busy".to_string() }
}

fn auth_error() -> LlmError {
    LlmError::AuthenticationFailed { provider: "p".to_string(), message: "bad key".to_string() }
}

#[test]
fn retry_delay_doubles_and_adds_jitter() {
    assert_eq!(retry_delay(1, 1000, 123), Some(1123));
    assert_eq!(retry_delay(2, 1000, 123), Some(2123));
    assert_eq!(retry_delay(3, 1000, 1499), Some(4499));
    assert_eq!(retry_delay(1, 1000, 500), Some(1000));
}

#[test]
fn retry_delay_is_capped_at_sixty_seconds() {
    assert_eq!(retry_delay(7, 1000, 0), Some(60_000));
    assert_eq!(retry_delay(1, 59_900, 499), Some(60_000));
    assert_eq!(retry_delay(1, 59_000, 499), Some(59_499));
}

#[test]
fn retry_delay_overflow_is_none() {
    assert_eq!(retry_delay(65, 1, 0), None);
    assert_eq!(retry_delay(2, u64::MAX, 0), None);
    assert_eq!(retry_delay(1, u64::MAX, 1), None);
    assert_eq!(retry_delay(64, 1, 0), Some(60_000));
}

#[test]
fn retry_success_finishes_at_once() {
    let mut s = RetryState::new(3, 1000);
    assert!(matches!(s.start(), RetryStep::Call { delay_ms: 0 }));
    match s.next_with(Ok(reply("hi")), 0) {
        RetryStep::Finish(Ok(r)) => assert_eq!(r.content, "hi"),
        other => panic!("unexpected {:?}", other),
    }
    assert_eq!(s.attempts, 1);
}

#[test]
fn retry_non_retriable_error_is_returned_at_once() {
    let mut s = RetryState::new(3, 1000);
    s.start();
    match s.next_with(Err(auth_error()), 0) {
        RetryStep::Finish(Err(LlmError::AuthenticationFailed { message, .. })) => assert_eq!(message, "bad key"),
        other => panic!("unexpected {:?}", other),
    }
}

#[test]
fn retry_retriable_errors_until_the_limit() {
    let mut s = RetryState::new(2, 1000);
    s.start();
    assert!(matches!(s.next_with(Err(server_error("p")), 10), RetryStep::Call { delay_ms: 1010 }));
    assert!(matches!(s.next_with(Err(server_error("p")), 10), RetryStep::Call { delay_ms: 2010 }));
    assert_eq!(s.attempts, 3);
    match s.next_with(Err(server_error("p")), 10) {
        RetryStep::Finish(Err(LlmError::ServerError { status, .. })) => assert_eq!(status, 503),
        other => panic!("unexpected {:?}", other),
    }
    assert_eq!(s.attempts, 3);
}

#[test]
fn retry_with_zero_retries_makes_one_attempt() {
    let mut s = RetryState::new(0, 1000);
    s.start();
    assert!(matches!(s.next_with(Err(server_error("p")), 0), RetryStep::Finish(Err(_))));
}

#[test]
fn retry_delay_overflow_stops() {
    let mut s = RetryState::new(3, u64::MAX);
    s.start();
    assert!(matches!(s.next_with(Err(server_error("p")), 1), RetryStep::DelayOverflow));
}

#[test]
fn retry_random_jitter_stays_in_range() {
    let mut s = RetryState::new(1, 1000);
    s.start();
    match s.next(Err(LlmError::Timeout { elapsed_ms: 5, limit_ms: 5 })) {
        RetryStep::Call { delay_ms } => assert!((1000..1500).contains(&delay_ms)),
        other => panic!("unexpected {:?}", other),
    }
}

fn client_with_chain(chain: Option<Vec<(&str, &str)>>) -> UniLlmClient {
    let config = Config {
        default: DefaultConfig::default(),
        providers: vec![],
        fallback: chain.map(|c| FallbackConfig {
            chain: c
                .into_iter()
                .map(|(p, m)| FallbackEntry { provider: p.to_string(), model: m.to_string() })
                .collect(),
        }),
        logging: LoggingConfig::default(),
    };
    UniLlmClient::from_loaded_config(config)
}

#[test]
fn fallback_without_chain_returns_the_error() {
    let client = client_with_chain(None);
    let (mut s, step) = FallbackState::start(&client);
    match step {
        FallbackStep::Try { provider, model } => {
            assert_eq!(provider, "openai");
            assert!(model.is_none());
        },
        other => panic!("unexpected {:?}", other),
    }
    assert!(matches!(s.next(Err(server_error("openai"))), FallbackStep::Finish(Err(LlmError::ServerError { .. }))));
}

#[test]
fn fallback_tries_the_chain_in_order() {
    let client = client_with_chain(Some(vec![("anthropic", "anthro-x"), ("gemini", "gemini-y")]));
    let (mut s, _) = FallbackState::start(&client);
    match s.next(Err(server_error("openai"))) {
        FallbackStep::Try { provider, model } => {
            assert_eq!(provider, "anthropic");
            assert_eq!(model.as_deref(), Some("anthro-x"));
        },
        other => panic!("unexpected {:?}", other),
    }
    match s.next(Err(auth_error())) {
        FallbackStep::Try { provider, model } => {
            assert_eq!(provider, "gemini");
            assert_eq!(model.as_deref(), Some("gemini-y"));
        },
        other => panic!("unexpected {:?}", other),
    }
    match s.next(Err(server_error("gemini"))) {
        FallbackStep::Finish(Err(LlmError::AllProvidersFailed(all))) => {
            let names: Vec<&str> = all.iter().map(|(n, _)| n.as_str()).collect();
            assert_eq!(names, vec!["openai", "anthropic", "gemini"]);
            assert!(matches!(*all[1].1, LlmError::AuthenticationFailed { .. }));
        },
        other => panic!("unexpected {:?}", other),
    }
    assert!(s.done);
}

#[test]
fn fallback_stops_at_the_first_success() {
    let client = client_with_chain(Some(vec![("anthropic", "anthro-x"), ("gemini", "gemini-y")]));
    let (mut s, _) = FallbackState::start(&client);
    assert!(matches!(s.next(Err(server_error("openai"))), FallbackStep::Try { .. }));
    match s.next(Ok(reply("done"))) {
        FallbackStep::Finish(Ok(r)) => assert_eq!(r.content, "done"),
        other => panic!("unexpected {:?}", other),
    }
}

#[test]
fn fallback_with_empty_chain_wraps_the_error() {
    let client = client_with_chain(Some(vec![]));
    let (mut s, _) = FallbackState::start(&client);
    match s.next(Err(server_error("openai"))) {
        FallbackStep::Finish(Err(LlmError::AllProvidersFailed(all))) => {
            assert_eq!(all.len(), 1);
            assert_eq!(all[0].0, "openai");
        },
        other => panic!("unexpected {:?}", other),
    }
}

#[test]
fn retriable_errors_are_the_four_kinds() {
    assert!(server_error("p").is_retriable());
    assert!(LlmError::RateLimited { provider: "p".to_string(), retry_after_ms: None }.is_retriable());
    assert!(LlmError::ConnectionFailed { url: "u".to_string(), source: "s".to_string() }.is_retriable());
    assert!(LlmError::Timeout { elapsed_ms: 1, limit_ms: 1 }.is_retriable());
    assert!(!auth_error().is_retriable());
    assert!(!LlmError::QuotaExceeded { provider: "p".to_string(), message: "m".to_string() }.is_retriable());
    assert!(!LlmError::ModelNotFound { provider: "p".to_string(), model: "m".to_string() }.is_retriable());
    assert!(!LlmError::InvalidRequest { provider: "p".to_string(), status: 400, body: "b".to_string() }.is_retriable());
    assert!(!LlmError::ResponseParseFailed { raw: "r".to_string(), source: "s".to_string() }.is_retriable());
    assert!(!LlmError::ApiKeyMissing { provider: "p".to_string(), env_var: "K".to_string() }.is_retriable());
    assert!(!LlmError::AllProvidersFailed(vec![]).is_retriable());
}
