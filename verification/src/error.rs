//! Error types.

use vstd::prelude::*;

verus! {

/// Errors of an LLM call.
///
/// Where an outside error is the cause, `source` holds its message; durations
/// are in milliseconds.
#[derive(Debug)]
pub enum LlmError {
    // -- network --
    ConnectionFailed { url: String, source: String },
    Timeout { elapsed_ms: u64, limit_ms: u64 },
    // -- API --
    AuthenticationFailed { provider: String, message: String },
    RateLimited { provider: String, retry_after_ms: Option<u64> },
    QuotaExceeded { provider: String, message: String },
    ModelNotFound { provider: String, model: String },
    InvalidRequest { provider: String, status: u16, body: String },
    ServerError { provider: String, status: u16, body: String },
    // -- decoding --
    ResponseParseFailed { raw: String, source: String },
    JsonOutputParseFailed { raw: String, target_type: String, source: String },
    StreamInterrupted { chunks_received: usize, source: String },
    // -- configuration --
    ConfigLoadFailed { path: String, source: String },
    ApiKeyMissing { provider: String, env_var: String },
    // -- fallback --
    /// Every provider tried failed: its name and error, in the order tried.
    AllProvidersFailed(Vec<(String, Box<LlmError>)>),
}

impl LlmError {
    /// Errors worth retrying: rate limits, server errors, connection failures, timeouts.
    pub open spec fn retriable(self) -> bool {
        ||| self is RateLimited
        ||| self is ServerError
        ||| self is ConnectionFailed
        ||| self is Timeout
    }

    /// Whether the call may succeed when tried again.
    pub fn is_retriable(&self) -> (r: bool)
        ensures
            r == self.retriable(),
    {
        match self {
            LlmError::RateLimited { .. } => true,
            LlmError::ServerError { .. } => true,
            LlmError::ConnectionFailed { .. } => true,
            LlmError::Timeout { .. } => true,
            _ => false,
        }
    }
}

/// Errors of the DashScope request and response types.
#[derive(Debug)]
pub enum DashScopeError {
    /// A request could not be assembled from what was given.
    InvalidConfiguration(String),
    /// The transport failed while sending or reading; its message.
    RequestBuildError(String),
    /// The service answered with an error code.
    ApiResponseError { code: Option<String>, message: String },
    /// The service answered with an HTTP error status.
    HttpError { status_code: u16, message: String },
    /// The answer had an unexpected form.
    UnexpectedResponse(String),
}

} // verus!
