//! uni-llm: one client for the chat APIs of several large-model vendors
//! (OpenAI and compatible services, Anthropic, Google Gemini, Baidu Wenxin).
//!
//! The library decides everything that does not need the network: request
//! bodies, URL and header layout, response decoding, error classification,
//! retry and fallback decisions. The transport runs what it decides.

pub mod text;
pub mod json;
pub mod error;
pub mod types;
pub mod config;
pub mod providers;
pub mod client;
pub mod request;
pub mod response;
pub mod stream;
pub mod task;

pub use error::LlmError;
pub use types::{ChatRequest, ChatResponse, Message, Role, StreamChunk, TokenUsage, ToolCall, ToolCallDelta, ToolDefinition};
pub use config::{Config, DefaultConfig, FallbackConfig, FallbackEntry, LoggingConfig, ProviderConfig};
pub use client::{UniLlmClient, UniLlmClientBuilder};
