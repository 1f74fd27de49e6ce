//! Messages, requests, responses and tool calls.

use vstd::prelude::*;
use crate::text::owned;

verus! {

/// Who speaks in a message.
#[derive(Debug, Clone, Copy, PartialEq, Eq, Structural)]
pub enum Role {
    /// Sets the model's behaviour.
    System,
    /// The user.
    User,
    /// The model.
    Assistant,
    /// The result of a tool call, handed back.
    Tool,
}

/// A tool call asked for by the assistant.
#[derive(Debug, Clone)]
pub struct ToolCall {
    /// Unique id of the call.
    pub id: String,
    /// Name of the function.
    pub function_name: String,
    /// The arguments, as a JSON text; sent in canonical form (`{}` where
    /// the text is not JSON).
    pub arguments: String,
}

/// Part of a tool call, as it arrives in a stream.
#[derive(Debug, Clone)]
pub struct ToolCallDelta {
    pub id: Option<String>,
    pub function_name: Option<String>,
    pub arguments: Option<String>,
}

impl Default for ToolCallDelta {
    fn default() -> (r: Self)
        ensures
            r.id is None,
            r.function_name is None,
            r.arguments is None,
    {
        ToolCallDelta { id: None, function_name: None, arguments: None }
    }
}

/// A tool the model may call.
#[derive(Debug, Clone)]
pub struct ToolDefinition {
    pub name: String,
    pub description: String,
    /// JSON Schema of the parameters, as a JSON text.
    pub parameters: String,
}

impl ToolDefinition {
    /// A tool definition.
    pub fn new(name: &str, description: &str, parameters: &str) -> (r: Self)
        ensures
            r.name@ == name@,
            r.description@ == description@,
            r.parameters@ == parameters@,
    {
        ToolDefinition { name: owned(name), description: owned(description), parameters: owned(parameters) }
    }
}

/// One message of a conversation.
#[derive(Debug, Clone)]
pub struct Message {
    pub role: Role,
    pub content: String,
    /// The tool call this message answers (for `Role::Tool`).
    pub tool_call_id: Option<String>,
    /// Tool calls asked for by the assistant.
    pub tool_calls: Option<Vec<ToolCall>>,
}

impl Message {
    /// A system message.
    pub fn system(content: &str) -> (r: Self)
        ensures
            r.role == Role::System,
            r.content@ == content@,
            r.tool_call_id is None,
            r.tool_calls is None,
    {
        Message { role: Role::System, content: owned(content), tool_call_id: None, tool_calls: None }
    }

    /// A user message.
    pub fn user(content: &str) -> (r: Self)
        ensures
            r.role == Role::User,
            r.content@ == content@,
            r.tool_call_id is None,
            r.tool_calls is None,
    {
        Message { role: Role::User, content: owned(content), tool_call_id: None, tool_calls: None }
    }

    /// An assistant message with text only.
    pub fn assistant(content: &str) -> (r: Self)
        ensures
            r.role == Role::Assistant,
            r.content@ == content@,
            r.tool_call_id is None,
            r.tool_calls is None,
    {
        Message { role: Role::Assistant, content: owned(content), tool_call_id: None, tool_calls: None }
    }

    /// An assistant message that asks for tool calls.
    pub fn assistant_with_tool_calls(content: &str, tool_calls: Vec<ToolCall>) -> (r: Self)
        ensures
            r.role == Role::Assistant,
            r.content@ == content@,
            r.tool_call_id is None,
            r.tool_calls == Some(tool_calls),
    {
        Message { role: Role::Assistant, content: owned(content), tool_call_id: None, tool_calls: Some(tool_calls) }
    }

    /// A message that hands back the result of a tool call.
    pub fn tool(tool_call_id: &str, content: &str) -> (r: Self)
        ensures
            r.role == Role::Tool,
            r.content@ == content@,
            r.tool_call_id matches Some(id) && id@ == tool_call_id@,
            r.tool_calls is None,
    {
        Message { role: Role::Tool, content: owned(content), tool_call_id: Some(owned(tool_call_id)), tool_calls: None }
    }
}

/// Tokens counted by the service.
#[derive(Debug, Clone, Copy, PartialEq, Eq, Structural)]
pub struct TokenUsage {
    pub prompt_tokens: u32,
    pub completion_tokens: u32,
    pub total_tokens: u32,
}

impl Default for TokenUsage {
    fn default() -> (r: Self)
        ensures
            r == (TokenUsage { prompt_tokens: 0, completion_tokens: 0, total_tokens: 0 }),
    {
        TokenUsage { prompt_tokens: 0, completion_tokens: 0, total_tokens: 0 }
    }
}

/// A chat request.
#[derive(Debug, Clone)]
pub struct ChatRequest {
    /// The conversation so far.
    pub messages: Vec<Message>,
    /// A model in place of the default one.
    pub model: Option<String>,
    /// Sampling temperature, as the bit pattern of an `f32` (0.0 is deterministic).
    pub temperature: Option<u32>,
    /// Most tokens to generate.
    pub max_tokens: Option<u32>,
    /// Tools the model may call; none means a plain chat.
    pub tools: Option<Vec<ToolDefinition>>,
    /// Whether to ask for JSON output.
    pub json_mode: bool,
}

/// A chat response.
#[derive(Debug, Clone)]
pub struct ChatResponse {
    /// The reply.
    pub content: String,
    /// Tool calls asked for, if any.
    pub tool_calls: Option<Vec<ToolCall>>,
    pub usage: TokenUsage,
    /// The model that answered.
    pub model: String,
    /// The provider that answered.
    pub provider: String,
    /// Time the call took, in milliseconds.
    pub latency_ms: u64,
}

/// A piece of a streamed reply.
#[derive(Debug, Clone)]
pub struct StreamChunk {
    /// New text.
    pub delta: String,
    /// Parts of tool calls.
    pub tool_calls_delta: Option<Vec<ToolCallDelta>>,
    /// Whether this is the last piece.
    pub is_final: bool,
    /// Usage, which the last piece may carry.
    pub usage: Option<TokenUsage>,
}

impl StreamChunk {
    /// The piece that ends a stream and carries nothing.
    pub fn final_empty() -> (r: Self)
        ensures
            r.delta@ == Seq::<char>::empty(),
            r.tool_calls_delta is None,
            r.is_final,
            r.usage is None,
    {
        StreamChunk { delta: String::new(), tool_calls_delta: None, is_final: true, usage: None }
    }
}

} // verus!
