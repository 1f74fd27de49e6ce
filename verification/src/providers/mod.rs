//! The providers: what each one sends and how each reads the answer.

use vstd::prelude::*;
use crate::error::LlmError;
use crate::json::{
    JsonValue, json_decode, opt_view, parse_json, path_get, path_is_object, path_u64, get_member, is_object, read_u64,
};
use crate::text::{chars_of, owned, string_from_chars};
use crate::types::{Message, TokenUsage, ToolCall};

pub mod anthropic;
pub mod wenxin;
pub mod gemini;
pub mod openai;

use crate::config::{Config, find_provider};
use crate::text::str_eq;
use anthropic::AnthropicProvider;
use gemini::GeminiProvider;
use openai::OpenAiCompatibleProvider;
use wenxin::WenxinProvider;

verus! {

/// An HTTP request for the transport to send.
#[derive(Debug)]
pub struct HttpRequest {
    /// `true` for POST, `false` for GET.
    pub post: bool,
    pub url: String,
    /// Extra headers, in order.
    pub headers: Vec<(String, String)>,
    /// Token for `Authorization: Bearer`.
    pub bearer_token: Option<String>,
    /// JSON body.
    pub body: Option<JsonValue>,
}

/// A status in 200..=299.
pub open spec fn is_success(status: u16) -> bool {
    200 <= status <= 299
}

/// Whether an HTTP status means success.
pub fn status_is_success(status: u16) -> (r: bool)
    ensures
        r == is_success(status),
{
    200 <= status && status <= 299
}

pub open spec fn str_opt_view(o: Option<&str>) -> Option<Seq<char>> {
    match o {
        Some(s) => Some(s@),
        None => None,
    }
}

/// The error for an unsuccessful HTTP status: 401 authentication, 429 rate
/// limit, 404 unknown model (where the provider reports one), other 4xx an
/// invalid request, anything else a server error.
pub open spec fn is_status_error(
    e: LlmError,
    provider: Seq<char>,
    status: u16,
    body: Seq<char>,
    not_found_model: Option<Seq<char>>,
) -> bool {
    if status == 401 {
        e matches LlmError::AuthenticationFailed { provider: p, message: m } && p@ == provider && m@ == body
    } else if status == 429 {
        e matches LlmError::RateLimited { provider: p, retry_after_ms: ra } && p@ == provider && ra is None
    } else if status == 404 && not_found_model is Some {
        e matches LlmError::ModelNotFound { provider: p, model: m } && p@ == provider && m@ == not_found_model->0
    } else if 400 <= status <= 499 {
        e matches LlmError::InvalidRequest { provider: p, status: s, body: b } && p@ == provider && s == status && b@ == body
    } else {
        e matches LlmError::ServerError { provider: p, status: s, body: b } && p@ == provider && s == status && b@ == body
    }
}

/// Maps an unsuccessful HTTP status and its body to an error.
pub fn status_error(provider: &str, status: u16, body: String, not_found_model: Option<&str>) -> (e: LlmError)
    ensures
        is_status_error(e, provider@, status, body@, str_opt_view(not_found_model)),
{
    if status == 401 {
        LlmError::AuthenticationFailed { provider: owned(provider), message: body }
    } else if status == 429 {
        LlmError::RateLimited { provider: owned(provider), retry_after_ms: None }
    } else if status == 404 && not_found_model.is_some() {
        LlmError::ModelNotFound { provider: owned(provider), model: owned(not_found_model.unwrap()) }
    } else if 400 <= status && status <= 499 {
        LlmError::InvalidRequest { provider: owned(provider), status, body }
    } else {
        LlmError::ServerError { provider: owned(provider), status, body }
    }
}

/// The error for a request that could not be sent: a timeout where the
/// transport reports one, else a connection failure.
pub fn send_error(timed_out: bool, elapsed_ms: u64, limit_ms: u64, url: String, source: String) -> (e: LlmError)
    ensures
        timed_out ==> e == (LlmError::Timeout { elapsed_ms, limit_ms }),
        !timed_out ==> e == (LlmError::ConnectionFailed { url, source }),
{
    if timed_out {
        LlmError::Timeout { elapsed_ms, limit_ms }
    } else {
        LlmError::ConnectionFailed { url, source }
    }
}

/// `s` without the `'/'` characters at its end.
pub open spec fn trim_end_slashes(s: Seq<char>) -> Seq<char>
    decreases s.len(),
{
    if s.len() > 0 && s.last() == '/' {
        trim_end_slashes(s.drop_last())
    } else {
        s
    }
}

/// A base URL without trailing slashes.
pub fn trim_trailing_slashes(s: &str) -> (r: String)
    ensures
        r@ == trim_end_slashes(s@),
{
    let cs = chars_of(s);
    let mut end: usize = cs.len();
    assert(cs@.take(end as int) =~= s@);
    while end > 0 && cs[end - 1] == '/'
        invariant
            end <= cs@.len(),
            trim_end_slashes(s@) == trim_end_slashes(cs@.take(end as int)),
            cs@ == s@,
        decreases end,
    {
        assert(cs@.take(end as int).drop_last() =~= cs@.take(end - 1));
        end = end - 1;
    }
    let mut kept: Vec<char> = Vec::new();
    let mut i: usize = 0;
    while i < end
        invariant
            i <= end <= cs@.len(),
            kept@ == cs@.take(i as int),
        decreases end - i,
    {
        kept.push(cs[i]);
        assert(cs@.take(i + 1) =~= cs@.take(i as int).push(cs@[i as int]));
        i = i + 1;
    }
    string_from_chars(kept.as_slice())
}

/// A count read from a usage object: the number where it is a non-negative
/// integer, else 0, cut to its low 32 bits.
pub open spec fn usage_count(u: Option<Seq<char>>, key: Seq<char>) -> u32 {
    (match path_u64(path_get(u, key)) {
        Some(n) => n,
        None => 0,
    }) as u32
}

/// `u[key].as_u64().unwrap_or(0) as u32`.
pub fn read_usage_count(u: &Option<String>, key: &str) -> (r: u32)
    ensures
        r == usage_count(opt_view(*u), key@),
{
    let n: u64 = match read_u64(&get_member(u, key)) {
        Some(n) => n,
        None => 0,
    };
    #[verifier::truncate]
    (n as u32)
}

/// Usage given as `prompt_tokens`, `completion_tokens`, `total_tokens`;
/// all zero when absent.
pub open spec fn counted_usage(u: Option<Seq<char>>) -> TokenUsage {
    if path_is_object(u) {
        TokenUsage {
            prompt_tokens: usage_count(u, "prompt_tokens"@),
            completion_tokens: usage_count(u, "completion_tokens"@),
            total_tokens: usage_count(u, "total_tokens"@),
        }
    } else {
        TokenUsage { prompt_tokens: 0, completion_tokens: 0, total_tokens: 0 }
    }
}

/// Reads usage given as `prompt_tokens`, `completion_tokens`, `total_tokens`.
pub fn read_counted_usage(u: &Option<String>) -> (r: TokenUsage)
    ensures
        r == counted_usage(opt_view(*u)),
{
    if is_object(u) {
        TokenUsage {
            prompt_tokens: read_usage_count(u, "prompt_tokens"),
            completion_tokens: read_usage_count(u, "completion_tokens"),
            total_tokens: read_usage_count(u, "total_tokens"),
        }
    } else {
        TokenUsage { prompt_tokens: 0, completion_tokens: 0, total_tokens: 0 }
    }
}

/// The canonical JSON text of tool-call arguments: the text as serde_json
/// writes back what it decodes, `{}` where the text is not JSON.
pub open spec fn canonical_arguments(text: Seq<char>) -> Seq<char> {
    match json_decode(text) {
        Ok(d) => d.text,
        Err(_) => "{}"@,
    }
}

/// Tool-call arguments in canonical form.
pub fn canonical_arguments_text(text: &str) -> (r: String)
    ensures
        r@ == canonical_arguments(text@),
{
    match parse_json(text) {
        Ok(d) => d.text,
        Err(_) => owned("{}"),
    }
}

/// The text if there is one, else the default.
pub open spec fn str_or(o: Option<Seq<char>>, d: Seq<char>) -> Seq<char> {
    match o {
        Some(s) => s,
        None => d,
    }
}

/// `(id, function_name, arguments)` of each tool call.
pub open spec fn tool_call_views(s: Seq<ToolCall>) -> Seq<(Seq<char>, Seq<char>, Seq<char>)> {
    s.map_values(|t: ToolCall| (t.id@, t.function_name@, t.arguments@))
}

pub proof fn lemma_tool_call_views_push(s: Seq<ToolCall>, t: ToolCall)
    ensures
        tool_call_views(s.push(t)) == tool_call_views(s).push((t.id@, t.function_name@, t.arguments@)),
{
    assert(tool_call_views(s.push(t)) =~= tool_call_views(s).push((t.id@, t.function_name@, t.arguments@)));
}

/// The tool calls of a reply, if any.
pub open spec fn opt_tool_call_views(o: Option<Vec<ToolCall>>) -> Option<Seq<(Seq<char>, Seq<char>, Seq<char>)>> {
    match o {
        Some(v) => Some(tool_call_views(v@)),
        None => None,
    }
}

/// The error for a body that is not JSON: the body and serde_json's message.
pub open spec fn is_parse_failure(e: LlmError, body: Seq<char>, message: Seq<char>) -> bool {
    e matches LlmError::ResponseParseFailed { raw, source } && raw@ == body && source@ == message
}

/// The headers as pairs of texts.
pub open spec fn header_views(hs: Seq<(String, String)>) -> Seq<(Seq<char>, Seq<char>)> {
    hs.map_values(|h: (String, String)| (h.0@, h.1@))
}

/// Appends a header.
pub fn push_header(hs: &mut Vec<(String, String)>, name: &str, value: &str)
    ensures
        header_views(final(hs)@) == header_views(old(hs)@).push((name@, value@)),
{
    hs.push((owned(name), owned(value)));
    assert(header_views(final(hs)@) =~= header_views(old(hs)@).push((name@, value@)));
}

/// No headers yet.
pub fn no_headers() -> (r: Vec<(String, String)>)
    ensures
        header_views(r@) == Seq::<(Seq<char>, Seq<char>)>::empty(),
{
    let r: Vec<(String, String)> = Vec::new();
    assert(header_views(r@) =~= Seq::<(Seq<char>, Seq<char>)>::empty());
    r
}

/// The text of an optional string, empty when absent.
pub open spec fn opt_text(o: Option<String>) -> Seq<char> {
    match o {
        Some(s) => s@,
        None => Seq::empty(),
    }
}

/// `max_tokens`, 4096 when unset.
pub open spec fn max_tokens_or_default(m: Option<u32>) -> u32 {
    match m {
        Some(n) => n,
        None => 4096,
    }
}

/// The messages at the given positions, in that order.
pub open spec fn pick(ms: Seq<Message>, idx: Seq<usize>) -> Seq<Message> {
    idx.map_values(|j: usize| ms[j as int])
}

/// A provider of any kind.
#[derive(Debug)]
pub enum Provider {
    OpenAiCompatible(OpenAiCompatibleProvider),
    Anthropic(AnthropicProvider),
    Gemini(GeminiProvider),
    Wenxin(WenxinProvider),
}

/// The kinds of provider.
#[derive(Debug, Clone, Copy, PartialEq, Eq, Structural)]
pub enum ProviderKind {
    OpenAiCompatible,
    Anthropic,
    Gemini,
    Wenxin,
}

/// The kind of provider a name stands for.
pub open spec fn kind_of(name: Seq<char>) -> Option<ProviderKind> {
    if name == "openai"@ || name == "deepseek"@ || name == "dashscope"@ || name == "glm"@ || name == "ollama"@ {
        Some(ProviderKind::OpenAiCompatible)
    } else if name == "anthropic"@ {
        Some(ProviderKind::Anthropic)
    } else if name == "gemini"@ {
        Some(ProviderKind::Gemini)
    } else if name == "wenxin"@ {
        Some(ProviderKind::Wenxin)
    } else {
        None
    }
}

/// The kind of provider a name stands for.
pub fn provider_kind(name: &str) -> (r: Option<ProviderKind>)
    ensures
        r == kind_of(name@),
{
    if str_eq(name, "openai") || str_eq(name, "deepseek") || str_eq(name, "dashscope") || str_eq(name, "glm")
        || str_eq(name, "ollama") {
        Some(ProviderKind::OpenAiCompatible)
    } else if str_eq(name, "anthropic") {
        Some(ProviderKind::Anthropic)
    } else if str_eq(name, "gemini") {
        Some(ProviderKind::Gemini)
    } else if str_eq(name, "wenxin") {
        Some(ProviderKind::Wenxin)
    } else {
        None
    }
}

/// The error for a provider that is not configured or not known.
pub open spec fn is_unknown_provider(e: LlmError, name: Seq<char>) -> bool {
    e matches LlmError::ModelNotFound { provider, model } && provider@ == name && model@ == Seq::<char>::empty()
}

/// What `create_provider` gives for the provider called `name`, given the
/// key and secret read from the environment variables its section names.
pub open spec fn is_created(
    r: Result<Provider, LlmError>,
    config: Config,
    name: Seq<char>,
    key: Option<String>,
    secret: Option<String>,
) -> bool {
    match find_provider(config.providers@, name) {
        None => r matches Err(e) && is_unknown_provider(e, name),
        Some(pc) => match kind_of(name) {
            None => r matches Err(e) && is_unknown_provider(e, name),
            Some(ProviderKind::OpenAiCompatible) => match r {
                Ok(Provider::OpenAiCompatible(p)) => openai::is_new_outcome(Ok(p), name, pc, key),
                Ok(_) => false,
                Err(e) => openai::is_new_outcome(Err(e), name, pc, key),
            },
            Some(ProviderKind::Anthropic) => match r {
                Ok(Provider::Anthropic(p)) => anthropic::is_new_outcome(Ok(p), pc, key),
                Ok(_) => false,
                Err(e) => anthropic::is_new_outcome(Err(e), pc, key),
            },
            Some(ProviderKind::Gemini) => match r {
                Ok(Provider::Gemini(p)) => gemini::is_new_outcome(Ok(p), pc, key),
                Ok(_) => false,
                Err(e) => gemini::is_new_outcome(Err(e), pc, key),
            },
            Some(ProviderKind::Wenxin) => match r {
                Ok(Provider::Wenxin(p)) => wenxin::is_new_outcome(Ok(p), pc, key, secret),
                Ok(_) => false,
                Err(e) => wenxin::is_new_outcome(Err(e), pc, key, secret),
            },
        },
    }
}

/// OpenAI, DeepSeek, DashScope, GLM and Ollama, where configured, each get
/// an OpenAI-compatible provider under their own name, with the key given
/// (Ollama also without one).
pub proof fn lemma_openai_compatible_names(
    r: Result<Provider, LlmError>,
    config: Config,
    name: Seq<char>,
    key: Option<String>,
    secret: Option<String>,
)
    requires
        is_created(r, config, name, key, secret),
        name == "openai"@ || name == "deepseek"@ || name == "dashscope"@ || name == "glm"@ || name == "ollama"@,
        find_provider(config.providers@, name) is Some,
        key is Some || name == "ollama"@,
    ensures
        r matches Ok(Provider::OpenAiCompatible(p)) && p.name@ == name && p.api_key == key,
{
}

/// Creates the provider called `provider_name` from its configuration.
/// `api_key_from_env` and `api_secret_from_env` are the values of the
/// environment variables that its section names (`None` where it names
/// none or the variable is not set).
pub fn create_provider(
    config: &Config,
    provider_name: &str,
    api_key_from_env: Option<String>,
    api_secret_from_env: Option<String>,
) -> (r: Result<Provider, LlmError>)
    ensures
        is_created(r, *config, provider_name@, api_key_from_env, api_secret_from_env),
{
    let pc = match config.get_provider(provider_name) {
        Some(pc) => pc,
        None => {
            return Err(LlmError::ModelNotFound { provider: owned(provider_name), model: String::new() });
        },
    };
    match provider_kind(provider_name) {
        Some(ProviderKind::OpenAiCompatible) => match OpenAiCompatibleProvider::new(provider_name, pc, api_key_from_env) {
            Ok(p) => Ok(Provider::OpenAiCompatible(p)),
            Err(e) => Err(e),
        },
        Some(ProviderKind::Anthropic) => match AnthropicProvider::new(pc, api_key_from_env) {
            Ok(p) => Ok(Provider::Anthropic(p)),
            Err(e) => Err(e),
        },
        Some(ProviderKind::Gemini) => match GeminiProvider::new(pc, api_key_from_env) {
            Ok(p) => Ok(Provider::Gemini(p)),
            Err(e) => Err(e),
        },
        Some(ProviderKind::Wenxin) => match WenxinProvider::new(pc, api_key_from_env, api_secret_from_env) {
            Ok(p) => Ok(Provider::Wenxin(p)),
            Err(e) => Err(e),
        },
        None => Err(LlmError::ModelNotFound { provider: owned(provider_name), model: String::new() }),
    }
}

impl Provider {
    /// The name the provider goes by.
    pub open spec fn name_view(self) -> Seq<char> {
        match self {
            Provider::OpenAiCompatible(p) => p.name@,
            Provider::Anthropic(p) => p.name@,
            Provider::Gemini(p) => p.name@,
            Provider::Wenxin(p) => p.name@,
        }
    }

    /// The name the provider goes by.
    pub fn provider_name(&self) -> (r: &str)
        ensures
            r@ == self.name_view(),
    {
        match self {
            Provider::OpenAiCompatible(p) => p.name.as_str(),
            Provider::Anthropic(p) => p.name.as_str(),
            Provider::Gemini(p) => p.name.as_str(),
            Provider::Wenxin(p) => p.name.as_str(),
        }
    }

    /// Whether the provider takes tool definitions: all but Wenxin.
    pub fn supports_tool_calling(&self) -> (r: bool)
        ensures
            r == !(self is Wenxin),
    {
        match self {
            Provider::Wenxin(_) => false,
            _ => true,
        }
    }

    /// Whether the provider has a JSON mode: all but Wenxin.
    pub fn supports_json_mode(&self) -> (r: bool)
        ensures
            r == !(self is Wenxin),
    {
        match self {
            Provider::Wenxin(_) => false,
            _ => true,
        }
    }
}

} // verus!
