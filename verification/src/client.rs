//! The client: settings, request building, the retry and fallback decisions.
//!
//! Sending is the transport's work. The decisions between sends are made
//! here, as steps of two state machines: [`RetryState`] for the retries
//! against one provider, [`FallbackState`] for the chain of providers.

use std::sync::Arc;
use vstd::prelude::*;
use crate::config::{Config, DefaultConfig, FallbackEntry, LoggingConfig, ProviderConfig};
use crate::error::LlmError;
use crate::text::{join2, owned};
use crate::types::{ChatRequest, ChatResponse, Message, Role, ToolDefinition};

verus! {

/// Another handle on the same configuration (std's `Arc::clone`).
#[verifier::external_body]
fn share_config(config: &Arc<Config>) -> (r: Arc<Config>)
    ensures
        r == *config,
{
    Arc::clone(config)
}

/// The unified LLM client.
#[derive(Debug)]
pub struct UniLlmClient {
    pub config: Arc<Config>,
    pub provider_override: Option<String>,
    pub model_override: Option<String>,
    /// Bit pattern of an `f32` temperature.
    pub temperature_override: Option<u32>,
    pub max_tokens_override: Option<u32>,
    /// Seconds.
    pub timeout_override: Option<u64>,
}

impl UniLlmClient {
    /// A client on a loaded configuration, with nothing overridden.
    pub fn from_loaded_config(config: Config) -> (r: Self)
        ensures
            *r.config == config,
            r.provider_override is None,
            r.model_override is None,
            r.temperature_override is None,
            r.max_tokens_override is None,
            r.timeout_override is None,
    {
        UniLlmClient {
            config: Arc::new(config),
            provider_override: None,
            model_override: None,
            temperature_override: None,
            max_tokens_override: None,
            timeout_override: None,
        }
    }

    /// A builder.
    pub fn builder() -> (r: UniLlmClientBuilder)
        ensures
            r.is_empty(),
    {
        UniLlmClientBuilder::new()
    }

    /// The same client, talking to another provider.
    pub fn with_provider(&self, provider: &str) -> (r: Self)
        ensures
            r.config == self.config,
            r.provider_override matches Some(p) && p@ == provider@,
            r.model_override == self.model_override,
            r.temperature_override == self.temperature_override,
            r.max_tokens_override == self.max_tokens_override,
            r.timeout_override == self.timeout_override,
    {
        UniLlmClient {
            config: share_config(&self.config),
            provider_override: Some(owned(provider)),
            model_override: self.model_override.clone(),
            temperature_override: self.temperature_override,
            max_tokens_override: self.max_tokens_override,
            timeout_override: self.timeout_override,
        }
    }

    /// The same client, asking for another model.
    pub fn with_model(&self, model: &str) -> (r: Self)
        ensures
            r.config == self.config,
            r.provider_override == self.provider_override,
            r.model_override matches Some(m) && m@ == model@,
            r.temperature_override == self.temperature_override,
            r.max_tokens_override == self.max_tokens_override,
            r.timeout_override == self.timeout_override,
    {
        UniLlmClient {
            config: share_config(&self.config),
            provider_override: self.provider_override.clone(),
            model_override: Some(owned(model)),
            temperature_override: self.temperature_override,
            max_tokens_override: self.max_tokens_override,
            timeout_override: self.timeout_override,
        }
    }

    /// The provider in use: the override, else the configured default.
    pub open spec fn chosen_provider(self) -> Seq<char> {
        match self.provider_override {
            Some(p) => p@,
            None => self.config.default.provider@,
        }
    }

    /// The model in use: the override, else the configured default.
    pub open spec fn chosen_model(self) -> Seq<char> {
        match self.model_override {
            Some(m) => m@,
            None => self.config.default.model@,
        }
    }

    pub open spec fn chosen_temperature(self) -> u32 {
        match self.temperature_override {
            Some(t) => t,
            None => self.config.default.temperature,
        }
    }

    pub open spec fn chosen_max_tokens(self) -> u32 {
        match self.max_tokens_override {
            Some(n) => n,
            None => self.config.default.max_tokens,
        }
    }

    pub open spec fn chosen_timeout(self) -> u64 {
        match self.timeout_override {
            Some(t) => t,
            None => self.config.default.timeout_secs,
        }
    }

    /// The provider in use.
    pub fn provider_name(&self) -> (r: &str)
        ensures
            r@ == self.chosen_provider(),
    {
        match &self.provider_override {
            Some(p) => p.as_str(),
            None => self.config.default.provider.as_str(),
        }
    }

    /// The model in use.
    pub fn model(&self) -> (r: &str)
        ensures
            r@ == self.chosen_model(),
    {
        match &self.model_override {
            Some(m) => m.as_str(),
            None => self.config.default.model.as_str(),
        }
    }

    /// The temperature in use, as the bit pattern of an `f32`.
    pub fn temperature(&self) -> (r: u32)
        ensures
            r == self.chosen_temperature(),
    {
        match self.temperature_override {
            Some(t) => t,
            None => self.config.default.temperature,
        }
    }

    /// The `max_tokens` in use.
    pub fn max_tokens(&self) -> (r: u32)
        ensures
            r == self.chosen_max_tokens(),
    {
        match self.max_tokens_override {
            Some(n) => n,
            None => self.config.default.max_tokens,
        }
    }

    /// The timeout in use, in seconds.
    pub fn timeout(&self) -> (r: u64)
        ensures
            r == self.chosen_timeout(),
    {
        match self.timeout_override {
            Some(t) => t,
            None => self.config.timeout(),
        }
    }

    /// A request with the client's settings. The request names a model
    /// only where the client overrides the model.
    pub fn build_request(&self, messages: Vec<Message>, tools: Option<Vec<ToolDefinition>>, json_mode: bool) -> (r:
        ChatRequest)
        ensures
            r.messages == messages,
            r.model == self.model_override,
            r.temperature == Some(self.chosen_temperature()),
            r.max_tokens == Some(self.chosen_max_tokens()),
            r.tools == tools,
            r.json_mode == json_mode,
    {
        ChatRequest {
            messages,
            model: self.model_override.clone(),
            temperature: Some(self.temperature()),
            max_tokens: Some(self.max_tokens()),
            tools,
            json_mode,
        }
    }
}

impl ChatRequest {
    /// The same request, naming `model`.
    pub fn with_model(self, model: &str) -> (r: Self)
        ensures
            r.messages == self.messages,
            r.model matches Some(m) && m@ == model@,
            r.temperature == self.temperature,
            r.max_tokens == self.max_tokens,
            r.tools == self.tools,
            r.json_mode == self.json_mode,
    {
        ChatRequest { model: Some(owned(model)), ..self }
    }
}

// ---------------------------------------------------------------------------
// JSON output
// ---------------------------------------------------------------------------

/// The instruction put before the conversation when the provider has no JSON mode.
pub open spec fn json_prompt() -> Seq<char> {
    "你必须只输出合法 JSON，不要输出任何其他文字。输出格式：\n{...}"@
}

/// The request sent for JSON output. A provider with a JSON mode gets the
/// request as it is. Otherwise JSON mode is turned off and the instruction
/// is put first: before the content of a leading system message, separated
/// by an empty line, or as a new system message at the front.
pub open spec fn is_json_request(r: ChatRequest, req: ChatRequest, supports_json_mode: bool) -> bool {
    if supports_json_mode {
        r == req
    } else {
        &&& r.model == req.model
        &&& r.temperature == req.temperature
        &&& r.max_tokens == req.max_tokens
        &&& r.tools == req.tools
        &&& !r.json_mode
        &&& if req.messages@.len() > 0 && req.messages@[0].role == Role::System {
            let first = req.messages@[0];
            &&& r.messages@.len() == req.messages@.len()
            &&& r.messages@[0].role == Role::System
            &&& r.messages@[0].content@ == json_prompt() + "\n\n"@ + first.content@
            &&& r.messages@[0].tool_call_id == first.tool_call_id
            &&& r.messages@[0].tool_calls == first.tool_calls
            &&& r.messages@.drop_first() == req.messages@.drop_first()
        } else {
            &&& r.messages@.len() == req.messages@.len() + 1
            &&& r.messages@[0].role == Role::System
            &&& r.messages@[0].content@ == json_prompt()
            &&& r.messages@[0].tool_call_id is None
            &&& r.messages@[0].tool_calls is None
            &&& r.messages@.drop_first() == req.messages@
        }
    }
}

/// Prepares a request for JSON output.
pub fn prepare_json_request(request: ChatRequest, supports_json_mode: bool) -> (r: ChatRequest)
    ensures
        is_json_request(r, request, supports_json_mode),
{
    if supports_json_mode {
        return request;
    }
    let prompt = "你必须只输出合法 JSON，不要输出任何其他文字。输出格式：\n{...}";
    let mut request = request;
    let ghost given = request;
    if request.messages.len() > 0 && request.messages[0].role == Role::System {
        let mut first = request.messages.remove(0);
        let ghost tail = request.messages@;
        first.content = join2(join2(prompt, "\n\n").as_str(), first.content.as_str());
        request.messages.insert(0, first);
        assert(request.messages@.drop_first() =~= tail);
        assert(given.messages@.drop_first() =~= tail);
    } else {
        let ghost before = request.messages@;
        request.messages.insert(0, Message::system(prompt));
        assert(request.messages@.drop_first() =~= before);
    }
    request.json_mode = false;
    request
}

// ---------------------------------------------------------------------------
// The builder
// ---------------------------------------------------------------------------

/// Builds a client: on a given configuration, or on the built-in one
/// (OpenAI, `gpt-4o`), with the settings given here put over it.
#[derive(Debug)]
pub struct UniLlmClientBuilder {
    pub config: Option<Config>,
    pub provider: Option<String>,
    pub model: Option<String>,
    /// Bit pattern of an `f32` temperature.
    pub temperature: Option<u32>,
    pub max_tokens: Option<u32>,
    pub timeout_secs: Option<u64>,
}

impl UniLlmClientBuilder {
    pub open spec fn is_empty(self) -> bool {
        &&& self.config is None
        &&& self.provider is None
        &&& self.model is None
        &&& self.temperature is None
        &&& self.max_tokens is None
        &&& self.timeout_secs is None
    }

    /// A builder with nothing set.
    pub fn new() -> (r: Self)
        ensures
            r.is_empty(),
    {
        UniLlmClientBuilder {
            config: None,
            provider: None,
            model: None,
            temperature: None,
            max_tokens: None,
            timeout_secs: None,
        }
    }

    pub fn provider(self, provider: &str) -> (r: Self)
        ensures
            r.provider matches Some(p) && p@ == provider@,
            r.config == self.config && r.model == self.model && r.temperature == self.temperature,
            r.max_tokens == self.max_tokens && r.timeout_secs == self.timeout_secs,
    {
        UniLlmClientBuilder { provider: Some(owned(provider)), ..self }
    }

    pub fn model(self, model: &str) -> (r: Self)
        ensures
            r.model matches Some(m) && m@ == model@,
            r.config == self.config && r.provider == self.provider && r.temperature == self.temperature,
            r.max_tokens == self.max_tokens && r.timeout_secs == self.timeout_secs,
    {
        UniLlmClientBuilder { model: Some(owned(model)), ..self }
    }

    /// Sets the temperature, given as the bit pattern of an `f32`.
    pub fn temperature(self, t: u32) -> (r: Self)
        ensures
            r.temperature == Some(t),
            r.config == self.config && r.provider == self.provider && r.model == self.model,
            r.max_tokens == self.max_tokens && r.timeout_secs == self.timeout_secs,
    {
        UniLlmClientBuilder { temperature: Some(t), ..self }
    }

    pub fn max_tokens(self, n: u32) -> (r: Self)
        ensures
            r.max_tokens == Some(n),
            r.config == self.config && r.provider == self.provider && r.model == self.model,
            r.temperature == self.temperature && r.timeout_secs == self.timeout_secs,
    {
        UniLlmClientBuilder { max_tokens: Some(n), ..self }
    }

    /// Sets the timeout, in whole seconds.
    pub fn timeout(self, secs: u64) -> (r: Self)
        ensures
            r.timeout_secs == Some(secs),
            r.config == self.config && r.provider == self.provider && r.model == self.model,
            r.temperature == self.temperature && r.max_tokens == self.max_tokens,
    {
        UniLlmClientBuilder { timeout_secs: Some(secs), ..self }
    }

    /// Builds on a given configuration in place of the built-in one; the
    /// settings of this builder still go over it.
    pub fn from_config(self, config: Config) -> (r: Self)
        ensures
            r.config == Some(config),
            r.provider == self.provider && r.model == self.model && r.temperature == self.temperature,
            r.max_tokens == self.max_tokens && r.timeout_secs == self.timeout_secs,
    {
        UniLlmClientBuilder { config: Some(config), ..self }
    }

    /// Builds the client: the builder's settings over the given
    /// configuration, or over the built-in one where none is given. Always
    /// succeeds.
    pub fn build(self) -> (r: Result<UniLlmClient, LlmError>)
        ensures
            r matches Ok(c) && c.provider_override is None && c.model_override is None
                && c.temperature_override is None && c.max_tokens_override is None && c.timeout_override is None
                && match self.config {
                Some(cfg) => has_settings_over(*c.config, cfg, self),
                None => is_built_in_config(*c.config, self),
            },
    {
        let mut c = match self.config {
            Some(cfg) => cfg,
            None => built_in_config(),
        };
        match self.provider {
            Some(p) => c.default.provider = p,
            None => {},
        }
        match self.model {
            Some(m) => c.default.model = m,
            None => {},
        }
        match self.temperature {
            Some(t) => c.default.temperature = t,
            None => {},
        }
        match self.max_tokens {
            Some(n) => c.default.max_tokens = n,
            None => {},
        }
        match self.timeout_secs {
            Some(s) => c.default.timeout_secs = s,
            None => {},
        }
        Ok(UniLlmClient::from_loaded_config(c))
    }
}

/// `c` is `base` with the builder's provider, model, temperature,
/// `max_tokens` and timeout put over its defaults; the rest is `base`'s.
pub open spec fn has_settings_over(c: Config, base: Config, b: UniLlmClientBuilder) -> bool {
    &&& c.default.provider@ == match b.provider {
        Some(p) => p@,
        None => base.default.provider@,
    }
    &&& c.default.model@ == match b.model {
        Some(m) => m@,
        None => base.default.model@,
    }
    &&& c.default.temperature == match b.temperature {
        Some(t) => t,
        None => base.default.temperature,
    }
    &&& c.default.max_tokens == match b.max_tokens {
        Some(n) => n,
        None => base.default.max_tokens,
    }
    &&& c.default.timeout_secs == match b.timeout_secs {
        Some(s) => s,
        None => base.default.timeout_secs,
    }
    &&& c.default.max_retries == base.default.max_retries
    &&& c.default.retry_delay_ms == base.default.retry_delay_ms
    &&& c.providers == base.providers
    &&& c.fallback == base.fallback
    &&& c.logging == base.logging
}

/// The built-in OpenAI provider section.
pub open spec fn is_built_in_openai(p: ProviderConfig) -> bool {
    &&& p.api_key_env matches Some(k) && k@ == "OPENAI_API_KEY"@
    &&& p.api_secret_env is None
    &&& p.base_url@ == "https://api.openai.com/v1"@
    &&& p.models@.len() == 3
    &&& p.models@[0]@ == "gpt-4o"@
    &&& p.models@[1]@ == "gpt-4o-mini"@
    &&& p.models@[2]@ == "gpt-4-turbo"@
}

/// The built-in configuration with a builder's settings on top.
pub open spec fn is_built_in_config(c: Config, b: UniLlmClientBuilder) -> bool {
    &&& c.default.provider@ == match b.provider {
        Some(p) => p@,
        None => "openai"@,
    }
    &&& c.default.model@ == match b.model {
        Some(m) => m@,
        None => "gpt-4o"@,
    }
    &&& c.default.temperature == match b.temperature {
        Some(t) => t,
        None => 0,
    }
    &&& c.default.max_tokens == match b.max_tokens {
        Some(n) => n,
        None => 4096,
    }
    &&& c.default.timeout_secs == match b.timeout_secs {
        Some(s) => s,
        None => 60,
    }
    &&& c.default.max_retries == 3
    &&& c.default.retry_delay_ms == 1000
    &&& c.providers@.len() == 1
    &&& c.providers@[0].0@ == "openai"@
    &&& is_built_in_openai(c.providers@[0].1)
    &&& c.fallback is None
    &&& c.logging.is_default()
}

/// The configuration a builder starts from when given none: OpenAI with
/// `gpt-4o`, temperature 0, 4096 tokens, 60 s, 3 retries from 1000 ms.
pub fn built_in_config() -> (r: Config)
    ensures
        r.wf(),
        is_built_in_config(r, UniLlmClientBuilder {
            config: None,
            provider: None,
            model: None,
            temperature: None,
            max_tokens: None,
            timeout_secs: None,
        }),
{
    let mut models: Vec<String> = Vec::new();
    models.push(owned("gpt-4o"));
    models.push(owned("gpt-4o-mini"));
    models.push(owned("gpt-4-turbo"));
    let openai = ProviderConfig {
        api_key_env: Some(owned("OPENAI_API_KEY")),
        api_secret_env: None,
        base_url: owned("https://api.openai.com/v1"),
        models,
    };
    let mut providers: Vec<(String, ProviderConfig)> = Vec::new();
    providers.push((owned("openai"), openai));
    Config {
        default: DefaultConfig {
            provider: owned("openai"),
            model: owned("gpt-4o"),
            temperature: 0,
            max_tokens: 4096,
            timeout_secs: 60,
            max_retries: 3,
            retry_delay_ms: 1000,
        },
        providers,
        fallback: None,
        logging: LoggingConfig::default(),
    }
}

// ---------------------------------------------------------------------------
// Retries against one provider
// ---------------------------------------------------------------------------

/// A random `u64` (rand's `random`). Nothing is known of its value.
#[verifier::external_body]
fn random_u64() -> (r: u64) {
    rand::random::<u64>()
}

/// 2 to the power `k`.
pub open spec fn exp2(k: nat) -> nat
    decreases k,
{
    if k == 0 {
        1
    } else {
        2 * exp2((k - 1) as nat)
    }
}

pub proof fn lemma_exp2_grows(i: nat, j: nat)
    requires
        i <= j,
    ensures
        exp2(i) <= exp2(j),
    decreases j - i,
{
    if i < j {
        lemma_exp2_grows(i, (j - 1) as nat);
    }
}

/// The longest wait between attempts, in milliseconds.
pub open spec fn max_delay_ms() -> u64 {
    60_000
}

/// The wait before attempt number `attempt` (counting the first as 0):
/// `retry_delay_ms * 2^(attempt - 1)` plus a jitter, at most 60 s. `None`
/// where that arithmetic overflows a `u64`.
pub open spec fn backoff_ms(attempt: nat, retry_delay_ms: u64, jitter: u64) -> Option<u64> {
    let p = exp2((attempt - 1) as nat);
    if p > u64::MAX || retry_delay_ms * p + jitter > u64::MAX {
        None
    } else if retry_delay_ms * p + jitter < 60_000 {
        Some((retry_delay_ms * p + jitter) as u64)
    } else {
        Some(60_000)
    }
}

/// The wait before attempt number `attempt`, with a jitter of
/// `random % 500` milliseconds.
pub fn retry_delay(attempt: u64, retry_delay_ms: u64, random: u64) -> (r: Option<u64>)
    requires
        attempt >= 1,
    ensures
        r == backoff_ms(attempt as nat, retry_delay_ms, random % 500),
{
    let k = attempt - 1;
    let mut p: u64 = 1;
    let mut i: u64 = 0;
    while i < k
        invariant
            i <= k,
            k == attempt - 1,
            p == exp2(i as nat),
        decreases k - i,
    {
        match p.checked_mul(2) {
            Some(q) => {
                p = q;
                i = i + 1;
            },
            None => {
                proof {
                    lemma_exp2_grows((i + 1) as nat, k as nat);
                }
                assert(exp2(k as nat) > u64::MAX);
                return None;
            },
        }
    }
    let jitter = random % 500;
    match retry_delay_ms.checked_mul(p) {
        None => {
            assert(retry_delay_ms * exp2(k as nat) + jitter > u64::MAX) by (nonlinear_arith)
                requires
                    retry_delay_ms * p > u64::MAX,
                    p == exp2(k as nat),
                    jitter >= 0,
            ;
            None
        },
        Some(d) => match d.checked_add(jitter) {
            None => None,
            Some(total) => if total < 60_000 {
                Some(total)
            } else {
                Some(60_000)
            },
        },
    }
}

/// What to do next against one provider.
#[derive(Debug)]
pub enum RetryStep {
    /// Wait `delay_ms` milliseconds, then call the provider.
    Call { delay_ms: u64 },
    /// Stop with this result.
    Finish(Result<ChatResponse, LlmError>),
    /// The wait before the next attempt overflows a `u64`: the transport
    /// stops as on an arithmetic overflow.
    DelayOverflow,
}

/// The retries against one provider: the first attempt and up to
/// `max_retries` more, while the errors are retriable.
#[derive(Debug)]
pub struct RetryState {
    /// Attempts started so far.
    pub attempts: u64,
    pub max_retries: u32,
    pub retry_delay_ms: u64,
}

impl RetryState {
    /// Attempts started never exceed the first one plus `max_retries`.
    pub open spec fn inv(self) -> bool {
        self.attempts <= self.max_retries + 1
    }

    /// No attempt made yet.
    pub fn new(max_retries: u32, retry_delay_ms: u64) -> (r: Self)
        ensures
            r.attempts == 0,
            r.max_retries == max_retries,
            r.retry_delay_ms == retry_delay_ms,
            r.inv(),
    {
        RetryState { attempts: 0, max_retries, retry_delay_ms }
    }

    /// The first attempt: call at once.
    pub fn start(&mut self) -> (r: RetryStep)
        requires
            old(self).attempts == 0,
        ensures
            r == (RetryStep::Call { delay_ms: 0 }),
            final(self).attempts == 1,
            final(self).max_retries == old(self).max_retries,
            final(self).retry_delay_ms == old(self).retry_delay_ms,
            final(self).inv(),
    {
        self.attempts = 1;
        RetryStep::Call { delay_ms: 0 }
    }

    /// Whether the attempt just made may be followed by another.
    pub open spec fn may_retry(self) -> bool {
        self.attempts <= self.max_retries
    }

    /// The step after an attempt ended with `outcome`, with `random` for
    /// the jitter: a success or a non-retriable error ends the retries;
    /// so does a retriable error after the last attempt; else the next
    /// attempt comes after the backoff.
    pub open spec fn is_next(self, next: Self, outcome: Result<ChatResponse, LlmError>, random: u64, r: RetryStep) -> bool {
        &&& next.max_retries == self.max_retries
        &&& next.retry_delay_ms == self.retry_delay_ms
        &&& match outcome {
            Ok(resp) => r == RetryStep::Finish(Ok(resp)) && next.attempts == self.attempts,
            Err(e) => if !e.retriable() || !self.may_retry() {
                r == RetryStep::Finish(Err(e)) && next.attempts == self.attempts
            } else {
                match backoff_ms(self.attempts as nat, self.retry_delay_ms, random % 500) {
                    Some(d) => r == (RetryStep::Call { delay_ms: d }) && next.attempts == self.attempts + 1,
                    None => r == RetryStep::DelayOverflow && next.attempts == self.attempts,
                }
            },
        }
    }

    /// The step after an attempt ended with `outcome`, given `random`.
    pub fn next_with(&mut self, outcome: Result<ChatResponse, LlmError>, random: u64) -> (r: RetryStep)
        requires
            old(self).inv(),
            old(self).attempts >= 1,
        ensures
            old(self).is_next(*final(self), outcome, random, r),
            final(self).inv(),
    {
        match outcome {
            Ok(resp) => RetryStep::Finish(Ok(resp)),
            Err(e) => {
                if !e.is_retriable() || self.attempts > self.max_retries as u64 {
                    return RetryStep::Finish(Err(e));
                }
                match retry_delay(self.attempts, self.retry_delay_ms, random) {
                    Some(d) => {
                        self.attempts = self.attempts + 1;
                        RetryStep::Call { delay_ms: d }
                    },
                    None => RetryStep::DelayOverflow,
                }
            },
        }
    }

    /// The step after an attempt ended with `outcome`; the jitter is drawn
    /// at random.
    pub fn next(&mut self, outcome: Result<ChatResponse, LlmError>) -> (r: RetryStep)
        requires
            old(self).inv(),
            old(self).attempts >= 1,
        ensures
            exists|random: u64| old(self).is_next(*final(self), outcome, random, r),
            final(self).inv(),
    {
        let random = random_u64();
        self.next_with(outcome, random)
    }
}

/// A rate limit, server error, connection failure or timeout, while
/// retries remain (at most `max_retries` attempts made), leads to another
/// call: after `retry_delay_ms * 2^(attempts - 1)` plus the jitter
/// `random % 500` milliseconds, at most 60 000, where that does not
/// overflow; the attempt count goes up by one.
pub proof fn lemma_retriable_error_is_retried(
    s: RetryState,
    next: RetryState,
    e: LlmError,
    random: u64,
    r: RetryStep,
)
    requires
        s.is_next(next, Err(e), random, r),
        e is RateLimited || e is ServerError || e is ConnectionFailed || e is Timeout,
        1 <= s.attempts <= s.max_retries,
        exp2((s.attempts - 1) as nat) <= u64::MAX,
        s.retry_delay_ms * exp2((s.attempts - 1) as nat) + random % 500 <= u64::MAX,
    ensures
        ({
            let total = s.retry_delay_ms * exp2((s.attempts - 1) as nat) + random % 500;
            r == (RetryStep::Call { delay_ms: if total < 60_000 { total as u64 } else { 60_000 } })
        }),
        next.attempts == s.attempts + 1,
{
}

/// Any other error, and any error once `max_retries` retries are spent,
/// ends the retries with that error; so does a success with itself.
pub proof fn lemma_other_outcomes_finish(
    s: RetryState,
    next: RetryState,
    outcome: Result<ChatResponse, LlmError>,
    random: u64,
    r: RetryStep,
)
    requires
        s.is_next(next, outcome, random, r),
    ensures
        outcome is Ok ==> r == RetryStep::Finish(outcome),
        (outcome matches Err(e) ==> (!(e is RateLimited || e is ServerError || e is ConnectionFailed || e is Timeout)
            || s.attempts > s.max_retries) ==> r == RetryStep::Finish(outcome)),
        next.attempts == s.attempts || next.attempts == s.attempts + 1,
{
}

/// The wait before a retry is never more than 60 seconds.
pub proof fn lemma_backoff_bounded(attempt: nat, retry_delay_ms: u64, jitter: u64)
    ensures
        backoff_ms(attempt, retry_delay_ms, jitter) matches Some(d) ==> d <= max_delay_ms(),
{
}

/// Below the cap, each wait is at least the base delay doubled once per
/// earlier retry.
pub proof fn lemma_backoff_doubles(attempt: nat, retry_delay_ms: u64, jitter: u64)
    requires
        attempt >= 1,
    ensures
        backoff_ms(attempt, retry_delay_ms, jitter) matches Some(d) ==> d == max_delay_ms() || d >= retry_delay_ms
            * exp2((attempt - 1) as nat),
{
}

// ---------------------------------------------------------------------------
// The fallback chain
// ---------------------------------------------------------------------------

/// What to do next in the fallback chain.
#[derive(Debug)]
pub enum FallbackStep {
    /// Run the retries against `provider`; with `model`, the client and the
    /// request both switch to that model.
    Try { provider: String, model: Option<String> },
    /// Stop with this result.
    Finish(Result<ChatResponse, LlmError>),
}

/// The providers tried one after another: the chosen one, then, where a
/// fallback chain is configured, each of its entries in order.
#[derive(Debug)]
pub struct FallbackState {
    /// The provider chosen by the client.
    pub primary: String,
    /// Provider and model of each chain entry; `None` without a fallback section.
    pub chain: Option<Vec<(String, String)>>,
    /// How many chain entries have been started.
    pub fallbacks_started: usize,
    /// Each failed provider's name and error, in the order tried.
    pub errors: Vec<(String, Box<LlmError>)>,
    /// Whether the chain has come to its end.
    pub done: bool,
}

/// The name of the `i`-th provider tried: the primary, then the chain's.
pub open spec fn tried_name(primary: Seq<char>, chain: Seq<(String, String)>, i: int) -> Seq<char> {
    if i == 0 {
        primary
    } else {
        chain[i - 1].0@
    }
}

/// `now` is `before` with the failure of `name` with error `e` added at the end.
pub open spec fn records(
    now: Seq<(String, Box<LlmError>)>,
    before: Seq<(String, Box<LlmError>)>,
    name: Seq<char>,
    e: LlmError,
) -> bool {
    &&& now.len() == before.len() + 1
    &&& now.take(before.len() as int) == before
    &&& now.last().0@ == name
    &&& *now.last().1 == e
}

impl FallbackState {
    pub open spec fn chain_len(self) -> nat {
        match self.chain {
            Some(c) => c@.len(),
            None => 0,
        }
    }

    /// While a provider is being tried, the errors gathered belong to the
    /// providers tried before it, in order.
    pub open spec fn inv(self) -> bool {
        !self.done ==> {
            &&& self.fallbacks_started <= self.chain_len()
            &&& self.chain is None ==> self.errors@.len() == 0
            &&& self.chain is Some ==> self.errors@.len() == self.fallbacks_started
            &&& forall|i: int|
                0 <= i < self.errors@.len() ==> #[trigger] self.errors@[i].0@ == tried_name(
                    self.primary@,
                    self.chain->0@,
                    i,
                )
        }
    }

    pub open spec fn chain_view(c: Option<Vec<(String, String)>>) -> Option<Seq<(Seq<char>, Seq<char>)>> {
        match c {
            Some(v) => Some(v@.map_values(|e: (String, String)| (e.0@, e.1@))),
            None => None,
        }
    }

    /// Starts with the client's provider.
    pub fn start(client: &UniLlmClient) -> (r: (Self, FallbackStep))
        ensures
            r.0.primary@ == client.chosen_provider(),
            Self::chain_view(r.0.chain) == match client.config.fallback {
                Some(f) => Some(f.chain@.map_values(|e: FallbackEntry| (e.provider@, e.model@))),
                None => None,
            },
            r.0.fallbacks_started == 0,
            r.0.errors@.len() == 0,
            !r.0.done,
            r.0.inv(),
            r.1 matches FallbackStep::Try { provider, model } && provider@ == client.chosen_provider() && model is None,
    {
        let chain = match &client.config.fallback {
            Some(f) => {
                let mut c: Vec<(String, String)> = Vec::new();
                let mut i: usize = 0;
                while i < f.chain.len()
                    invariant
                        i <= f.chain@.len(),
                        c@.map_values(|e: (String, String)| (e.0@, e.1@)) == f.chain@.take(i as int).map_values(
                            |e: FallbackEntry| (e.provider@, e.model@),
                        ),
                    decreases f.chain.len() - i,
                {
                    let ghost before = c@;
                    let item = (f.chain[i].provider.clone(), f.chain[i].model.clone());
                    let ghost it = item;
                    c.push(item);
                    assert(f.chain@.take(i + 1) =~= f.chain@.take(i as int).push(f.chain@[i as int]));
                    assert(c@ == before.push(it));
                    assert(c@.map_values(|e: (String, String)| (e.0@, e.1@)) =~= before.map_values(
                        |e: (String, String)| (e.0@, e.1@),
                    ).push((f.chain@[i as int].provider@, f.chain@[i as int].model@)));
                    i = i + 1;
                }
                assert(f.chain@.take(f.chain@.len() as int) =~= f.chain@);
                Some(c)
            },
            None => None,
        };
        let primary = owned(client.provider_name());
        let state = FallbackState { primary, chain, fallbacks_started: 0, errors: Vec::new(), done: false };
        let step = FallbackStep::Try { provider: owned(client.provider_name()), model: None };
        (state, step)
    }

    /// The step after the current provider ended with `outcome`: a success
    /// ends the chain; without a fallback section, so does the error; else
    /// the error, whatever its cause (the provider could not be created, or
    /// its calls failed), is kept and the next entry is tried, or, after the
    /// last, all the errors are returned together.
    pub fn next(&mut self, outcome: Result<ChatResponse, LlmError>) -> (r: FallbackStep)
        requires
            old(self).inv(),
            !old(self).done,
        ensures
            final(self).inv(),
            final(self).primary == old(self).primary,
            final(self).chain == old(self).chain,
            final(self).done <==> r is Finish,
            match outcome {
                Ok(resp) => r == FallbackStep::Finish(Ok(resp)),
                Err(e) => match old(self).chain {
                    None => r == FallbackStep::Finish(Err(e)),
                    Some(c) => {
                        let k = old(self).fallbacks_started;
                        let name = tried_name(old(self).primary@, c@, k as int);
                        if k < c@.len() {
                            &&& r matches FallbackStep::Try { provider, model } && model matches Some(m)
                                && provider@ == c@[k as int].0@ && m@ == c@[k as int].1@
                            &&& final(self).fallbacks_started == k + 1
                            &&& records(final(self).errors@, old(self).errors@, name, e)
                        } else {
                            &&& r matches FallbackStep::Finish(Err(LlmError::AllProvidersFailed(all)))
                                && records(all@, old(self).errors@, name, e)
                            &&& r matches FallbackStep::Finish(Err(LlmError::AllProvidersFailed(all)))
                                && all@.len() == c@.len() + 1 && forall|i: int| 0 <= i < all@.len()
                                ==> #[trigger] all@[i].0@ == tried_name(old(self).primary@, c@, i)
                        }
                    },
                },
            },
    {
        let e = match outcome {
            Ok(resp) => {
                self.done = true;
                return FallbackStep::Finish(Ok(resp));
            },
            Err(e) => e,
        };
        match &self.chain {
            None => {
                self.done = true;
                FallbackStep::Finish(Err(e))
            },
            Some(c) => {
                let k = self.fallbacks_started;
                let name = if k == 0 {
                    self.primary.clone()
                } else {
                    c[k - 1].0.clone()
                };
                let ghost before = self.errors@;
                self.errors.push((name, Box::new(e)));
                assert(self.errors@.take(before.len() as int) =~= before);
                if k < c.len() {
                    let provider = c[k].0.clone();
                    let model = c[k].1.clone();
                    self.fallbacks_started = k + 1;
                    assert forall|i: int| 0 <= i < self.errors@.len() implies #[trigger] self.errors@[i].0@
                        == tried_name(self.primary@, self.chain->0@, i) by {
                        if i < before.len() {
                            assert(self.errors@[i] == before[i]);
                        }
                    }
                    FallbackStep::Try { provider, model: Some(model) }
                } else {
                    assert forall|i: int| 0 <= i < self.errors@.len() implies #[trigger] self.errors@[i].0@
                        == tried_name(self.primary@, c@, i) by {
                        if i < before.len() {
                            assert(self.errors@[i] == before[i]);
                        }
                    }
                    let mut all: Vec<(String, Box<LlmError>)> = Vec::new();
                    std::mem::swap(&mut all, &mut self.errors);
                    self.done = true;
                    FallbackStep::Finish(Err(LlmError::AllProvidersFailed(all)))
                }
            },
        }
    }
}

/// Every provider tried is recorded once, in order, before the next one is
/// started: while entry `k` of the chain is tried, the errors name the
/// primary and the entries before `k`.
pub proof fn lemma_fallback_order(s: FallbackState)
    requires
        s.inv(),
        !s.done,
        s.chain is Some,
    ensures
        s.errors@.len() == s.fallbacks_started,
        s.fallbacks_started <= s.chain_len(),
        forall|i: int|
            0 <= i < s.errors@.len() ==> (#[trigger] s.errors@[i]).0@ == tried_name(s.primary@, s.chain->0@, i),
{
}

} // verus!
