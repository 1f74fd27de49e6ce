//! Configuration: defaults, providers, fallback chain, logging.
//!
//! The TOML text is read by the transport layer into these types; the
//! defaults that a missing key takes are the `default_*` functions here.

use vstd::prelude::*;
use crate::text::{owned, str_eq};

verus! {

/// The `[default]` section.
#[derive(Debug, Clone)]
pub struct DefaultConfig {
    /// Provider used unless another is chosen.
    pub provider: String,
    /// Model used unless another is chosen.
    pub model: String,
    /// Sampling temperature, as the bit pattern of an `f32`.
    pub temperature: u32,
    pub max_tokens: u32,
    /// Request timeout in seconds.
    pub timeout_secs: u64,
    /// Retries after the first attempt.
    pub max_retries: u32,
    /// Delay before the first retry, in milliseconds.
    pub retry_delay_ms: u64,
}

/// Default provider: `"openai"`.
pub fn default_provider() -> (r: String)
    ensures
        r@ == "openai"@,
{
    owned("openai")
}

/// Default model: `"gpt-4o"`.
pub fn default_model() -> (r: String)
    ensures
        r@ == "gpt-4o"@,
{
    owned("gpt-4o")
}

/// Default temperature: 0.0, whose `f32` bit pattern is 0.
pub fn default_temperature() -> (r: u32)
    ensures
        r == 0,
{
    0
}

/// Default `max_tokens`: 4096.
pub fn default_max_tokens() -> (r: u32)
    ensures
        r == 4096,
{
    4096
}

/// Default timeout: 60 seconds.
pub fn default_timeout_secs() -> (r: u64)
    ensures
        r == 60,
{
    60
}

/// Default number of retries: 3.
pub fn default_max_retries() -> (r: u32)
    ensures
        r == 3,
{
    3
}

/// Default first retry delay: 1000 ms.
pub fn default_retry_delay_ms() -> (r: u64)
    ensures
        r == 1000,
{
    1000
}

impl DefaultConfig {
    /// The section as it reads when empty.
    pub open spec fn is_default(self) -> bool {
        &&& self.provider@ == "openai"@
        &&& self.model@ == "gpt-4o"@
        &&& self.temperature == 0
        &&& self.max_tokens == 4096
        &&& self.timeout_secs == 60
        &&& self.max_retries == 3
        &&& self.retry_delay_ms == 1000
    }
}

impl Default for DefaultConfig {
    fn default() -> (r: Self)
        ensures
            r.is_default(),
    {
        DefaultConfig {
            provider: default_provider(),
            model: default_model(),
            temperature: default_temperature(),
            max_tokens: default_max_tokens(),
            timeout_secs: default_timeout_secs(),
            max_retries: default_max_retries(),
            retry_delay_ms: default_retry_delay_ms(),
        }
    }
}

/// One step of the fallback chain.
#[derive(Debug, Clone)]
pub struct FallbackEntry {
    pub provider: String,
    pub model: String,
}

/// The `[fallback]` section: providers tried in order when the chosen one fails.
#[derive(Debug, Clone)]
pub struct FallbackConfig {
    pub chain: Vec<FallbackEntry>,
}

/// A `[providers.NAME]` section.
#[derive(Debug, Clone)]
pub struct ProviderConfig {
    /// Environment variable that holds the API key.
    pub api_key_env: Option<String>,
    /// Environment variable that holds the API secret (Wenxin needs both).
    pub api_secret_env: Option<String>,
    /// Base URL of the API.
    pub base_url: String,
    /// Models offered.
    pub models: Vec<String>,
}

/// The `[logging]` section.
#[derive(Debug, Clone)]
pub struct LoggingConfig {
    pub level: String,
    pub log_requests: bool,
    pub log_responses: bool,
    pub log_to_file: bool,
    pub log_file: String,
}

/// Default log level: `"info"`.
pub fn default_log_level() -> (r: String)
    ensures
        r@ == "info"@,
{
    owned("info")
}

/// Default for switches that are on unless turned off: `true`.
pub fn default_true() -> (r: bool)
    ensures
        r,
{
    true
}

/// Default log file: `"uni-llm.log"`.
pub fn default_log_file() -> (r: String)
    ensures
        r@ == "uni-llm.log"@,
{
    owned("uni-llm.log")
}

impl LoggingConfig {
    /// The section as it reads when empty.
    pub open spec fn is_default(self) -> bool {
        &&& self.level@ == "info"@
        &&& self.log_requests
        &&& !self.log_responses
        &&& !self.log_to_file
        &&& self.log_file@ == "uni-llm.log"@
    }
}

impl Default for LoggingConfig {
    fn default() -> (r: Self)
        ensures
            r.is_default(),
    {
        LoggingConfig {
            level: default_log_level(),
            log_requests: default_true(),
            log_responses: false,
            log_to_file: false,
            log_file: default_log_file(),
        }
    }
}

/// The whole configuration.
#[derive(Debug, Clone)]
pub struct Config {
    pub default: DefaultConfig,
    /// Each provider section, under its name; names do not repeat
    /// (see [`Config::wf`]), as they are the keys of a TOML table.
    pub providers: Vec<(String, ProviderConfig)>,
    pub fallback: Option<FallbackConfig>,
    pub logging: LoggingConfig,
}

/// The configuration of the first provider section called `name`.
pub open spec fn find_provider(ps: Seq<(String, ProviderConfig)>, name: Seq<char>) -> Option<ProviderConfig>
    decreases ps.len(),
{
    if ps.len() == 0 {
        None
    } else if ps[0].0@ == name {
        Some(ps[0].1)
    } else {
        find_provider(ps.drop_first(), name)
    }
}

/// No two provider sections share a name.
pub open spec fn names_unique(ps: Seq<(String, ProviderConfig)>) -> bool {
    forall|i: int, j: int| 0 <= i < j < ps.len() ==> #[trigger] ps[i].0@ != #[trigger] ps[j].0@
}

/// Where names do not repeat, the section found under a name is the one
/// with that name, wherever it stands: lookup is by name alone.
pub proof fn lemma_find_provider_unique(ps: Seq<(String, ProviderConfig)>, i: int)
    requires
        names_unique(ps),
        0 <= i < ps.len(),
    ensures
        find_provider(ps, ps[i].0@) == Some(ps[i].1),
    decreases i,
{
    if i > 0 {
        let rest = ps.drop_first();
        assert(ps[0].0@ != ps[i].0@);
        assert(rest[i - 1] == ps[i]);
        assert forall|x: int, y: int| 0 <= x < y < rest.len() implies #[trigger] rest[x].0@ != #[trigger] rest[y].0@ by {
            assert(rest[x] == ps[x + 1]);
            assert(rest[y] == ps[y + 1]);
        }
        lemma_find_provider_unique(rest, i - 1);
    }
}

impl Config {
    /// The provider names do not repeat.
    pub open spec fn wf(self) -> bool {
        names_unique(self.providers@)
    }

    /// The request timeout, in seconds.
    pub fn timeout(&self) -> (r: u64)
        ensures
            r == self.default.timeout_secs,
    {
        self.default.timeout_secs
    }

    /// The configuration of the provider called `name`.
    pub fn get_provider(&self, name: &str) -> (r: Option<&ProviderConfig>)
        ensures
            match r {
                Some(p) => find_provider(self.providers@, name@) == Some(*p),
                None => find_provider(self.providers@, name@) is None,
            },
    {
        let ghost ps = self.providers@;
        let mut i: usize = 0;
        assert(ps.skip(0) =~= ps);
        while i < self.providers.len()
            invariant
                i <= self.providers.len(),
                ps == self.providers@,
                find_provider(ps, name@) == find_provider(ps.skip(i as int), name@),
            decreases self.providers.len() - i,
        {
            assert(ps.skip(i as int)[0] == ps[i as int]);
            if str_eq(self.providers[i].0.as_str(), name) {
                return Some(&self.providers[i].1);
            }
            assert(ps.skip(i as int).drop_first() =~= ps.skip(i + 1));
            i = i + 1;
        }
        None
    }
}

} // verus!
