//! Baidu Wenxin (Qianfan) API.

use vstd::prelude::*;
use crate::config::ProviderConfig;
use crate::error::LlmError;
use crate::json::{
    Json, JsonValue, array, object, json_decode, json_str, models, new_items, new_members, opt_view,
    parse_json, path_array, path_at, path_get, path_str, path_u64, push_item, push_member, get_element,
    get_member, read_str, read_u64,
};
use crate::text::{join2, owned};
use crate::types::{ChatRequest, ChatResponse, Message, Role};
use super::{
    HttpRequest, header_views, no_headers, is_success, status_is_success, status_error, is_status_error,
    trim_end_slashes, trim_trailing_slashes, counted_usage, read_counted_usage, str_or, is_parse_failure,
    max_tokens_or_default,
};

verus! {

broadcast use {crate::json::lemma_array_model, crate::json::lemma_object_model};

/// Baidu Wenxin. Needs an API key and secret, exchanged for an access token.
#[derive(Debug)]
pub struct WenxinProvider {
    pub name: String,
    pub base_url: String,
    pub api_key: String,
    pub api_secret: String,
}

/// The access token last obtained, and until when it may be used
/// (milliseconds on a monotonic clock chosen by the caller).
#[derive(Debug)]
pub struct TokenCache {
    pub token: Option<String>,
    pub expires_at_ms: Option<u64>,
}

/// Lifetime of a token when the answer gives none: 30 days, in seconds.
pub open spec fn default_token_lifetime() -> u64 {
    2592000
}

/// How long a token is used: its lifetime less a 300-second margin, not below zero.
pub open spec fn usable_secs(expires_in: u64) -> u64 {
    if expires_in >= 300 {
        (expires_in - 300) as u64
    } else {
        0
    }
}

impl TokenCache {
    /// A cache holding nothing.
    pub fn new() -> (r: Self)
        ensures
            r.token is None,
            r.expires_at_ms is None,
    {
        TokenCache { token: None, expires_at_ms: None }
    }

    /// Whether the cache holds a token still usable at `now_ms`.
    pub open spec fn fresh_at(self, now_ms: u64) -> bool {
        &&& self.token is Some
        &&& self.expires_at_ms matches Some(exp) && exp > now_ms
    }

    /// The cached token, where it is still usable at `now_ms`.
    pub fn cached_token(&self, now_ms: u64) -> (r: Option<String>)
        ensures
            self.fresh_at(now_ms) ==> r == self.token,
            !self.fresh_at(now_ms) ==> r is None,
    {
        match (&self.token, self.expires_at_ms) {
            (Some(t), Some(exp)) => if exp > now_ms {
                Some(t.clone())
            } else {
                None
            },
            _ => None,
        }
    }

    /// Keeps a token obtained at `now_ms` that lives `expires_in` seconds.
    pub fn store(&mut self, token: String, now_ms: u64, expires_in: u64)
        requires
            now_ms + usable_secs(expires_in) * 1000 <= u64::MAX,
        ensures
            final(self).token == Some(token),
            final(self).expires_at_ms == Some((now_ms + usable_secs(expires_in) * 1000) as u64),
    {
        let usable = expires_in.saturating_sub(300);
        self.token = Some(token);
        self.expires_at_ms = Some(now_ms + usable * 1000);
    }
}

/// What a read gives back of a write: a token stored at `now_ms` to live
/// `expires_in` seconds is served at every time before
/// `now_ms + (expires_in - 300) * 1000` (the margin taken off, not below
/// zero) and at no time from then on.
pub proof fn lemma_token_served_until_expiry(c: TokenCache, token: String, now_ms: u64, expires_in: u64, t: u64)
    requires
        now_ms + usable_secs(expires_in) * 1000 <= u64::MAX,
        c.token == Some(token),
        c.expires_at_ms == Some((now_ms + usable_secs(expires_in) * 1000) as u64),
    ensures
        c.fresh_at(t) <==> t < now_ms + usable_secs(expires_in) * 1000,
{
}

// ---------------------------------------------------------------------------
// The request
// ---------------------------------------------------------------------------

/// The role a message is sent under: tool results go as the user.
pub open spec fn wenxin_role(r: Role) -> Seq<char> {
    if r == Role::Assistant {
        "assistant"@
    } else {
        "user"@
    }
}

/// The messages sent: all but system messages, in order.
pub open spec fn wenxin_messages(ms: Seq<Message>) -> Seq<Json>
    decreases ms.len(),
{
    if ms.len() == 0 {
        Seq::empty()
    } else if ms.last().role == Role::System {
        wenxin_messages(ms.drop_last())
    } else {
        wenxin_messages(ms.drop_last()).push(
            Json::Object(
                Seq::empty().push(("role"@, Json::Str(wenxin_role(ms.last().role)))).push(
                    ("content"@, Json::Str(ms.last().content@)),
                ),
            ),
        )
    }
}

/// The system prompt: the content of the first system message, else empty.
pub open spec fn first_system(ms: Seq<Message>) -> Seq<char>
    decreases ms.len(),
{
    if ms.len() == 0 {
        Seq::empty()
    } else if ms[0].role == Role::System {
        ms[0].content@
    } else {
        first_system(ms.drop_first())
    }
}

/// The body of a chat request; `system` only where the system prompt is not empty.
pub open spec fn request_body(req: ChatRequest) -> Json {
    let ms = req.messages@;
    let members = Seq::empty().push(("messages"@, Json::Array(wenxin_messages(ms)))).push(
        ("stream"@, Json::Bool(false)),
    ).push(("temperature"@, Json::F32(match req.temperature {
        Some(t) => t,
        None => 0,
    }))).push(("max_output_tokens"@, Json::UInt(max_tokens_or_default(req.max_tokens) as u64)));
    if first_system(ms).len() == 0 {
        Json::Object(members)
    } else {
        Json::Object(members.push(("system"@, Json::Str(first_system(ms)))))
    }
}

fn message_value(m: &Message) -> (r: JsonValue)
    requires
        m.role != Role::System,
    ensures
        r.model() == Json::Object(
            Seq::empty().push(("role"@, Json::Str(wenxin_role(m.role)))).push(("content"@, Json::Str(m.content@))),
        ),
{
    let role = if m.role == Role::Assistant {
        "assistant"
    } else {
        "user"
    };
    let mut o = new_members();
    push_member(&mut o, "role", json_str(role));
    push_member(&mut o, "content", JsonValue::Str(m.content.clone()));
    object(o)
}

/// The messages sent for a conversation.
pub fn messages_value(ms: &Vec<Message>) -> (r: Vec<JsonValue>)
    ensures
        models(r@) == wenxin_messages(ms@),
{
    let mut out = new_items();
    let mut i: usize = 0;
    assert(ms@.take(0) =~= Seq::<Message>::empty());
    while i < ms.len()
        invariant
            i <= ms@.len(),
            models(out@) == wenxin_messages(ms@.take(i as int)),
        decreases ms.len() - i,
    {
        assert(ms@.take(i + 1).drop_last() =~= ms@.take(i as int));
        assert(ms@.take(i + 1).last() == ms@[i as int]);
        if ms[i].role != Role::System {
            push_item(&mut out, message_value(&ms[i]));
        }
        i = i + 1;
    }
    assert(ms@.take(ms@.len() as int) =~= ms@);
    out
}

/// The system prompt of a conversation.
pub fn first_system_value(ms: &Vec<Message>) -> (r: String)
    ensures
        r@ == first_system(ms@),
{
    let mut i: usize = 0;
    assert(ms@.skip(0) =~= ms@);
    while i < ms.len()
        invariant
            i <= ms@.len(),
            first_system(ms@) == first_system(ms@.skip(i as int)),
        decreases ms.len() - i,
    {
        assert(ms@.skip(i as int)[0] == ms@[i as int]);
        if ms[i].role == Role::System {
            return ms[i].content.clone();
        }
        assert(ms@.skip(i as int).drop_first() =~= ms@.skip(i + 1));
        i = i + 1;
    }
    String::new()
}

/// The body of a chat request.
pub fn request_body_value(request: &ChatRequest) -> (r: JsonValue)
    ensures
        r.model() == request_body(*request),
{
    let messages = messages_value(&request.messages);
    let system = first_system_value(&request.messages);
    let temperature: u32 = match request.temperature {
        Some(t) => t,
        None => 0,
    };
    let max_tokens: u32 = match request.max_tokens {
        Some(n) => n,
        None => 4096,
    };
    let mut o = new_members();
    push_member(&mut o, "messages", array(messages));
    push_member(&mut o, "stream", JsonValue::Bool(false));
    push_member(&mut o, "temperature", JsonValue::F32(temperature));
    push_member(&mut o, "max_output_tokens", JsonValue::UInt(max_tokens as u64));
    if !system.as_str().is_empty() {
        push_member(&mut o, "system", JsonValue::Str(system));
    }
    object(o)
}

// ---------------------------------------------------------------------------
// The answers
// ---------------------------------------------------------------------------

/// The reply text: `result` as a string, or the first element of `result`
/// where that is a string, else empty.
pub open spec fn reply_text(v: Option<Seq<char>>) -> Seq<char> {
    let r = path_get(v, "result"@);
    match path_str(r) {
        Some(s) => s,
        None => match path_array(r) {
            Some(a) => if a.len() > 0 {
                str_or(path_str(Some(a[0])), Seq::empty())
            } else {
                Seq::empty()
            },
            None => Seq::empty(),
        },
    }
}

fn reply_text_value(v: &Option<String>) -> (r: String)
    ensures
        r@ == reply_text(opt_view(*v)),
{
    let result = get_member(v, "result");
    match read_str(&result) {
        Some(s) => s,
        None => match crate::json::read_array(&result) {
            Some(a) => if a.len() > 0 {
                match read_str(&Some(a[0].clone())) {
                    Some(s) => s,
                    None => String::new(),
                }
            } else {
                String::new()
            },
            None => String::new(),
        },
    }
}

/// `resp` is what the decoded body `v` says.
pub open spec fn is_reply(
    resp: ChatResponse,
    v: Option<Seq<char>>,
    provider: Seq<char>,
    model: Seq<char>,
    latency_ms: u64,
) -> bool {
    &&& resp.content@ == reply_text(v)
    &&& resp.tool_calls is None
    &&& resp.usage == counted_usage(path_get(v, "usage"@))
    &&& resp.model@ == model
    &&& resp.provider@ == provider
    &&& resp.latency_ms == latency_ms
}

/// The content of a reply: the `result` member where it is a string; else
/// the first element of a `result` array where that is a string; else empty.
pub proof fn lemma_wenxin_reply_content(
    resp: ChatResponse,
    body: Seq<char>,
    provider: Seq<char>,
    model: Seq<char>,
    latency_ms: u64,
)
    requires
        is_reply(resp, Some(body), provider, model, latency_ms),
    ensures
        ({
            let result = path_get(Some(body), "result"@);
            let first = match path_array(result) {
                Some(a) => if a.len() > 0 {
                    path_str(Some(a[0]))
                } else {
                    None
                },
                None => None,
            };
            &&& path_str(result) matches Some(s) ==> resp.content@ == s
            &&& path_str(result) is None ==> (first matches Some(s) ==> resp.content@ == s)
            &&& path_str(result) is None ==> (first is None ==> resp.content@ == Seq::<char>::empty())
        }),
        resp.model@ == model,
        resp.tool_calls is None,
{
}

/// The outcome of asking for an access token with answer `body`: the token
/// and its lifetime in seconds.
pub open spec fn is_token_outcome(r: Result<(String, u64), LlmError>, provider: Seq<char>, body: Seq<char>) -> bool {
    match json_decode(body) {
        Err(e) => r matches Err(err) && is_parse_failure(err, body, e),
        Ok(d) => match path_str(path_get(Some(body), "access_token"@)) {
            Some(t) => r matches Ok((tok, secs)) && tok@ == t && secs == match path_u64(
                path_get(Some(body), "expires_in"@),
            ) {
                Some(n) => n,
                None => default_token_lifetime(),
            },
            None => r matches Err(LlmError::AuthenticationFailed { provider: p, message: m })
                && p@ == provider && m@ == d.text,
        },
    }
}

/// What `new` gives: a missing-key error, a missing-secret error, or the provider.
pub open spec fn is_new_outcome(
    r: Result<WenxinProvider, LlmError>,
    config: ProviderConfig,
    key: Option<String>,
    secret: Option<String>,
) -> bool {
    if key is None {
        r matches Err(LlmError::ApiKeyMissing { provider, env_var }) && provider@ == "wenxin"@ && env_var@ == str_or(
            opt_view(config.api_key_env),
            "WENXIN_API_KEY"@,
        )
    } else if secret is None {
        r matches Err(LlmError::ApiKeyMissing { provider, env_var }) && provider@ == "wenxin"@ && env_var@ == str_or(
            opt_view(config.api_secret_env),
            "WENXIN_API_SECRET"@,
        )
    } else {
        r matches Ok(p) && p.name@ == "wenxin"@ && p.base_url@ == trim_end_slashes(config.base_url@) && Some(p.api_key)
            == key && Some(p.api_secret) == secret
    }
}

impl WenxinProvider {
    /// A provider from its configuration and the key and secret read from
    /// the environment variables that the configuration names.
    pub fn new(config: &ProviderConfig, api_key_from_env: Option<String>, api_secret_from_env: Option<String>) -> (r:
        Result<Self, LlmError>)
        ensures
            is_new_outcome(r, *config, api_key_from_env, api_secret_from_env),
    {
        let api_key = match api_key_from_env {
            Some(k) => k,
            None => {
                let env_var = match &config.api_key_env {
                    Some(v) => v.clone(),
                    None => owned("WENXIN_API_KEY"),
                };
                return Err(LlmError::ApiKeyMissing { provider: owned("wenxin"), env_var });
            },
        };
        let api_secret = match api_secret_from_env {
            Some(s) => s,
            None => {
                let env_var = match &config.api_secret_env {
                    Some(v) => v.clone(),
                    None => owned("WENXIN_API_SECRET"),
                };
                return Err(LlmError::ApiKeyMissing { provider: owned("wenxin"), env_var });
            },
        };
        Ok(WenxinProvider {
            name: owned("wenxin"),
            base_url: trim_trailing_slashes(config.base_url.as_str()),
            api_key,
            api_secret,
        })
    }

    /// Wenxin takes no tool definitions.
    pub fn supports_tool_calling(&self) -> (r: bool)
        ensures
            !r,
    {
        false
    }

    /// Wenxin has no JSON mode.
    pub fn supports_json_mode(&self) -> (r: bool)
        ensures
            !r,
    {
        false
    }

    /// The request that exchanges key and secret for an access token.
    pub fn token_request(&self) -> (r: HttpRequest)
        ensures
            !r.post,
            r.url@ == "https://aip.baidubce.com/oauth/2.0/token?grant_type=client_credentials&client_id="@
                + self.api_key@ + "&client_secret="@ + self.api_secret@,
            header_views(r.headers@) == Seq::<(Seq<char>, Seq<char>)>::empty(),
            r.bearer_token is None,
            r.body is None,
    {
        let url = join2(
            join2(
                join2(
                    "https://aip.baidubce.com/oauth/2.0/token?grant_type=client_credentials&client_id=",
                    self.api_key.as_str(),
                ).as_str(),
                "&client_secret=",
            ).as_str(),
            self.api_secret.as_str(),
        );
        HttpRequest { post: false, url, headers: no_headers(), bearer_token: None, body: None }
    }

    /// Reads the answer to a token request: the token and its lifetime in seconds.
    pub fn token_from_response(&self, body: String) -> (r: Result<(String, u64), LlmError>)
        ensures
            is_token_outcome(r, self.name@, body@),
    {
        match parse_json(body.as_str()) {
            Err(e) => Err(LlmError::ResponseParseFailed { raw: body, source: e }),
            Ok(doc) => {
                let v = Some(body);
                match read_str(&get_member(&v, "access_token")) {
                    Some(t) => {
                        let secs = match read_u64(&get_member(&v, "expires_in")) {
                            Some(n) => n,
                            None => 2592000,
                        };
                        Ok((t, secs))
                    },
                    None => Err(LlmError::AuthenticationFailed { provider: self.name.clone(), message: doc.text }),
                }
            },
        }
    }

    /// The HTTP request for a chat call with `model` and access token `token`.
    pub fn chat_request(&self, request: &ChatRequest, model: &str, token: &str) -> (r: HttpRequest)
        ensures
            r.post,
            r.url@ == self.base_url@ + "/chat/"@ + model@ + "?access_token="@ + token@,
            header_views(r.headers@) == Seq::<(Seq<char>, Seq<char>)>::empty(),
            r.bearer_token is None,
            r.body matches Some(b) && b.model() == request_body(*request),
    {
        let url = join2(
            join2(join2(join2(self.base_url.as_str(), "/chat/").as_str(), model).as_str(), "?access_token=").as_str(),
            token,
        );
        HttpRequest {
            post: true,
            url,
            headers: no_headers(),
            bearer_token: None,
            body: Some(request_body_value(request)),
        }
    }

    /// Reads a successful answer's body.
    pub fn parse_response(&self, body: &String, model: &str, latency_ms: u64) -> (r: Result<ChatResponse, LlmError>)
        ensures
            match json_decode(body@) {
                Err(e) => r matches Err(err) && is_parse_failure(err, body@, e),
                Ok(_) => r matches Ok(resp) && is_reply(resp, Some(body@), self.name@, model@, latency_ms),
            },
    {
        match parse_json(body.as_str()) {
            Err(e) => Err(LlmError::ResponseParseFailed { raw: body.clone(), source: e }),
            Ok(_) => {
                let v = Some(body.clone());
                let content = reply_text_value(&v);
                let usage = read_counted_usage(&get_member(&v, "usage"));
                Ok(ChatResponse {
                    content,
                    tool_calls: None,
                    usage,
                    model: owned(model),
                    provider: self.name.clone(),
                    latency_ms,
                })
            },
        }
    }

    /// Reads an answer: its HTTP status and body.
    pub fn handle_response(&self, status: u16, body: String, model: &str, latency_ms: u64) -> (r: Result<
        ChatResponse,
        LlmError,
    >)
        ensures
            !is_success(status) ==> (r matches Err(e) && is_status_error(e, self.name@, status, body@, None)),
            is_success(status) ==> match json_decode(body@) {
                Err(e) => r matches Err(err) && is_parse_failure(err, body@, e),
                Ok(_) => r matches Ok(resp) && is_reply(resp, Some(body@), self.name@, model@, latency_ms),
            },
    {
        if !status_is_success(status) {
            return Err(status_error(self.name.as_str(), status, body, None));
        }
        self.parse_response(&body, model, latency_ms)
    }
}

} // verus!
