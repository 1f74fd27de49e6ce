//! Google Gemini REST API.

use vstd::prelude::*;
use crate::config::ProviderConfig;
use crate::error::LlmError;
use crate::json::{
    Json, JsonValue, json_member, member_value, array, object, json_decode, json_str, models, new_items, new_members, opt_view,
    parse_json, path_at, path_get, path_is_object, path_str, push_item, push_member, get_element, get_member,
    read_str, is_object,
};
use crate::text::{join2, owned};
use crate::types::{ChatRequest, ChatResponse, Message, Role, TokenUsage};
use super::{
    HttpRequest, header_views, no_headers, is_success, status_is_success, status_error, is_status_error,
    trim_end_slashes, trim_trailing_slashes, usage_count, read_usage_count, str_or, is_parse_failure,
    max_tokens_or_default,
};
use super::anthropic::{system_prompt, split_system};

verus! {

broadcast use {crate::json::lemma_array_model, crate::json::lemma_object_model};

/// Google Gemini.
#[derive(Debug)]
pub struct GeminiProvider {
    pub name: String,
    pub base_url: String,
    pub api_key: String,
}

/// The role a message is sent under: the assistant is the `model`; tool
/// results go as the user.
pub open spec fn gemini_role(r: Role) -> Seq<char> {
    if r == Role::Assistant {
        "model"@
    } else {
        "user"@
    }
}

/// `[{"text": text}]`: the text as one part.
pub open spec fn text_parts(text: Seq<char>) -> Json {
    Json::Array(Seq::empty().push(Json::Object(Seq::empty().push(("text"@, Json::Str(text))))))
}

pub open spec fn content_of(m: Message) -> Json {
    Json::Object(Seq::empty().push(("role"@, Json::Str(gemini_role(m.role)))).push(("parts"@, text_parts(m.content@))))
}

/// The contents sent: every message but system messages, in order.
pub open spec fn contents(ms: Seq<Message>) -> Seq<Json>
    decreases ms.len(),
{
    if ms.len() == 0 {
        Seq::empty()
    } else if ms.last().role == Role::System {
        contents(ms.drop_last())
    } else {
        contents(ms.drop_last()).push(content_of(ms.last()))
    }
}

/// The body of a `generateContent` request.
pub open spec fn request_body(req: ChatRequest) -> Json {
    let ms = req.messages@;
    let config = Seq::empty().push(("temperature"@, Json::F32(match req.temperature {
        Some(t) => t,
        None => 0,
    }))).push(("maxOutputTokens"@, Json::UInt(max_tokens_or_default(req.max_tokens) as u64)));
    let config = if req.json_mode {
        config.push(("responseMimeType"@, Json::Str("application/json"@)))
    } else {
        config
    };
    let members = Seq::empty().push(("contents"@, Json::Array(contents(ms)))).push(
        ("generationConfig"@, Json::Object(config)),
    );
    match system_prompt(ms) {
        Some(s) => Json::Object(
            members.push(("systemInstruction"@, Json::Object(Seq::empty().push(("parts"@, text_parts(s)))))),
        ),
        None => Json::Object(members),
    }
}

/// Every request carries a `generationConfig` whose `temperature` is the
/// request's temperature (0 where unset, sent as 0 too) and whose
/// `maxOutputTokens` is its `max_tokens` (4096 where unset).
pub proof fn lemma_gemini_generation_config(req: ChatRequest)
    ensures
        json_member(request_body(req), "generationConfig"@) matches Some(c) && json_member(c, "temperature"@)
            == Some(Json::F32(match req.temperature {
            Some(t) => t,
            None => 0,
        })) && json_member(c, "maxOutputTokens"@) == Some(
            Json::UInt(
                match req.max_tokens {
                    Some(n) => n as u64,
                    None => 4096,
                },
            ),
        ),
{
    reveal_strlit("contents");
    reveal_strlit("generationConfig");
    reveal_strlit("temperature");
    reveal_strlit("maxOutputTokens");
    assert("contents"@ != "generationConfig"@) by {
        assert("contents"@.len() != "generationConfig"@.len());
    }
    assert("temperature"@ != "maxOutputTokens"@) by {
        assert("temperature"@.len() != "maxOutputTokens"@.len());
    }
    let ms = match request_body(req) {
        Json::Object(ms) => ms,
        _ => Seq::empty(),
    };
    assert(ms[0].0 == "contents"@);
    assert(ms.drop_first()[0].0 == "generationConfig"@);
    let c = ms.drop_first()[0].1;
    let cs = match c {
        Json::Object(cs) => cs,
        _ => Seq::empty(),
    };
    assert(request_body(req) == Json::Object(ms));
    assert(c == Json::Object(cs));
    assert(member_value(ms, "generationConfig"@) == member_value(ms.drop_first(), "generationConfig"@));
    assert(member_value(ms.drop_first(), "generationConfig"@) == Some(c));
    assert(cs[0].0 == "temperature"@);
    assert(member_value(cs, "temperature"@) == Some(cs[0].1));
    assert(cs.drop_first()[0].0 == "maxOutputTokens"@);
    assert(member_value(cs, "maxOutputTokens"@) == member_value(cs.drop_first(), "maxOutputTokens"@));
    assert(member_value(cs.drop_first(), "maxOutputTokens"@) == Some(cs.drop_first()[0].1));
}

fn text_parts_value(text: String) -> (r: JsonValue)
    ensures
        r.model() == text_parts(text@),
{
    let mut part = new_members();
    push_member(&mut part, "text", JsonValue::Str(text));
    let mut items = new_items();
    push_item(&mut items, object(part));
    array(items)
}

fn content_value(m: &Message) -> (r: JsonValue)
    ensures
        r.model() == content_of(*m),
{
    let role = if m.role == Role::Assistant {
        "model"
    } else {
        "user"
    };
    let mut o = new_members();
    push_member(&mut o, "role", json_str(role));
    push_member(&mut o, "parts", text_parts_value(m.content.clone()));
    object(o)
}

/// The contents sent for a conversation.
pub fn contents_value(ms: &Vec<Message>) -> (r: Vec<JsonValue>)
    ensures
        models(r@) == contents(ms@),
{
    let mut out = new_items();
    let mut i: usize = 0;
    assert(ms@.take(0) =~= Seq::<Message>::empty());
    while i < ms.len()
        invariant
            i <= ms@.len(),
            models(out@) == contents(ms@.take(i as int)),
        decreases ms.len() - i,
    {
        assert(ms@.take(i + 1).drop_last() =~= ms@.take(i as int));
        assert(ms@.take(i + 1).last() == ms@[i as int]);
        if ms[i].role != Role::System {
            push_item(&mut out, content_value(&ms[i]));
        }
        i = i + 1;
    }
    assert(ms@.take(ms@.len() as int) =~= ms@);
    out
}

/// The body of a `generateContent` request.
pub fn request_body_value(request: &ChatRequest) -> (r: JsonValue)
    ensures
        r.model() == request_body(*request),
{
    let contents = contents_value(&request.messages);
    let (system, _) = split_system(&request.messages);
    let temperature: u32 = match request.temperature {
        Some(t) => t,
        None => 0,
    };
    let max_tokens: u32 = match request.max_tokens {
        Some(n) => n,
        None => 4096,
    };
    let mut config = new_members();
    push_member(&mut config, "temperature", JsonValue::F32(temperature));
    push_member(&mut config, "maxOutputTokens", JsonValue::UInt(max_tokens as u64));
    if request.json_mode {
        push_member(&mut config, "responseMimeType", json_str("application/json"));
    }
    let mut o = new_members();
    push_member(&mut o, "contents", array(contents));
    push_member(&mut o, "generationConfig", object(config));
    match system {
        Some(s) => {
            let mut instruction = new_members();
            push_member(&mut instruction, "parts", text_parts_value(s));
            push_member(&mut o, "systemInstruction", object(instruction));
        },
        None => {},
    }
    object(o)
}

/// The reply text: `candidates[0].content.parts[0].text`, else empty.
pub open spec fn reply_text(v: Option<Seq<char>>) -> Seq<char> {
    str_or(
        path_str(path_get(path_at(path_get(path_get(path_at(path_get(v, "candidates"@), 0), "content"@), "parts"@), 0), "text"@)),
        Seq::empty(),
    )
}

/// Whether the two counts of the usage metadata overflow a `u32` when added.
pub open spec fn usage_overflows(v: Option<Seq<char>>) -> bool {
    let u = path_get(v, "usageMetadata"@);
    path_is_object(u) && usage_count(u, "promptTokenCount"@) + usage_count(u, "candidatesTokenCount"@) > u32::MAX
}

/// Usage: `promptTokenCount`, `candidatesTokenCount` and their sum; zero when absent.
pub open spec fn reply_usage(v: Option<Seq<char>>) -> TokenUsage {
    let u = path_get(v, "usageMetadata"@);
    if path_is_object(u) {
        TokenUsage {
            prompt_tokens: usage_count(u, "promptTokenCount"@),
            completion_tokens: usage_count(u, "candidatesTokenCount"@),
            total_tokens: (usage_count(u, "promptTokenCount"@) + usage_count(u, "candidatesTokenCount"@)) as u32,
        }
    } else {
        TokenUsage { prompt_tokens: 0, completion_tokens: 0, total_tokens: 0 }
    }
}

/// `resp` is what the decoded body `v` says.
pub open spec fn is_reply(
    resp: ChatResponse,
    v: Option<Seq<char>>,
    provider: Seq<char>,
    model: Seq<char>,
    latency_ms: u64,
) -> bool {
    &&& resp.content@ == reply_text(v)
    &&& resp.tool_calls is None
    &&& resp.usage == reply_usage(v)
    &&& resp.model@ == model
    &&& resp.provider@ == provider
    &&& resp.latency_ms == latency_ms
}

/// What `new` gives: the provider where there is a key, else a missing-key error.
pub open spec fn is_new_outcome(r: Result<GeminiProvider, LlmError>, config: ProviderConfig, key: Option<String>) -> bool {
    match key {
        Some(k) => r matches Ok(p) && p.name@ == "gemini"@ && p.base_url@ == trim_end_slashes(config.base_url@)
            && p.api_key == k,
        None => r matches Err(LlmError::ApiKeyMissing { provider, env_var }) && provider@ == "gemini"@
            && env_var@ == str_or(opt_view(config.api_key_env), "GEMINI_API_KEY"@),
    }
}

impl GeminiProvider {
    /// A provider from its configuration and the API key read from the
    /// environment variable that the configuration names.
    pub fn new(config: &ProviderConfig, api_key_from_env: Option<String>) -> (r: Result<Self, LlmError>)
        ensures
            is_new_outcome(r, *config, api_key_from_env),
    {
        match api_key_from_env {
            Some(api_key) => Ok(GeminiProvider {
                name: owned("gemini"),
                base_url: trim_trailing_slashes(config.base_url.as_str()),
                api_key,
            }),
            None => {
                let env_var = match &config.api_key_env {
                    Some(v) => v.clone(),
                    None => owned("GEMINI_API_KEY"),
                };
                Err(LlmError::ApiKeyMissing { provider: owned("gemini"), env_var })
            },
        }
    }

    /// The HTTP request for a chat call with `model`.
    pub fn chat_request(&self, request: &ChatRequest, model: &str) -> (r: HttpRequest)
        ensures
            r.post,
            r.url@ == self.base_url@ + "/models/"@ + model@ + ":generateContent?key="@ + self.api_key@,
            header_views(r.headers@) == Seq::<(Seq<char>, Seq<char>)>::empty(),
            r.bearer_token is None,
            r.body matches Some(b) && b.model() == request_body(*request),
    {
        let url = join2(
            join2(join2(join2(self.base_url.as_str(), "/models/").as_str(), model).as_str(), ":generateContent?key=").as_str(),
            self.api_key.as_str(),
        );
        HttpRequest { post: true, url, headers: no_headers(), bearer_token: None, body: Some(request_body_value(request)) }
    }

    /// Reads a successful answer's body.
    pub fn parse_response(&self, body: &String, model: &str, latency_ms: u64) -> (r: Result<ChatResponse, LlmError>)
        requires
            !usage_overflows(Some(body@)),
        ensures
            match json_decode(body@) {
                Err(e) => r matches Err(err) && is_parse_failure(err, body@, e),
                Ok(_) => r matches Ok(resp) && is_reply(resp, Some(body@), self.name@, model@, latency_ms),
            },
    {
        match parse_json(body.as_str()) {
            Err(e) => Err(LlmError::ResponseParseFailed { raw: body.clone(), source: e }),
            Ok(_) => {
                let v = Some(body.clone());
                let text = read_str(
                    &get_member(
                        &get_element(&get_member(&get_member(&get_element(&get_member(&v, "candidates"), 0), "content"), "parts"), 0),
                        "text",
                    ),
                );
                let content = match text {
                    Some(t) => t,
                    None => String::new(),
                };
                let u = get_member(&v, "usageMetadata");
                let usage = if is_object(&u) {
                    let prompt = read_usage_count(&u, "promptTokenCount");
                    let candidates = read_usage_count(&u, "candidatesTokenCount");
                    TokenUsage { prompt_tokens: prompt, completion_tokens: candidates, total_tokens: prompt + candidates }
                } else {
                    TokenUsage { prompt_tokens: 0, completion_tokens: 0, total_tokens: 0 }
                };
                Ok(ChatResponse {
                    content,
                    tool_calls: None,
                    usage,
                    model: owned(model),
                    provider: self.name.clone(),
                    latency_ms,
                })
            },
        }
    }

    /// Reads an answer: its HTTP status and body. `None` exactly where the
    /// usage counts overflow when added.
    pub fn handle_response(&self, status: u16, body: String, model: &str, latency_ms: u64) -> (r: Option<
        Result<ChatResponse, LlmError>,
    >)
        ensures
            !is_success(status) ==> (r matches Some(Err(e)) && is_status_error(e, self.name@, status, body@, Some(model@))),
            is_success(status) && usage_overflows(Some(body@)) ==> r is None,
            is_success(status) && !usage_overflows(Some(body@)) ==> (r matches Some(res) && match json_decode(body@) {
                Err(e) => res matches Err(err) && is_parse_failure(err, body@, e),
                Ok(_) => res matches Ok(resp) && is_reply(resp, Some(body@), self.name@, model@, latency_ms),
            }),
    {
        if !status_is_success(status) {
            return Some(Err(status_error(self.name.as_str(), status, body, Some(model))));
        }
        let v = Some(body.clone());
        let u = get_member(&v, "usageMetadata");
        if is_object(&u) {
            let prompt = read_usage_count(&u, "promptTokenCount");
            let candidates = read_usage_count(&u, "candidatesTokenCount");
            if prompt > u32::MAX - candidates {
                return None;
            }
        }
        Some(self.parse_response(&body, model, latency_ms))
    }
}

} // verus!
