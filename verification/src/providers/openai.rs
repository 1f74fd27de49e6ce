//! OpenAI and compatible services (DeepSeek, DashScope, GLM, Ollama).

use vstd::prelude::*;
use crate::config::ProviderConfig;
use crate::error::LlmError;
use crate::json::{
    Json, JsonValue, Doc, array, object, json_decode, json_str, member_models, models, new_items, new_members,
    opt_view, parse_json, path_array, path_at, path_get, path_str, push_item, push_member, get_element,
    get_member, read_array, read_str, text_is,
};
use crate::text::{join2, owned, str_eq};
use crate::types::{ChatRequest, ChatResponse, Message, Role, StreamChunk, ToolCall, ToolDefinition};
use super::{
    canonical_arguments, canonical_arguments_text,
    HttpRequest, header_views, no_headers, is_success, status_is_success, status_error, is_status_error,
    trim_end_slashes, trim_trailing_slashes, counted_usage, read_counted_usage, str_or, tool_call_views,
    lemma_tool_call_views_push, opt_tool_call_views, is_parse_failure, max_tokens_or_default,
};

verus! {

broadcast use {crate::json::lemma_array_model, crate::json::lemma_object_model};

/// A service that speaks OpenAI's Chat Completions API.
#[derive(Debug)]
pub struct OpenAiCompatibleProvider {
    /// The name it was created under (`"openai"`, `"deepseek"`, ...).
    pub name: String,
    pub base_url: String,
    /// The API key; Ollama runs without one.
    pub api_key: Option<String>,
}

/// The wire name of a role.
pub open spec fn role_name(r: Role) -> Seq<char> {
    match r {
        Role::System => "system"@,
        Role::User => "user"@,
        Role::Assistant => "assistant"@,
        Role::Tool => "tool"@,
    }
}

pub open spec fn tool_call_value(t: ToolCall) -> Json {
    Json::Object(
        Seq::empty().push(("id"@, Json::Str(t.id@))).push(("type"@, Json::Str("function"@))).push(
            (
                "function"@,
                Json::Object(
                    Seq::empty().push(("name"@, Json::Str(t.function_name@))).push(
                        ("arguments"@, Json::Str(canonical_arguments(t.arguments@))),
                    ),
                ),
            ),
        ),
    )
}

/// A message as sent: role and content, with `tool_call_id` and
/// `tool_calls` where the message has them.
pub open spec fn message_json(m: Message) -> Json {
    let members = Seq::empty().push(("role"@, Json::Str(role_name(m.role)))).push(("content"@, Json::Str(m.content@)));
    let members = match m.tool_call_id {
        Some(id) => members.push(("tool_call_id"@, Json::Str(id@))),
        None => members,
    };
    let members = match m.tool_calls {
        Some(tc) => members.push(("tool_calls"@, Json::Array(tc@.map_values(|t: ToolCall| tool_call_value(t))))),
        None => members,
    };
    Json::Object(members)
}

pub open spec fn tool_json(t: ToolDefinition) -> Json {
    Json::Object(
        Seq::empty().push(("type"@, Json::Str("function"@))).push(
            (
                "function"@,
                Json::Object(
                    Seq::empty().push(("name"@, Json::Str(t.name@))).push(("description"@, Json::Str(t.description@))).push(
                        ("parameters"@, Json::Raw(t.parameters@)),
                    ),
                ),
            ),
        ),
    )
}

/// The members of a Chat Completions request body.
pub open spec fn body_members(req: ChatRequest, model: Seq<char>) -> Seq<(Seq<char>, Json)> {
    let members = Seq::empty().push(("model"@, Json::Str(model))).push(
        ("messages"@, Json::Array(req.messages@.map_values(|m: Message| message_json(m)))),
    ).push(("temperature"@, Json::F32(match req.temperature {
        Some(t) => t,
        None => 0,
    }))).push(("max_tokens"@, Json::UInt(max_tokens_or_default(req.max_tokens) as u64)));
    let members = match req.tools {
        Some(ts) => members.push(("tools"@, Json::Array(ts@.map_values(|t: ToolDefinition| tool_json(t))))),
        None => members,
    };
    if req.json_mode {
        members.push(("response_format"@, Json::Object(Seq::empty().push(("type"@, Json::Str("json_object"@))))))
    } else {
        members
    }
}

fn tool_call_json_value(t: &ToolCall) -> (r: JsonValue)
    ensures
        r.model() == tool_call_value(*t),
{
    let mut f = new_members();
    push_member(&mut f, "name", JsonValue::Str(t.function_name.clone()));
    push_member(&mut f, "arguments", JsonValue::Str(canonical_arguments_text(t.arguments.as_str())));
    let mut o = new_members();
    push_member(&mut o, "id", JsonValue::Str(t.id.clone()));
    push_member(&mut o, "type", json_str("function"));
    push_member(&mut o, "function", object(f));
    object(o)
}

/// A message as sent.
pub fn message_value(m: &Message) -> (r: JsonValue)
    ensures
        r.model() == message_json(*m),
{
    let role = match m.role {
        Role::System => "system",
        Role::User => "user",
        Role::Assistant => "assistant",
        Role::Tool => "tool",
    };
    let mut o = new_members();
    push_member(&mut o, "role", json_str(role));
    push_member(&mut o, "content", JsonValue::Str(m.content.clone()));
    match &m.tool_call_id {
        Some(id) => push_member(&mut o, "tool_call_id", JsonValue::Str(id.clone())),
        None => {},
    }
    match &m.tool_calls {
        Some(tc) => {
            let mut items = new_items();
            let mut i: usize = 0;
            while i < tc.len()
                invariant
                    i <= tc@.len(),
                    models(items@) == tc@.take(i as int).map_values(|t: ToolCall| tool_call_value(t)),
                decreases tc.len() - i,
            {
                push_item(&mut items, tool_call_json_value(&tc[i]));
                assert(tc@.take(i + 1).map_values(|t: ToolCall| tool_call_value(t)) =~= tc@.take(i as int).map_values(
                    |t: ToolCall| tool_call_value(t),
                ).push(tool_call_value(tc@[i as int])));
                i = i + 1;
            }
            assert(tc@.take(tc@.len() as int) =~= tc@);
            push_member(&mut o, "tool_calls", array(items));
        },
        None => {},
    }
    object(o)
}

fn tool_value(t: &ToolDefinition) -> (r: JsonValue)
    ensures
        r.model() == tool_json(*t),
{
    let mut f = new_members();
    push_member(&mut f, "name", JsonValue::Str(t.name.clone()));
    push_member(&mut f, "description", JsonValue::Str(t.description.clone()));
    push_member(&mut f, "parameters", JsonValue::Raw(t.parameters.clone()));
    let mut o = new_members();
    push_member(&mut o, "type", json_str("function"));
    push_member(&mut o, "function", object(f));
    object(o)
}

/// The members of a Chat Completions request body for `model`.
pub fn body_members_value(request: &ChatRequest, model: &str) -> (r: Vec<(String, JsonValue)>)
    ensures
        member_models(r@) == body_members(*request, model@),
{
    let mut messages = new_items();
    let mut i: usize = 0;
    let ms = &request.messages;
    while i < ms.len()
        invariant
            i <= ms@.len(),
            models(messages@) == ms@.take(i as int).map_values(|m: Message| message_json(m)),
        decreases ms.len() - i,
    {
        push_item(&mut messages, message_value(&ms[i]));
        assert(ms@.take(i + 1).map_values(|m: Message| message_json(m)) =~= ms@.take(i as int).map_values(
            |m: Message| message_json(m),
        ).push(message_json(ms@[i as int])));
        i = i + 1;
    }
    assert(ms@.take(ms@.len() as int) =~= ms@);
    let temperature: u32 = match request.temperature {
        Some(t) => t,
        None => 0,
    };
    let max_tokens: u32 = match request.max_tokens {
        Some(n) => n,
        None => 4096,
    };
    let mut o = new_members();
    push_member(&mut o, "model", json_str(model));
    push_member(&mut o, "messages", array(messages));
    push_member(&mut o, "temperature", JsonValue::F32(temperature));
    push_member(&mut o, "max_tokens", JsonValue::UInt(max_tokens as u64));
    match &request.tools {
        Some(ts) => {
            let mut items = new_items();
            let mut j: usize = 0;
            while j < ts.len()
                invariant
                    j <= ts@.len(),
                    models(items@) == ts@.take(j as int).map_values(|t: ToolDefinition| tool_json(t)),
                decreases ts.len() - j,
            {
                push_item(&mut items, tool_value(&ts[j]));
                assert(ts@.take(j + 1).map_values(|t: ToolDefinition| tool_json(t)) =~= ts@.take(j as int).map_values(
                    |t: ToolDefinition| tool_json(t),
                ).push(tool_json(ts@[j as int])));
                j = j + 1;
            }
            assert(ts@.take(ts@.len() as int) =~= ts@);
            push_member(&mut o, "tools", array(items));
        },
        None => {},
    }
    if request.json_mode {
        let mut f = new_members();
        push_member(&mut f, "type", json_str("json_object"));
        push_member(&mut o, "response_format", object(f));
    }
    o
}

// ---------------------------------------------------------------------------
// Reading the answer
// ---------------------------------------------------------------------------

/// serde_json's message for the text `{`, used where a body lacks a choice.
pub open spec fn missing_choice_message() -> Seq<char> {
    match json_decode("{"@) {
        Err(e) => e,
        Ok(_) => Seq::empty(),
    }
}

/// The canonical JSON text of a tool call's arguments, `{}` where the
/// arguments are not JSON.
pub open spec fn arguments_text(args: Option<Seq<char>>) -> Seq<char> {
    canonical_arguments(str_or(args, "{}"@))
}

/// The tool calls that have a string `id` and `function.name`.
pub open spec fn tool_calls_of(tcs: Seq<Seq<char>>) -> Seq<(Seq<char>, Seq<char>, Seq<char>)>
    decreases tcs.len(),
{
    if tcs.len() == 0 {
        Seq::empty()
    } else {
        let tc = Some(tcs[0]);
        let f = path_get(tc, "function"@);
        let rest = tool_calls_of(tcs.drop_first());
        if path_str(path_get(tc, "id"@)) is Some && path_str(path_get(f, "name"@)) is Some {
            seq![
                (
                    path_str(path_get(tc, "id"@))->0,
                    path_str(path_get(f, "name"@))->0,
                    arguments_text(path_str(path_get(f, "arguments"@))),
                ),
            ] + rest
        } else {
            rest
        }
    }
}

/// The first choice's message.
pub open spec fn first_message(v: Option<Seq<char>>) -> Option<Seq<char>> {
    path_get(path_at(path_get(v, "choices"@), 0), "message"@)
}

/// The tool calls of the reply; none where there are none.
pub open spec fn reply_tool_calls(v: Option<Seq<char>>) -> Option<Seq<(Seq<char>, Seq<char>, Seq<char>)>> {
    match path_array(path_get(first_message(v), "tool_calls"@)) {
        Some(a) => if tool_calls_of(a).len() == 0 {
            None
        } else {
            Some(tool_calls_of(a))
        },
        None => None,
    }
}

/// Whether the decoded body has a first choice.
pub open spec fn has_choice(v: Option<Seq<char>>) -> bool {
    path_array(path_get(v, "choices"@)) matches Some(a) && a.len() > 0
}

/// `resp` is what the decoded body `v` says.
pub open spec fn is_reply(resp: ChatResponse, v: Option<Seq<char>>, provider: Seq<char>, latency_ms: u64) -> bool {
    &&& resp.content@ == str_or(path_str(path_get(first_message(v), "content"@)), Seq::empty())
    &&& opt_tool_call_views(resp.tool_calls) == reply_tool_calls(v)
    &&& resp.usage == counted_usage(path_get(v, "usage"@))
    &&& resp.model@ == str_or(path_str(path_get(v, "model"@)), "unknown"@)
    &&& resp.provider@ == provider
    &&& resp.latency_ms == latency_ms
}

/// The content of a reply is the first choice's `message.content` where
/// that is a string, and empty otherwise (`null`, absent, or another kind).
pub proof fn lemma_openai_reply_content(resp: ChatResponse, body: Seq<char>, provider: Seq<char>, latency_ms: u64)
    requires
        is_reply(resp, Some(body), provider, latency_ms),
    ensures
        ({
            let content = path_get(
                path_get(path_at(path_get(Some(body), "choices"@), 0), "message"@),
                "content"@,
            );
            &&& path_str(content) matches Some(s) ==> resp.content@ == s
            &&& path_str(content) is None ==> resp.content@ == Seq::<char>::empty()
        }),
{
}

fn arguments_text_value(args: Option<String>) -> (r: String)
    ensures
        r@ == arguments_text(opt_view(args)),
{
    let text = match args {
        Some(a) => a,
        None => owned("{}"),
    };
    canonical_arguments_text(text.as_str())
}

fn tool_calls_value(tcs: &Vec<String>) -> (r: Vec<ToolCall>)
    ensures
        tool_call_views(r@) == tool_calls_of(tcs@.map_values(|x: String| x@)),
{
    let ghost sb = tcs@.map_values(|x: String| x@);
    let mut out: Vec<ToolCall> = Vec::new();
    let mut i: usize = 0;
    assert(sb.skip(0) =~= sb);
    assert(tool_call_views(out@) =~= Seq::<(Seq<char>, Seq<char>, Seq<char>)>::empty());
    while i < tcs.len()
        invariant
            i <= tcs@.len(),
            sb == tcs@.map_values(|x: String| x@),
            tool_call_views(out@) + tool_calls_of(sb.skip(i as int)) == tool_calls_of(sb),
        decreases tcs.len() - i,
    {
        let ghost rest = sb.skip(i as int);
        assert(rest[0] == tcs@[i as int]@);
        assert(rest.drop_first() =~= sb.skip(i + 1));
        let tc = Some(tcs[i].clone());
        let f = get_member(&tc, "function");
        let id = read_str(&get_member(&tc, "id"));
        let name = read_str(&get_member(&f, "name"));
        if id.is_some() && name.is_some() {
            let arguments = arguments_text_value(read_str(&get_member(&f, "arguments")));
            let call = ToolCall { id: id.unwrap(), function_name: name.unwrap(), arguments };
            let ghost before = tool_call_views(out@);
            let ghost cv = (call.id@, call.function_name@, call.arguments@);
            proof {
                lemma_tool_call_views_push(out@, call);
            }
            out.push(call);
            assert(before.push(cv) + tool_calls_of(sb.skip(i + 1)) =~= before + (seq![cv] + tool_calls_of(
                sb.skip(i + 1),
            )));
        }
        i = i + 1;
    }
    assert(tool_call_views(out@) + tool_calls_of(sb.skip(i as int)) =~= tool_call_views(out@));
    out
}

/// What a stream event's data says: `[DONE]` ends the stream; a decoded
/// event gives the first choice's `delta.content` and whether it has a
/// non-empty `finish_reason`; events with neither text nor an end are
/// skipped; data that does not decode is an error.
pub open spec fn is_stream_outcome(r: Option<Result<StreamChunk, LlmError>>, data: Seq<char>) -> bool {
    if data == "[DONE]"@ {
        r matches Some(Ok(c)) && c.delta@ == Seq::<char>::empty() && c.tool_calls_delta is None && c.is_final
            && c.usage is None
    } else {
        match json_decode(data) {
            Err(e) => r matches Some(Err(err)) && is_parse_failure(err, data, e),
            Ok(_) => {
                let choice = path_at(path_get(Some(data), "choices"@), 0);
                let text = if choice is Some {
                    str_or(path_str(path_get(path_get(choice, "delta"@), "content"@)), Seq::empty())
                } else {
                    Seq::empty()
                };
                let finished = choice is Some && (path_str(path_get(choice, "finish_reason"@)) matches Some(f)
                    && f.len() > 0);
                if text.len() == 0 && !finished {
                    r is None
                } else {
                    r matches Some(Ok(c)) && c.delta@ == text && c.tool_calls_delta is None && c.is_final
                        == finished && c.usage is None
                }
            },
        }
    }
}

/// Reads the data of one server-sent event of a streamed reply.
pub fn stream_event(data: &str) -> (r: Option<Result<StreamChunk, LlmError>>)
    ensures
        is_stream_outcome(r, data@),
{
    if str_eq(data, "[DONE]") {
        return Some(Ok(StreamChunk::final_empty()));
    }
    match parse_json(data) {
        Err(e) => Some(Err(LlmError::ResponseParseFailed { raw: owned(data), source: e })),
        Ok(_) => {
            let v = Some(owned(data));
            let choice = get_element(&get_member(&v, "choices"), 0);
            let (text, finished) = match &choice {
                Some(_) => {
                    let text = match read_str(&get_member(&get_member(&choice, "delta"), "content")) {
                        Some(t) => t,
                        None => String::new(),
                    };
                    let finished = match read_str(&get_member(&choice, "finish_reason")) {
                        Some(f) => !f.as_str().is_empty(),
                        None => false,
                    };
                    (text, finished)
                },
                None => (String::new(), false),
            };
            if text.as_str().is_empty() && !finished {
                None
            } else {
                Some(Ok(StreamChunk { delta: text, tool_calls_delta: None, is_final: finished, usage: None }))
            }
        },
    }
}

/// What `new` gives: a missing-key error where a service other than
/// Ollama has no key, else the provider.
pub open spec fn is_new_outcome(
    r: Result<OpenAiCompatibleProvider, LlmError>,
    name: Seq<char>,
    config: ProviderConfig,
    key: Option<String>,
) -> bool {
    if name != "ollama"@ && key is None {
        r matches Err(LlmError::ApiKeyMissing { provider, env_var }) && provider@ == name && env_var@ == str_or(
            opt_view(config.api_key_env),
            "API_KEY"@,
        )
    } else {
        r matches Ok(p) && p.name@ == name && p.base_url@ == trim_end_slashes(config.base_url@) && p.api_key == key
    }
}

impl OpenAiCompatibleProvider {
    /// A provider called `name` from its configuration and the API key read
    /// from the environment variable that the configuration names. Every
    /// service but Ollama needs a key.
    pub fn new(name: &str, config: &ProviderConfig, api_key_from_env: Option<String>) -> (r: Result<Self, LlmError>)
        ensures
            is_new_outcome(r, name@, *config, api_key_from_env),
    {
        if !str_eq(name, "ollama") && api_key_from_env.is_none() {
            let env_var = match &config.api_key_env {
                Some(v) => v.clone(),
                None => owned("API_KEY"),
            };
            return Err(LlmError::ApiKeyMissing { provider: owned(name), env_var });
        }
        Ok(OpenAiCompatibleProvider {
            name: owned(name),
            base_url: trim_trailing_slashes(config.base_url.as_str()),
            api_key: api_key_from_env,
        })
    }

    /// The body of a Chat Completions request for `model`.
    pub fn build_request_body(&self, request: &ChatRequest, model: &str) -> (r: JsonValue)
        ensures
            r.model() == Json::Object(body_members(*request, model@)),
    {
        object(body_members_value(request, model))
    }

    /// The HTTP request for a chat call with `model`; a streamed call adds
    /// `"stream": true` to the body.
    pub fn chat_request(&self, request: &ChatRequest, model: &str, stream: bool) -> (r: HttpRequest)
        ensures
            r.post,
            r.url@ == self.base_url@ + "/chat/completions"@,
            header_views(r.headers@) == Seq::<(Seq<char>, Seq<char>)>::empty(),
            r.bearer_token == self.api_key,
            r.body matches Some(b) && b.model() == Json::Object(
                if stream {
                    body_members(*request, model@).push(("stream"@, Json::Bool(true)))
                } else {
                    body_members(*request, model@)
                },
            ),
    {
        let mut members = body_members_value(request, model);
        if stream {
            push_member(&mut members, "stream", JsonValue::Bool(true));
        }
        HttpRequest {
            post: true,
            url: join2(self.base_url.as_str(), "/chat/completions"),
            headers: no_headers(),
            bearer_token: self.api_key.clone(),
            body: Some(object(members)),
        }
    }

    /// Maps an unsuccessful HTTP status: a 404 is an unknown (unnamed) model.
    pub fn map_http_error(&self, status: u16, body: String) -> (e: LlmError)
        ensures
            is_status_error(e, self.name@, status, body@, Some(Seq::empty())),
    {
        let unnamed = String::new();
        status_error(self.name.as_str(), status, body, Some(unnamed.as_str()))
    }

    /// Reads a successful answer's body.
    pub fn parse_response(&self, body: &String, latency_ms: u64) -> (r: Result<ChatResponse, LlmError>)
        ensures
            match json_decode(body@) {
                Err(e) => r matches Err(err) && is_parse_failure(err, body@, e),
                Ok(_) => if has_choice(Some(body@)) {
                    r matches Ok(resp) && is_reply(resp, Some(body@), self.name@, latency_ms)
                } else {
                    r matches Err(err) && is_parse_failure(err, body@, missing_choice_message())
                },
            },
    {
        match parse_json(body.as_str()) {
            Err(e) => Err(LlmError::ResponseParseFailed { raw: body.clone(), source: e }),
            Ok(_) => {
                let v = Some(body.clone());
                let has_first = match read_array(&get_member(&v, "choices")) {
                    Some(a) => a.len() > 0,
                    None => false,
                };
                if !has_first {
                    let source = match parse_json("{") {
                        Err(e) => e,
                        Ok(_) => String::new(),
                    };
                    return Err(LlmError::ResponseParseFailed { raw: body.clone(), source });
                }
                let message = get_member(&get_element(&get_member(&v, "choices"), 0), "message");
                let content = match read_str(&get_member(&message, "content")) {
                    Some(c) => c,
                    None => String::new(),
                };
                let tool_calls = match read_array(&get_member(&message, "tool_calls")) {
                    Some(a) => {
                        let tcs = tool_calls_value(&a);
                        if tcs.len() == 0 {
                            None
                        } else {
                            Some(tcs)
                        }
                    },
                    None => None,
                };
                let usage = read_counted_usage(&get_member(&v, "usage"));
                let model = match read_str(&get_member(&v, "model")) {
                    Some(m) => m,
                    None => owned("unknown"),
                };
                Ok(ChatResponse { content, tool_calls, usage, model, provider: self.name.clone(), latency_ms })
            },
        }
    }

    /// Reads an answer: its HTTP status and body.
    pub fn handle_response(&self, status: u16, body: String, latency_ms: u64) -> (r: Result<ChatResponse, LlmError>)
        ensures
            !is_success(status) ==> (r matches Err(e) && is_status_error(e, self.name@, status, body@, Some(Seq::empty()))),
            is_success(status) ==> match json_decode(body@) {
                Err(e) => r matches Err(err) && is_parse_failure(err, body@, e),
                Ok(_) => if has_choice(Some(body@)) {
                    r matches Ok(resp) && is_reply(resp, Some(body@), self.name@, latency_ms)
                } else {
                    r matches Err(err) && is_parse_failure(err, body@, missing_choice_message())
                },
            },
    {
        if !status_is_success(status) {
            return Err(self.map_http_error(status, body));
        }
        self.parse_response(&body, latency_ms)
    }
}

} // verus!
