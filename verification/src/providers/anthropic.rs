//! Anthropic, Messages API.

use vstd::prelude::*;
use crate::config::ProviderConfig;
use crate::error::LlmError;
use crate::json::{
    Json, JsonValue, array, object, json_decode, json_str, models, new_items, new_members, opt_view, parse_json,
    path_array, path_get, path_is_object, path_str, push_item, push_member, get_member, read_array,
    read_str, is_object, text_is,
};
use crate::text::{join2, owned};
use crate::types::{ChatRequest, ChatResponse, Message, Role, TokenUsage, ToolCall, ToolDefinition};
use super::{
    canonical_arguments, canonical_arguments_text,
    HttpRequest, header_views, push_header, no_headers, is_success, status_is_success, status_error,
    is_status_error, trim_end_slashes, trim_trailing_slashes, usage_count, read_usage_count, str_or,
    tool_call_views, lemma_tool_call_views_push, opt_tool_call_views, is_parse_failure, opt_text,
    max_tokens_or_default, pick,
};

verus! {

broadcast use {crate::json::lemma_array_model, crate::json::lemma_object_model};

/// The Anthropic Messages API.
#[derive(Debug)]
pub struct AnthropicProvider {
    pub name: String,
    pub base_url: String,
    pub api_key: String,
}

// ---------------------------------------------------------------------------
// Turning the conversation into Anthropic's form
// ---------------------------------------------------------------------------

/// The system prompt: the content of the last system message.
pub open spec fn system_prompt(ms: Seq<Message>) -> Option<Seq<char>>
    decreases ms.len(),
{
    if ms.len() == 0 {
        None
    } else if ms.last().role == Role::System {
        Some(ms.last().content@)
    } else {
        system_prompt(ms.drop_last())
    }
}

/// The messages other than system messages, in order.
pub open spec fn without_system(ms: Seq<Message>) -> Seq<Message>
    decreases ms.len(),
{
    if ms.len() == 0 {
        Seq::empty()
    } else if ms.last().role == Role::System {
        without_system(ms.drop_last())
    } else {
        without_system(ms.drop_last()).push(ms.last())
    }
}

/// The number of tool messages at the start.
pub open spec fn tool_run(ms: Seq<Message>) -> nat
    decreases ms.len(),
{
    if ms.len() > 0 && ms[0].role == Role::Tool {
        1 + tool_run(ms.drop_first())
    } else {
        0
    }
}

pub proof fn lemma_tool_run_bounds(ms: Seq<Message>)
    ensures
        tool_run(ms) <= ms.len(),
        ms.len() > 0 && ms[0].role == Role::Tool ==> tool_run(ms) >= 1,
    decreases ms.len(),
{
    if ms.len() > 0 && ms[0].role == Role::Tool {
        lemma_tool_run_bounds(ms.drop_first());
    }
}

/// A run of exactly `k` tool messages at the start.
pub proof fn lemma_tool_run(ms: Seq<Message>, k: int)
    requires
        0 <= k <= ms.len(),
        forall|x: int| 0 <= x < k ==> ms[x].role == Role::Tool,
        k == ms.len() || ms[k].role != Role::Tool,
    ensures
        tool_run(ms) == k,
    decreases k,
{
    if k > 0 {
        lemma_tool_run(ms.drop_first(), k - 1);
    }
}

pub open spec fn user_turn(m: Message) -> Json {
    Json::Object(Seq::empty().push(("role"@, Json::Str("user"@))).push(("content"@, Json::Str(m.content@))))
}

pub open spec fn tool_use_block(t: ToolCall) -> Json {
    Json::Object(
        Seq::empty().push(("type"@, Json::Str("tool_use"@))).push(("id"@, Json::Str(t.id@))).push(("name"@, Json::Str(t.function_name@))).push(("input"@, Json::Raw(canonical_arguments(t.arguments@)))),
    )
}

/// An assistant turn: its tool calls as `tool_use` blocks where it has
/// them, else its text.
pub open spec fn assistant_turn(m: Message) -> Json {
    let content = match m.tool_calls {
        Some(tc) => Json::Array(tc@.map_values(|t: ToolCall| tool_use_block(t))),
        None => Json::Str(m.content@),
    };
    Json::Object(Seq::empty().push(("role"@, Json::Str("assistant"@))).push(("content"@, content)))
}

pub open spec fn tool_result_block(m: Message) -> Json {
    Json::Object(
        Seq::empty().push(("type"@, Json::Str("tool_result"@))).push(("tool_use_id"@, Json::Str(opt_text(m.tool_call_id)))).push(("content"@, Json::Str(m.content@))),
    )
}

/// One user turn that hands back a run of tool results.
pub open spec fn tool_results_turn(run: Seq<Message>) -> Json {
    Json::Object(
        Seq::empty().push(("role"@, Json::Str("user"@))).push(("content"@, Json::Array(run.map_values(|m: Message| tool_result_block(m))))),
    )
}

/// The turns sent for messages without system messages: each user and
/// assistant message is a turn; each run of consecutive tool messages is
/// merged into one user turn.
pub open spec fn turns(ms: Seq<Message>) -> Seq<Json>
    decreases ms.len(),
{
    if ms.len() == 0 {
        Seq::empty()
    } else if ms[0].role == Role::User {
        seq![user_turn(ms[0])] + turns(ms.drop_first())
    } else if ms[0].role == Role::Assistant {
        seq![assistant_turn(ms[0])] + turns(ms.drop_first())
    } else if ms[0].role == Role::Tool {
        proof {
            lemma_tool_run_bounds(ms);
        }
        let k = tool_run(ms) as int;
        seq![tool_results_turn(ms.take(k))] + turns(ms.skip(k))
    } else {
        turns(ms.drop_first())
    }
}

pub open spec fn tool_declaration(t: ToolDefinition) -> Json {
    Json::Object(
        Seq::empty().push(("name"@, Json::Str(t.name@))).push(("description"@, Json::Str(t.description@))).push(("input_schema"@, Json::Raw(t.parameters@))),
    )
}

/// The body of a Messages API request.
pub open spec fn request_body(req: ChatRequest, model: Seq<char>) -> Json {
    let ms = req.messages@;
    let members = Seq::empty().push(("model"@, Json::Str(model))).push(("max_tokens"@, Json::UInt(max_tokens_or_default(req.max_tokens) as u64))).push(("messages"@, Json::Array(turns(without_system(ms)))));
    let members = match system_prompt(ms) {
        Some(s) => members.push(("system"@, Json::Str(s))),
        None => members,
    };
    let members = match req.tools {
        Some(ts) => members.push(("tools"@, Json::Array(ts@.map_values(|t: ToolDefinition| tool_declaration(t))))),
        None => members,
    };
    Json::Object(members)
}

fn user_turn_value(m: &Message) -> (r: JsonValue)
    ensures
        r.model() == user_turn(*m),
{
    let mut o = new_members();
    push_member(&mut o, "role", json_str("user"));
    push_member(&mut o, "content", JsonValue::Str(m.content.clone()));
    object(o)
}

fn tool_use_value(t: &ToolCall) -> (r: JsonValue)
    ensures
        r.model() == tool_use_block(*t),
{
    let mut o = new_members();
    push_member(&mut o, "type", json_str("tool_use"));
    push_member(&mut o, "id", JsonValue::Str(t.id.clone()));
    push_member(&mut o, "name", JsonValue::Str(t.function_name.clone()));
    push_member(&mut o, "input", JsonValue::Raw(canonical_arguments_text(t.arguments.as_str())));
    object(o)
}

fn assistant_turn_value(m: &Message) -> (r: JsonValue)
    ensures
        r.model() == assistant_turn(*m),
{
    let content = match &m.tool_calls {
        Some(tc) => {
            let mut items = new_items();
            let mut i: usize = 0;
            while i < tc.len()
                invariant
                    i <= tc@.len(),
                    models(items@) == tc@.take(i as int).map_values(|t: ToolCall| tool_use_block(t)),
                decreases tc.len() - i,
            {
                push_item(&mut items, tool_use_value(&tc[i]));
                assert(tc@.take(i + 1).map_values(|t: ToolCall| tool_use_block(t)) =~= tc@.take(
                    i as int,
                ).map_values(|t: ToolCall| tool_use_block(t)).push(tool_use_block(tc@[i as int])));
                i = i + 1;
            }
            assert(tc@.take(tc@.len() as int) =~= tc@);
            array(items)
        },
        None => JsonValue::Str(m.content.clone()),
    };
    let mut o = new_members();
    push_member(&mut o, "role", json_str("assistant"));
    push_member(&mut o, "content", content);
    object(o)
}

fn tool_result_value(m: &Message) -> (r: JsonValue)
    ensures
        r.model() == tool_result_block(*m),
{
    let id = match &m.tool_call_id {
        Some(id) => id.clone(),
        None => String::new(),
    };
    let mut o = new_members();
    push_member(&mut o, "type", json_str("tool_result"));
    push_member(&mut o, "tool_use_id", JsonValue::Str(id));
    push_member(&mut o, "content", JsonValue::Str(m.content.clone()));
    object(o)
}

/// Splits off the system prompt: the last system message's content, and the
/// positions of the other messages.
pub fn split_system(ms: &Vec<Message>) -> (r: (Option<String>, Vec<usize>))
    ensures
        opt_view(r.0) == system_prompt(ms@),
        pick(ms@, r.1@) == without_system(ms@),
        forall|i: int| 0 <= i < r.1@.len() ==> r.1@[i] < ms@.len(),
{
    let mut system: Option<String> = None;
    let mut keep: Vec<usize> = Vec::new();
    let mut i: usize = 0;
    assert(ms@.take(0) =~= Seq::<Message>::empty());
    assert(pick(ms@, keep@) =~= Seq::<Message>::empty());
    while i < ms.len()
        invariant
            i <= ms@.len(),
            opt_view(system) == system_prompt(ms@.take(i as int)),
            pick(ms@, keep@) == without_system(ms@.take(i as int)),
            forall|x: int| 0 <= x < keep@.len() ==> keep@[x] < ms@.len(),
        decreases ms.len() - i,
    {
        assert(ms@.take(i + 1).drop_last() =~= ms@.take(i as int));
        assert(ms@.take(i + 1).last() == ms@[i as int]);
        if ms[i].role == Role::System {
            system = Some(ms[i].content.clone());
        } else {
            let ghost before = keep@;
            keep.push(i);
            assert(pick(ms@, keep@) =~= pick(ms@, before).push(ms@[i as int]));
        }
        i = i + 1;
    }
    assert(ms@.take(ms@.len() as int) =~= ms@);
    (system, keep)
}

/// The turns for the messages at the given positions.
pub fn turns_value(ms: &Vec<Message>, keep: &Vec<usize>) -> (r: Vec<JsonValue>)
    requires
        forall|i: int| 0 <= i < keep@.len() ==> keep@[i] < ms@.len(),
    ensures
        models(r@) == turns(pick(ms@, keep@)),
{
    let ghost ns = pick(ms@, keep@);
    let mut out = new_items();
    let mut i: usize = 0;
    assert(ns.skip(0) =~= ns);
    while i < keep.len()
        invariant
            i <= keep@.len(),
            ns == pick(ms@, keep@),
            forall|x: int| 0 <= x < keep@.len() ==> keep@[x] < ms@.len(),
            models(out@) + turns(ns.skip(i as int)) == turns(ns),
        decreases keep.len() - i,
    {
        let ghost rest = ns.skip(i as int);
        assert(rest[0] == ns[i as int]);
        let m = &ms[keep[i]];
        assert(*m == ns[i as int]);
        if m.role == Role::User {
            let ghost before = models(out@);
            push_item(&mut out, user_turn_value(m));
            assert(rest.drop_first() =~= ns.skip(i + 1));
            assert(before.push(user_turn(*m)) + turns(ns.skip(i + 1)) =~= before + (seq![user_turn(*m)]
                + turns(ns.skip(i + 1))));
            i = i + 1;
        } else if m.role == Role::Assistant {
            let ghost before = models(out@);
            push_item(&mut out, assistant_turn_value(m));
            assert(rest.drop_first() =~= ns.skip(i + 1));
            assert(before.push(assistant_turn(*m)) + turns(ns.skip(i + 1)) =~= before + (seq![
                assistant_turn(*m),
            ] + turns(ns.skip(i + 1))));
            i = i + 1;
        } else if m.role == Role::Tool {
            let mut results = new_items();
            let mut j: usize = i;
            assert(ns.subrange(i as int, i as int) =~= Seq::<Message>::empty());
            while j < keep.len() && ms[keep[j]].role == Role::Tool
                invariant
                    i < keep@.len(),
                    i <= j <= keep@.len(),
                    ns == pick(ms@, keep@),
                    forall|x: int| 0 <= x < keep@.len() ==> keep@[x] < ms@.len(),
                    forall|x: int| i <= x < j ==> ns[x].role == Role::Tool,
                    models(results@) == ns.subrange(i as int, j as int).map_values(
                        |mm: Message| tool_result_block(mm),
                    ),
                decreases keep.len() - j,
            {
                assert(ms@[keep@[j as int] as int] == ns[j as int]);
                push_item(&mut results, tool_result_value(&ms[keep[j]]));
                assert(ns.subrange(i as int, j + 1).map_values(|mm: Message| tool_result_block(mm))
                    =~= ns.subrange(i as int, j as int).map_values(|mm: Message| tool_result_block(mm)).push(
                    tool_result_block(ns[j as int]),
                ));
                j = j + 1;
            }
            assert(j < keep@.len() ==> ns[j as int] == ms@[keep@[j as int] as int]);
            proof {
                lemma_tool_run(rest, j - i);
            }
            assert(rest.take(j - i) =~= ns.subrange(i as int, j as int));
            assert(rest.skip(j - i) =~= ns.skip(j as int));
            let mut o = new_members();
            push_member(&mut o, "role", json_str("user"));
            push_member(&mut o, "content", array(results));
            let turn = object(o);
            assert(turn.model() == tool_results_turn(rest.take(j - i)));
            let ghost before = models(out@);
            push_item(&mut out, turn);
            assert(before.push(turn.model()) + turns(ns.skip(j as int)) =~= before + (seq![turn.model()]
                + turns(ns.skip(j as int))));
            i = j;
        } else {
            assert(rest.drop_first() =~= ns.skip(i + 1));
            i = i + 1;
        }
    }
    assert(models(out@) + turns(ns.skip(i as int)) =~= models(out@));
    out
}

fn tool_declaration_value(t: &ToolDefinition) -> (r: JsonValue)
    ensures
        r.model() == tool_declaration(*t),
{
    let mut o = new_members();
    push_member(&mut o, "name", JsonValue::Str(t.name.clone()));
    push_member(&mut o, "description", JsonValue::Str(t.description.clone()));
    push_member(&mut o, "input_schema", JsonValue::Raw(t.parameters.clone()));
    object(o)
}

/// The body of a Messages API request for `model`.
pub fn request_body_value(request: &ChatRequest, model: &str) -> (r: JsonValue)
    ensures
        r.model() == request_body(*request, model@),
{
    let (system, keep) = split_system(&request.messages);
    let turns = turns_value(&request.messages, &keep);
    let max_tokens: u32 = match request.max_tokens {
        Some(n) => n,
        None => 4096,
    };
    let mut o = new_members();
    push_member(&mut o, "model", json_str(model));
    push_member(&mut o, "max_tokens", JsonValue::UInt(max_tokens as u64));
    push_member(&mut o, "messages", JsonValue::Array(turns));
    match system {
        Some(s) => push_member(&mut o, "system", JsonValue::Str(s)),
        None => {},
    }
    match &request.tools {
        Some(ts) => {
            let mut items = new_items();
            let mut i: usize = 0;
            while i < ts.len()
                invariant
                    i <= ts@.len(),
                    models(items@) == ts@.take(i as int).map_values(|t: ToolDefinition| tool_declaration(t)),
                decreases ts.len() - i,
            {
                push_item(&mut items, tool_declaration_value(&ts[i]));
                assert(ts@.take(i + 1).map_values(|t: ToolDefinition| tool_declaration(t)) =~= ts@.take(
                    i as int,
                ).map_values(|t: ToolDefinition| tool_declaration(t)).push(tool_declaration(ts@[i as int])));
                i = i + 1;
            }
            assert(ts@.take(ts@.len() as int) =~= ts@);
            push_member(&mut o, "tools", array(items));
        },
        None => {},
    }
    object(o)
}

// ---------------------------------------------------------------------------
// Reading the answer
// ---------------------------------------------------------------------------

/// The first content block whose `type` is `"text"`.
pub open spec fn first_text_block(bs: Seq<Seq<char>>) -> Option<Seq<char>>
    decreases bs.len(),
{
    if bs.len() == 0 {
        None
    } else if path_str(path_get(Some(bs[0]), "type"@)) == Some("text"@) {
        Some(bs[0])
    } else {
        first_text_block(bs.drop_first())
    }
}

/// The reply text: the `text` of the first text block, else empty.
pub open spec fn reply_text(v: Option<Seq<char>>) -> Seq<char> {
    match path_array(path_get(v, "content"@)) {
        Some(bs) => match first_text_block(bs) {
            Some(b) => str_or(path_str(path_get(Some(b), "text"@)), Seq::empty()),
            None => Seq::empty(),
        },
        None => Seq::empty(),
    }
}

/// The text of a value, `null` where there is none.
pub open spec fn text_or_null(t: Option<Seq<char>>) -> Seq<char> {
    str_or(t, "null"@)
}

/// The `tool_use` blocks that have a string `id` and `name`, as tool calls.
pub open spec fn tool_uses(bs: Seq<Seq<char>>) -> Seq<(Seq<char>, Seq<char>, Seq<char>)>
    decreases bs.len(),
{
    if bs.len() == 0 {
        Seq::empty()
    } else {
        let b = Some(bs[0]);
        let rest = tool_uses(bs.drop_first());
        if path_str(path_get(b, "type"@)) == Some("tool_use"@) && path_str(path_get(b, "id"@)) is Some
            && path_str(path_get(b, "name"@)) is Some {
            seq![
                (
                    path_str(path_get(b, "id"@))->0,
                    path_str(path_get(b, "name"@))->0,
                    text_or_null(path_get(b, "input"@)),
                ),
            ] + rest
        } else {
            rest
        }
    }
}

/// The tool calls of a reply; none where there are none.
pub open spec fn reply_tool_calls(v: Option<Seq<char>>) -> Option<Seq<(Seq<char>, Seq<char>, Seq<char>)>> {
    match path_array(path_get(v, "content"@)) {
        Some(bs) => if tool_uses(bs).len() == 0 {
            None
        } else {
            Some(tool_uses(bs))
        },
        None => None,
    }
}

/// Whether the two counts of the usage object overflow a `u32` when added.
pub open spec fn usage_overflows(v: Option<Seq<char>>) -> bool {
    let u = path_get(v, "usage"@);
    path_is_object(u) && usage_count(u, "input_tokens"@) + usage_count(u, "output_tokens"@) > u32::MAX
}

/// Usage: `input_tokens`, `output_tokens` and their sum; zero when absent.
pub open spec fn reply_usage(v: Option<Seq<char>>) -> TokenUsage {
    let u = path_get(v, "usage"@);
    if path_is_object(u) {
        TokenUsage {
            prompt_tokens: usage_count(u, "input_tokens"@),
            completion_tokens: usage_count(u, "output_tokens"@),
            total_tokens: (usage_count(u, "input_tokens"@) + usage_count(u, "output_tokens"@)) as u32,
        }
    } else {
        TokenUsage { prompt_tokens: 0, completion_tokens: 0, total_tokens: 0 }
    }
}

/// `resp` is what the decoded body `v` says, from `provider`, asked for `model`.
pub open spec fn is_reply(
    resp: ChatResponse,
    v: Option<Seq<char>>,
    provider: Seq<char>,
    model: Seq<char>,
    latency_ms: u64,
) -> bool {
    &&& resp.content@ == reply_text(v)
    &&& opt_tool_call_views(resp.tool_calls) == reply_tool_calls(v)
    &&& resp.usage == reply_usage(v)
    &&& resp.model@ == str_or(path_str(path_get(v, "model"@)), model)
    &&& resp.provider@ == provider
    &&& resp.latency_ms == latency_ms
}

fn reply_text_value(v: &Option<String>) -> (r: String)
    ensures
        r@ == reply_text(opt_view(*v)),
{
    match read_array(&get_member(v, "content")) {
        Some(bs) => {
            let ghost sb = bs@.map_values(|x: String| x@);
            let mut i: usize = 0;
            assert(sb.skip(0) =~= sb);
            while i < bs.len()
                invariant
                    i <= bs@.len(),
                    sb == bs@.map_values(|x: String| x@),
                    first_text_block(sb) == first_text_block(sb.skip(i as int)),
                    path_array(path_get(opt_view(*v), "content"@)) == Some(sb),
                decreases bs.len() - i,
            {
                let b = Some(bs[i].clone());
                assert(sb.skip(i as int)[0] == bs@[i as int]@);
                if text_is(&read_str(&get_member(&b, "type")), "text") {
                    return match read_str(&get_member(&b, "text")) {
                        Some(t) => t,
                        None => String::new(),
                    };
                }
                assert(sb.skip(i as int).drop_first() =~= sb.skip(i + 1));
                i = i + 1;
            }
            String::new()
        },
        None => String::new(),
    }
}

fn tool_uses_value(bs: &Vec<String>) -> (r: Vec<ToolCall>)
    ensures
        tool_call_views(r@) == tool_uses(bs@.map_values(|x: String| x@)),
{
    let ghost sb = bs@.map_values(|x: String| x@);
    let mut out: Vec<ToolCall> = Vec::new();
    let mut i: usize = 0;
    assert(sb.skip(0) =~= sb);
    assert(tool_call_views(out@) =~= Seq::<(Seq<char>, Seq<char>, Seq<char>)>::empty());
    while i < bs.len()
        invariant
            i <= bs@.len(),
            sb == bs@.map_values(|x: String| x@),
            tool_call_views(out@) + tool_uses(sb.skip(i as int)) == tool_uses(sb),
        decreases bs.len() - i,
    {
        let ghost rest = sb.skip(i as int);
        assert(rest[0] == bs@[i as int]@);
        assert(rest.drop_first() =~= sb.skip(i + 1));
        let b = Some(bs[i].clone());
        let is_tool_use = text_is(&read_str(&get_member(&b, "type")), "tool_use");
        let id = read_str(&get_member(&b, "id"));
        let name = read_str(&get_member(&b, "name"));
        if is_tool_use && id.is_some() && name.is_some() {
            let input = match get_member(&b, "input") {
                Some(t) => t,
                None => owned("null"),
            };
            let call = ToolCall { id: id.unwrap(), function_name: name.unwrap(), arguments: input };
            let ghost before = tool_call_views(out@);
            let ghost cv = (call.id@, call.function_name@, call.arguments@);
            proof {
                lemma_tool_call_views_push(out@, call);
            }
            out.push(call);
            assert(before.push(cv) + tool_uses(sb.skip(i + 1)) =~= before + (seq![cv] + tool_uses(
                sb.skip(i + 1),
            )));
        }
        i = i + 1;
    }
    assert(tool_call_views(out@) + tool_uses(sb.skip(i as int)) =~= tool_call_views(out@));
    out
}

/// What `new` gives: the provider where there is a key, else a missing-key error.
pub open spec fn is_new_outcome(r: Result<AnthropicProvider, LlmError>, config: ProviderConfig, key: Option<String>) -> bool {
    match key {
        Some(k) => r matches Ok(p) && p.name@ == "anthropic"@ && p.base_url@ == trim_end_slashes(config.base_url@)
            && p.api_key == k,
        None => r matches Err(LlmError::ApiKeyMissing { provider, env_var }) && provider@ == "anthropic"@
            && env_var@ == str_or(opt_view(config.api_key_env), "ANTHROPIC_API_KEY"@),
    }
}

impl AnthropicProvider {
    /// A provider from its configuration and the API key read from the
    /// environment variable that the configuration names (`None` where it
    /// names none or the variable is not set).
    pub fn new(config: &ProviderConfig, api_key_from_env: Option<String>) -> (r: Result<Self, LlmError>)
        ensures
            is_new_outcome(r, *config, api_key_from_env),
    {
        match api_key_from_env {
            Some(api_key) => Ok(AnthropicProvider {
                name: owned("anthropic"),
                base_url: trim_trailing_slashes(config.base_url.as_str()),
                api_key,
            }),
            None => {
                let env_var = match &config.api_key_env {
                    Some(v) => v.clone(),
                    None => owned("ANTHROPIC_API_KEY"),
                };
                Err(LlmError::ApiKeyMissing { provider: owned("anthropic"), env_var })
            },
        }
    }

    /// The HTTP request for a chat call with `model`.
    pub fn chat_request(&self, request: &ChatRequest, model: &str) -> (r: HttpRequest)
        ensures
            r.post,
            r.url@ == self.base_url@ + "/messages"@,
            header_views(r.headers@) == Seq::empty().push(("x-api-key"@, self.api_key@)).push(
                ("anthropic-version"@, "2023-06-01"@),
            ).push(("content-type"@, "application/json"@)),
            r.bearer_token is None,
            r.body matches Some(b) && b.model() == request_body(*request, model@),
    {
        let mut headers = no_headers();
        push_header(&mut headers, "x-api-key", self.api_key.as_str());
        push_header(&mut headers, "anthropic-version", "2023-06-01");
        push_header(&mut headers, "content-type", "application/json");
        HttpRequest {
            post: true,
            url: join2(self.base_url.as_str(), "/messages"),
            headers,
            bearer_token: None,
            body: Some(request_body_value(request, model)),
        }
    }

    /// Reads a successful answer's body.
    pub fn parse_response(&self, body: &String, model: &str, latency_ms: u64) -> (r: Result<ChatResponse, LlmError>)
        requires
            !usage_overflows(Some(body@)),
        ensures
            match json_decode(body@) {
                Err(e) => r matches Err(err) && is_parse_failure(err, body@, e),
                Ok(_) => r matches Ok(resp) && is_reply(resp, Some(body@), self.name@, model@, latency_ms),
            },
    {
        match parse_json(body.as_str()) {
            Err(e) => Err(LlmError::ResponseParseFailed { raw: body.clone(), source: e }),
            Ok(_) => {
                let v = Some(body.clone());
                let content = reply_text_value(&v);
                let tool_calls = match read_array(&get_member(&v, "content")) {
                    Some(bs) => {
                        let tcs = tool_uses_value(&bs);
                        if tcs.len() == 0 {
                            None
                        } else {
                            Some(tcs)
                        }
                    },
                    None => None,
                };
                let u = get_member(&v, "usage");
                let usage = if is_object(&u) {
                    let input = read_usage_count(&u, "input_tokens");
                    let output = read_usage_count(&u, "output_tokens");
                    TokenUsage { prompt_tokens: input, completion_tokens: output, total_tokens: input + output }
                } else {
                    TokenUsage { prompt_tokens: 0, completion_tokens: 0, total_tokens: 0 }
                };
                let reply_model = match read_str(&get_member(&v, "model")) {
                    Some(m) => m,
                    None => owned(model),
                };
                Ok(ChatResponse {
                    content,
                    tool_calls,
                    usage,
                    model: reply_model,
                    provider: self.name.clone(),
                    latency_ms,
                })
            },
        }
    }

    /// Reads an answer: its HTTP status and body. `None` exactly where the
    /// usage counts overflow when added, which the transport treats as an
    /// arithmetic overflow.
    pub fn handle_response(&self, status: u16, body: String, model: &str, latency_ms: u64) -> (r: Option<
        Result<ChatResponse, LlmError>,
    >)
        ensures
            !is_success(status) ==> (r matches Some(Err(e)) && is_status_error(
                e,
                self.name@,
                status,
                body@,
                Some(model@),
            )),
            is_success(status) && usage_overflows(Some(body@)) ==> r is None,
            is_success(status) && !usage_overflows(Some(body@)) ==> (r matches Some(res) && match json_decode(
                body@,
            ) {
                Err(e) => res matches Err(err) && is_parse_failure(err, body@, e),
                Ok(_) => res matches Ok(resp) && is_reply(resp, Some(body@), self.name@, model@, latency_ms),
            }),
    {
        if !status_is_success(status) {
            return Some(Err(status_error(self.name.as_str(), status, body, Some(model))));
        }
        let v = Some(body.clone());
        let u = get_member(&v, "usage");
        if is_object(&u) {
            let input = read_usage_count(&u, "input_tokens");
            let output = read_usage_count(&u, "output_tokens");
            if input > u32::MAX - output {
                return None;
            }
        }
        Some(self.parse_response(&body, model, latency_ms))
    }
}

} // verus!
