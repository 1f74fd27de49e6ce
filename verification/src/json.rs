//! JSON values as the library builds and reads them.
//!
//! Request bodies are built as a [`JsonValue`] tree, whose mathematical
//! model is [`Json`]; the transport serialises it. Response bodies are read
//! through [`parse_json`], which decodes one level of a JSON text and hands
//! back the members of arrays and objects as their own (canonical) JSON
//! texts, so that a path into a document is followed one level at a time.

use vstd::prelude::*;
use crate::text::{owned, str_eq};
use serde_json::Value;

verus! {

/// A JSON value to be sent.
#[derive(Debug)]
pub enum JsonValue {
    Null,
    Bool(bool),
    /// A string.
    Str(String),
    /// A non-negative integer.
    UInt(u64),
    /// A 32-bit float, given by its IEEE-754 bit pattern.
    F32(u32),
    /// A value given by its JSON text, embedded as it stands.
    Raw(String),
    Array(Vec<JsonValue>),
    /// Members in the order they were added.
    Object(Vec<(String, JsonValue)>),
}

/// The model of a [`JsonValue`].
#[verifier::ext_equal]
pub enum Json {
    Null,
    Bool(bool),
    Str(Seq<char>),
    UInt(u64),
    F32(u32),
    Raw(Seq<char>),
    Array(Seq<Json>),
    Object(Seq<(Seq<char>, Json)>),
}

impl JsonValue {
    pub open spec fn model(self) -> Json
        decreases self,
    {
        match self {
            JsonValue::Null => Json::Null,
            JsonValue::Bool(b) => Json::Bool(b),
            JsonValue::Str(s) => Json::Str(s@),
            JsonValue::UInt(n) => Json::UInt(n),
            JsonValue::F32(b) => Json::F32(b),
            JsonValue::Raw(s) => Json::Raw(s@),
            JsonValue::Array(v) => Json::Array(
                Seq::new(v@.len(), |i: int| if 0 <= i < v@.len() { v@[i].model() } else { Json::Null }),
            ),
            JsonValue::Object(v) => Json::Object(
                Seq::new(
                    v@.len(),
                    |i: int|
                        if 0 <= i < v@.len() {
                            (v@[i].0@, v@[i].1.model())
                        } else {
                            (Seq::empty(), Json::Null)
                        },
                ),
            ),
        }
    }
}

/// The models of a sequence of values.
pub open spec fn models(s: Seq<JsonValue>) -> Seq<Json> {
    s.map_values(|x: JsonValue| x.model())
}

/// The value of the first member named `key`.
pub open spec fn member_value(ms: Seq<(Seq<char>, Json)>, key: Seq<char>) -> Option<Json>
    decreases ms.len(),
{
    if ms.len() == 0 {
        None
    } else if ms[0].0 == key {
        Some(ms[0].1)
    } else {
        member_value(ms.drop_first(), key)
    }
}

/// The member named `key` of an object; none for other values.
pub open spec fn json_member(j: Json, key: Seq<char>) -> Option<Json> {
    match j {
        Json::Object(ms) => member_value(ms, key),
        _ => None,
    }
}

/// The models of a sequence of object members.
pub open spec fn member_models(s: Seq<(String, JsonValue)>) -> Seq<(Seq<char>, Json)> {
    s.map_values(|e: (String, JsonValue)| (e.0@, e.1.model()))
}

pub broadcast proof fn lemma_array_model(v: Vec<JsonValue>)
    ensures
        #[trigger] JsonValue::Array(v).model() == Json::Array(models(v@)),
{
    assert(JsonValue::Array(v).model()->Array_0 =~= models(v@));
}

pub broadcast proof fn lemma_object_model(v: Vec<(String, JsonValue)>)
    ensures
        #[trigger] JsonValue::Object(v).model() == Json::Object(member_models(v@)),
{
    assert(JsonValue::Object(v).model()->Object_0 =~= member_models(v@));
}

pub proof fn lemma_models_push(s: Seq<JsonValue>, x: JsonValue)
    ensures
        models(s.push(x)) == models(s).push(x.model()),
{
    assert(models(s.push(x)) =~= models(s).push(x.model()));
}

pub proof fn lemma_member_models_push(s: Seq<(String, JsonValue)>, e: (String, JsonValue))
    ensures
        member_models(s.push(e)) == member_models(s).push((e.0@, e.1.model())),
{
    assert(member_models(s.push(e)) =~= member_models(s).push((e.0@, e.1.model())));
}

/// An object with no members yet.
pub fn new_members() -> (r: Vec<(String, JsonValue)>)
    ensures
        member_models(r@) == Seq::<(Seq<char>, Json)>::empty(),
{
    let r: Vec<(String, JsonValue)> = Vec::new();
    assert(member_models(r@) =~= Seq::<(Seq<char>, Json)>::empty());
    r
}

/// An array with no elements yet.
pub fn new_items() -> (r: Vec<JsonValue>)
    ensures
        models(r@) == Seq::<Json>::empty(),
{
    let r: Vec<JsonValue> = Vec::new();
    assert(models(r@) =~= Seq::<Json>::empty());
    r
}

/// The object with the given members.
pub fn object(members: Vec<(String, JsonValue)>) -> (r: JsonValue)
    ensures
        r.model() == Json::Object(member_models(members@)),
{
    proof {
        lemma_object_model(members);
    }
    JsonValue::Object(members)
}

/// The array with the given elements.
pub fn array(items: Vec<JsonValue>) -> (r: JsonValue)
    ensures
        r.model() == Json::Array(models(items@)),
{
    proof {
        lemma_array_model(items);
    }
    JsonValue::Array(items)
}

/// A JSON string with the given text.
pub fn json_str(s: &str) -> (r: JsonValue)
    ensures
        r.model() == Json::Str(s@),
{
    JsonValue::Str(owned(s))
}

/// Appends the member `key: value` to an object under construction.
pub fn push_member(members: &mut Vec<(String, JsonValue)>, key: &str, value: JsonValue)
    ensures
        member_models(final(members)@) == member_models(old(members)@).push((key@, value.model())),
{
    let k = owned(key);
    let ghost e = (k, value);
    members.push((k, value));
    proof {
        lemma_member_models_push(old(members)@, e);
    }
}

/// Appends a value to an array under construction.
pub fn push_item(items: &mut Vec<JsonValue>, value: JsonValue)
    ensures
        models(final(items)@) == models(old(items)@).push(value.model()),
{
    let ghost v = value;
    items.push(value);
    proof {
        lemma_models_push(old(items)@, v);
    }
}

// ---------------------------------------------------------------------------
// Reading JSON texts
// ---------------------------------------------------------------------------

/// One level of a decoded JSON value.
#[derive(Debug)]
pub enum JsonNode {
    Null,
    Bool(bool),
    /// A number; its value where it is a non-negative integer that fits in a `u64`.
    Number(Option<u64>),
    Str(String),
    /// The elements, each as its canonical JSON text.
    Array(Vec<String>),
    /// The members, each value as its canonical JSON text.
    Object(Vec<(String, String)>),
}

/// A decoded JSON text: its canonical form and its top level.
#[derive(Debug)]
pub struct ParsedJson {
    pub text: String,
    pub node: JsonNode,
}

/// The model of a [`JsonNode`].
pub enum Shape {
    Null,
    Bool(bool),
    Number(Option<u64>),
    Str(Seq<char>),
    Array(Seq<Seq<char>>),
    Object(Seq<(Seq<char>, Seq<char>)>),
}

/// The model of a [`ParsedJson`].
pub struct Doc {
    pub text: Seq<char>,
    pub shape: Shape,
}

impl JsonNode {
    pub open spec fn shape(self) -> Shape {
        match self {
            JsonNode::Null => Shape::Null,
            JsonNode::Bool(b) => Shape::Bool(b),
            JsonNode::Number(n) => Shape::Number(n),
            JsonNode::Str(s) => Shape::Str(s@),
            JsonNode::Array(v) => Shape::Array(v@.map_values(|t: String| t@)),
            JsonNode::Object(v) => Shape::Object(v@.map_values(|e: (String, String)| (e.0@, e.1@))),
        }
    }
}

impl ParsedJson {
    pub open spec fn doc(self) -> Doc {
        Doc { text: self.text@, shape: self.node.shape() }
    }
}

/// What serde_json makes of a JSON text: its canonical form and top level,
/// or the text of its error.
pub uninterp spec fn json_decode(text: Seq<char>) -> Result<Doc, Seq<char>>;

pub open spec fn parse_outcome(r: Result<ParsedJson, String>) -> Result<Doc, Seq<char>> {
    match r {
        Ok(p) => Ok(p.doc()),
        Err(e) => Err(e@),
    }
}

/// Decodes a JSON text with `serde_json::from_str::<serde_json::Value>`, and
/// renders the value and each member with serde_json's `Display`.
/// Claimed: the outcome is the one that `json_decode` names for this text.
#[verifier::external_body]
pub fn parse_json(text: &str) -> (r: Result<ParsedJson, String>)
    ensures
        parse_outcome(r) == json_decode(text@),
{
    match serde_json::from_str::<Value>(text) {
        Ok(v) => Ok(ParsedJson { text: v.to_string(), node: match v {
            Value::Null => JsonNode::Null,
            Value::Bool(b) => JsonNode::Bool(b),
            Value::Number(n) => JsonNode::Number(n.as_u64()),
            Value::String(s) => JsonNode::Str(s),
            Value::Array(a) => JsonNode::Array(a.iter().map(|x| x.to_string()).collect()),
            Value::Object(m) => JsonNode::Object(m.iter().map(|(k, x)| (k.clone(), x.to_string())).collect()),
        } }),
        Err(e) => Err(e.to_string()),
    }
}

// ---------------------------------------------------------------------------
// Following a path into a JSON text
//
// A position in a document is `Some(text)` for a value given by its JSON
// text, or `None` where the path leads nowhere (serde_json's `Value::Null`
// from indexing). A text that does not decode reads as null.
// ---------------------------------------------------------------------------

pub open spec fn opt_view(t: Option<String>) -> Option<Seq<char>> {
    match t {
        Some(s) => Some(s@),
        None => None,
    }
}

pub open spec fn shape_of(t: Option<Seq<char>>) -> Shape {
    match t {
        Some(x) => match json_decode(x) {
            Ok(d) => d.shape,
            Err(_) => Shape::Null,
        },
        None => Shape::Null,
    }
}

/// The value of the first member named `key`.
pub open spec fn lookup(es: Seq<(Seq<char>, Seq<char>)>, key: Seq<char>) -> Option<Seq<char>>
    decreases es.len(),
{
    if es.len() == 0 {
        None
    } else if es[0].0 == key {
        Some(es[0].1)
    } else {
        lookup(es.drop_first(), key)
    }
}

/// `v[key]`: the member of an object.
pub open spec fn path_get(t: Option<Seq<char>>, key: Seq<char>) -> Option<Seq<char>> {
    match shape_of(t) {
        Shape::Object(es) => lookup(es, key),
        _ => None,
    }
}

/// `v[i]`: the element of an array.
pub open spec fn path_at(t: Option<Seq<char>>, i: int) -> Option<Seq<char>> {
    match shape_of(t) {
        Shape::Array(a) => if 0 <= i < a.len() {
            Some(a[i])
        } else {
            None
        },
        _ => None,
    }
}

/// `v.as_str()`.
pub open spec fn path_str(t: Option<Seq<char>>) -> Option<Seq<char>> {
    match shape_of(t) {
        Shape::Str(s) => Some(s),
        _ => None,
    }
}

/// `v.as_u64()`.
pub open spec fn path_u64(t: Option<Seq<char>>) -> Option<u64> {
    match shape_of(t) {
        Shape::Number(n) => n,
        _ => None,
    }
}

/// `v.as_array()`, the elements as texts.
pub open spec fn path_array(t: Option<Seq<char>>) -> Option<Seq<Seq<char>>> {
    match shape_of(t) {
        Shape::Array(a) => Some(a),
        _ => None,
    }
}

/// `v.is_object()`.
pub open spec fn path_is_object(t: Option<Seq<char>>) -> bool {
    shape_of(t) is Object
}

/// The top level of the value at a position.
pub fn node_at(t: &Option<String>) -> (r: JsonNode)
    ensures
        r.shape() == shape_of(opt_view(*t)),
{
    match t {
        Some(x) => match parse_json(x.as_str()) {
            Ok(p) => p.node,
            Err(_) => JsonNode::Null,
        },
        None => JsonNode::Null,
    }
}

/// `v[key]`.
pub fn get_member(t: &Option<String>, key: &str) -> (r: Option<String>)
    ensures
        opt_view(r) == path_get(opt_view(*t), key@),
{
    let n = node_at(t);
    match n {
        JsonNode::Object(es) => {
            let ghost sh = es@.map_values(|e: (String, String)| (e.0@, e.1@));
            assert(path_get(opt_view(*t), key@) == lookup(sh, key@));
            let mut i: usize = 0;
            assert(sh.skip(0) =~= sh);
            while i < es.len()
                invariant
                    i <= es.len(),
                    sh == es@.map_values(|e: (String, String)| (e.0@, e.1@)),
                    lookup(sh, key@) == lookup(sh.skip(i as int), key@),
                    path_get(opt_view(*t), key@) == lookup(sh, key@),
                decreases es.len() - i,
            {
                assert(sh.skip(i as int)[0] == sh[i as int]);
                assert(sh[i as int] == (es@[i as int].0@, es@[i as int].1@));
                if str_eq(es[i].0.as_str(), key) {
                    assert(lookup(sh.skip(i as int), key@) == Some(sh[i as int].1));
                    let found = es[i].1.clone();
                    assert(found@ == sh[i as int].1);
                    return Some(found);
                }
                assert(sh.skip(i as int).drop_first() =~= sh.skip(i + 1));
                i = i + 1;
            }
            None
        },
        _ => None,
    }
}

/// `v[i]`.
pub fn get_element(t: &Option<String>, i: usize) -> (r: Option<String>)
    ensures
        opt_view(r) == path_at(opt_view(*t), i as int),
{
    match node_at(t) {
        JsonNode::Array(a) => if i < a.len() {
            Some(a[i].clone())
        } else {
            None
        },
        _ => None,
    }
}

/// `v.as_str()`.
pub fn read_str(t: &Option<String>) -> (r: Option<String>)
    ensures
        opt_view(r) == path_str(opt_view(*t)),
{
    match node_at(t) {
        JsonNode::Str(s) => Some(s),
        _ => None,
    }
}

/// `v.as_u64()`.
pub fn read_u64(t: &Option<String>) -> (r: Option<u64>)
    ensures
        r == path_u64(opt_view(*t)),
{
    match node_at(t) {
        JsonNode::Number(n) => n,
        _ => None,
    }
}

/// `v.as_array()`.
pub fn read_array(t: &Option<String>) -> (r: Option<Vec<String>>)
    ensures
        match r {
            Some(a) => path_array(opt_view(*t)) == Some(a@.map_values(|x: String| x@)),
            None => path_array(opt_view(*t)) is None,
        },
{
    match node_at(t) {
        JsonNode::Array(a) => Some(a),
        _ => None,
    }
}

/// `v.is_object()`.
pub fn is_object(t: &Option<String>) -> (r: bool)
    ensures
        r == path_is_object(opt_view(*t)),
{
    match node_at(t) {
        JsonNode::Object(_) => true,
        _ => false,
    }
}

/// Whether an optional text is the given one.
pub fn text_is(o: &Option<String>, lit: &str) -> (r: bool)
    ensures
        r == (opt_view(*o) == Some(lit@)),
{
    match o {
        Some(x) => str_eq(x.as_str(), lit),
        None => false,
    }
}

} // verus!
