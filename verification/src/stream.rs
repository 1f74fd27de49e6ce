//! Streamed DashScope answers: server-sent events, cut at blank lines, whose
//! `data:` lines each carry one JSON increment.
//!
//! The transport feeds the bytes it reads to an [`SseBuffer`], takes out each
//! complete event, asks [`sse_data`] for its payload, decodes the payload into
//! a [`StreamEventRaw`] and turns that into a chunk with [`chunk_from_event`].

use vstd::prelude::*;
use crate::error::DashScopeError;
use crate::json::opt_view;
use crate::response::Usage;
use crate::text::{
    after_prefix, chars_of, contains_seq, find_chars, first_occurrence, has_prefix, join2, occurs_at, str_eq,
    string_from_chars, substring, trim, trimmed,
};

verus! {

/// One increment of a streamed answer.
#[derive(Debug, Clone)]
pub struct StreamChunk {
    /// New text.
    pub content: Option<String>,
    /// Why generation stopped, on the last increment.
    pub finish_reason: Option<String>,
    /// Tokens counted, usually on the last increment.
    pub usage: Option<Usage>,
}

/// The JSON of one `data:` line.
#[derive(Debug, Clone)]
pub struct StreamEventRaw {
    pub output: Option<StreamOutput>,
    pub usage: Option<Usage>,
    pub code: Option<String>,
    pub message: Option<String>,
}

#[derive(Debug, Clone)]
pub struct StreamOutput {
    pub choices: Option<Vec<StreamChoice>>,
}

#[derive(Debug, Clone)]
pub struct StreamChoice {
    pub message: Option<StreamMessage>,
    pub delta: Option<StreamMessage>,
    pub finish_reason: Option<String>,
}

#[derive(Debug, Clone)]
pub struct StreamMessage {
    pub content: Option<String>,
}

/// The blank line that ends an event.
pub open spec fn event_end() -> Seq<char> {
    seq!['\n', '\n']
}

/// Cuts `s` at its first blank line: the event before it and the rest after it.
pub fn split_sse_event(s: &str) -> (r: Option<(String, String)>)
    ensures
        match r {
            Some((event, rest)) => exists|i: int|
                first_occurrence(s@, event_end(), i) && event@ == s@.take(i) && rest@ == s@.skip(i + 2),
            None => !contains_seq(s@, event_end()),
        },
{
    let cs = chars_of(s);
    let mut sep: Vec<char> = Vec::new();
    sep.push('\n');
    sep.push('\n');
    assert(sep@ =~= event_end());
    match find_chars(&cs, &sep) {
        Some(i) => {
            let n = cs.len();
            let event = substring(&cs, 0, i);
            let rest = substring(&cs, i + 2, n);
            assert(cs@.subrange(0, i as int) =~= s@.take(i as int));
            assert(cs@.subrange(i + 2, n as int) =~= s@.skip(i + 2));
            Some((event, rest))
        },
        None => None,
    }
}

/// The lines of an event, cut at each `'\n'`; there is always at least one.
pub open spec fn event_lines(s: Seq<char>) -> Seq<Seq<char>>
    decreases s.len(),
{
    if s.len() == 0 {
        seq![Seq::<char>::empty()]
    } else {
        let ls = event_lines(s.drop_last());
        if s.last() == '\n' {
            ls.push(Seq::empty())
        } else {
            ls.update(ls.len() - 1, ls.last().push(s.last()))
        }
    }
}

/// The value of a `data:` line: what follows the field name on the trimmed
/// line, trimmed; none for any other line (`id:`, `event:`, comments, ...).
pub open spec fn line_data(line: Seq<char>) -> Option<Seq<char>> {
    let t = trimmed(line);
    if has_prefix(t, "data:"@) {
        Some(trimmed(t.skip(5)))
    } else {
        None
    }
}

/// The values of the `data:` lines among `ls`, in order.
pub open spec fn data_values(ls: Seq<Seq<char>>) -> Seq<Seq<char>>
    decreases ls.len(),
{
    if ls.len() == 0 {
        Seq::empty()
    } else {
        let d = data_values(ls.drop_last());
        match line_data(ls.last()) {
            Some(v) => d.push(v),
            None => d,
        }
    }
}

/// Texts joined with `'\n'` between them.
pub open spec fn join_lines(ds: Seq<Seq<char>>) -> Seq<char>
    decreases ds.len(),
{
    if ds.len() == 0 {
        Seq::empty()
    } else if ds.len() == 1 {
        ds[0]
    } else {
        join_lines(ds.drop_last()) + seq!['\n'] + ds.last()
    }
}

/// The payload of an event: the values of its `data:` lines joined with
/// `'\n'`; none where it has no `data:` line, where the payload is empty and
/// for `[DONE]`.
pub open spec fn event_payload(event: Seq<char>) -> Option<Seq<char>> {
    let ds = data_values(event_lines(event));
    let data = join_lines(ds);
    if ds.len() == 0 || data == "[DONE]"@ || data.len() == 0 {
        None
    } else {
        Some(data)
    }
}

/// The value of one line, where it is a `data:` line.
fn line_value(line: &str) -> (r: Option<String>)
    ensures
        opt_view(r) == line_data(line@),
{
    proof {
        reveal_strlit("data:");
    }
    let t = trim(line);
    match after_prefix(t.as_str(), "data:") {
        Some(after) => Some(trim(after.as_str())),
        None => None,
    }
}

pub open spec fn views(ds: Seq<String>) -> Seq<Seq<char>> {
    ds.map_values(|d: String| d@)
}

/// The texts joined with `'\n'` between them.
fn join_values(ds: &Vec<String>) -> (r: String)
    ensures
        r@ == join_lines(views(ds@)),
{
    let mut nl_chars: Vec<char> = Vec::new();
    nl_chars.push('\n');
    let nl = string_from_chars(nl_chars.as_slice());
    assert(nl@ =~= seq!['\n']);
    let mut out = String::new();
    let mut i: usize = 0;
    while i < ds.len()
        invariant
            i <= ds@.len(),
            nl@ == seq!['\n'],
            out@ == join_lines(views(ds@).take(i as int)),
        decreases ds.len() - i,
    {
        let ghost t = views(ds@).take(i + 1);
        assert(t.drop_last() =~= views(ds@).take(i as int));
        assert(t.last() == ds@[i as int]@);
        assert(t.len() == i + 1);
        if i == 0 {
            out = ds[0].clone();
            assert(t[0] == ds@[0]@);
        } else {
            let ghost prev = out@;
            out = join2(join2(out.as_str(), nl.as_str()).as_str(), ds[i].as_str());
            assert(out@ =~= prev + seq!['\n'] + ds@[i as int]@);
            assert(out@ =~= join_lines(t.drop_last()) + seq!['\n'] + t.last());
        }
        i = i + 1;
    }
    assert(views(ds@).take(i as int) =~= views(ds@));
    out
}

/// The payload of one event, where it carries one.
pub fn sse_data(event: &str) -> (r: Option<String>)
    ensures
        opt_view(r) == event_payload(event@),
{
    proof {
        reveal_strlit("[DONE]");
    }
    let cs = chars_of(event);
    let mut datas: Vec<String> = Vec::new();
    let mut line: Vec<char> = Vec::new();
    let ghost mut done: Seq<Seq<char>> = Seq::empty();
    let mut i: usize = 0;
    assert(cs@.take(0) =~= Seq::<char>::empty());
    assert(done.push(line@) =~= seq![Seq::<char>::empty()]);
    assert(views(datas@) =~= Seq::<Seq<char>>::empty());
    while i < cs.len()
        invariant
            i <= cs@.len(),
            cs@ == event@,
            event_lines(cs@.take(i as int)) == done.push(line@),
            views(datas@) == data_values(done),
        decreases cs.len() - i,
    {
        let c = cs[i];
        let ghost t = cs@.take(i + 1);
        assert(t.drop_last() =~= cs@.take(i as int));
        assert(t.last() == c);
        if c == '\n' {
            let text = string_from_chars(line.as_slice());
            let ghost before = views(datas@);
            match line_value(text.as_str()) {
                Some(v) => {
                    datas.push(v);
                    assert(views(datas@) =~= before.push(v@));
                },
                None => {},
            }
            proof {
                assert(done.push(line@).drop_last() =~= done);
                done = done.push(line@);
            }
            line = Vec::new();
            assert(event_lines(t) =~= done.push(line@));
        } else {
            let ghost ls = done.push(line@);
            line.push(c);
            assert(ls.update(ls.len() - 1, ls.last().push(c)) =~= done.push(line@));
        }
        i = i + 1;
    }
    assert(cs@.take(i as int) =~= event@);
    let text = string_from_chars(line.as_slice());
    let ghost before = views(datas@);
    match line_value(text.as_str()) {
        Some(v) => {
            datas.push(v);
            assert(views(datas@) =~= before.push(v@));
        },
        None => {},
    }
    proof {
        assert(done.push(line@).drop_last() =~= done);
    }
    assert(views(datas@) == data_values(event_lines(event@)));
    if datas.len() == 0 {
        return None;
    }
    let data = join_values(&datas);
    if str_eq(data.as_str(), "[DONE]") || data.as_str().is_empty() {
        None
    } else {
        Some(data)
    }
}

/// What `String::from_utf8_lossy` makes of bytes: their UTF-8 reading, each
/// ill-formed sequence replaced by U+FFFD.
pub uninterp spec fn lossy_utf8(bytes: Seq<u8>) -> Seq<char>;

/// std's `String::from_utf8_lossy`, owned.
#[verifier::external_body]
fn utf8_lossy(bytes: &[u8]) -> (r: String)
    ensures
        r@ == lossy_utf8(bytes@),
        vstd::utf8::valid_utf8(bytes@) ==> r@ == vstd::utf8::decode_utf8(bytes@),
{
    String::from_utf8_lossy(bytes).into_owned()
}

/// An event, once its blank line has arrived, does not depend on what
/// arrives after it: where `p` has its first blank line at `i`, so does
/// `p + t`, with the same event before it and `t` appended to what follows.
pub proof fn lemma_event_stable_under_append(p: Seq<char>, t: Seq<char>, i: int)
    requires
        first_occurrence(p, event_end(), i),
    ensures
        first_occurrence(p + t, event_end(), i),
        (p + t).take(i) == p.take(i),
        (p + t).skip(i + 2) == p.skip(i + 2) + t,
{
    let q = p + t;
    assert(q.subrange(i, i + 2) =~= p.subrange(i, i + 2));
    assert forall|x: int| 0 <= x < i implies !occurs_at(q, event_end(), x) by {
        assert(!occurs_at(p, event_end(), x));
        assert(q.subrange(x, x + 2) =~= p.subrange(x, x + 2));
    }
    assert(q.take(i) =~= p.take(i));
    assert(q.skip(i + 2) =~= p.skip(i + 2) + t);
}

/// Where the first blank line at or after position `i` begins.
pub open spec fn end_from(p: Seq<char>, i: int) -> Option<int>
    decreases p.len() - i,
{
    if i < 0 || i + 2 > p.len() {
        None
    } else if p[i] == '\n' && p[i + 1] == '\n' {
        Some(i)
    } else {
        end_from(p, i + 1)
    }
}

/// `end_from` finds the first blank line from `i` on.
pub proof fn lemma_end_from(p: Seq<char>, i: int)
    requires
        0 <= i,
    ensures
        match end_from(p, i) {
            Some(j) => i <= j && j + 2 <= p.len() && occurs_at(p, event_end(), j) && forall|x: int|
                i <= x < j ==> !occurs_at(p, event_end(), x),
            None => forall|x: int| i <= x ==> !occurs_at(p, event_end(), x),
        },
        i == 0 ==> match end_from(p, 0) {
            Some(j) => first_occurrence(p, event_end(), j),
            None => !contains_seq(p, event_end()),
        },
    decreases p.len() - i,
{
    if i + 2 > p.len() {
        assert forall|x: int| i <= x implies !occurs_at(p, event_end(), x) by {}
    } else {
        let here = p[i] == '\n' && p[i + 1] == '\n';
        if here {
            assert(p.subrange(i, i + 2) =~= event_end());
        } else {
            assert(!occurs_at(p, event_end(), i)) by {
                if occurs_at(p, event_end(), i) {
                    assert(p.subrange(i, i + 2)[0] == p[i]);
                    assert(p.subrange(i, i + 2)[1] == p[i + 1]);
                }
            }
            lemma_end_from(p, i + 1);
        }
    }
}

/// The events that text holds, in order, and what is left after the last
/// blank line.
pub open spec fn drain(p: Seq<char>) -> (Seq<Seq<char>>, Seq<char>)
    decreases p.len(),
{
    match end_from(p, 0) {
        Some(i) => {
            proof {
                lemma_end_from(p, 0);
            }
            let r = drain(p.skip(i + 2));
            (seq![p.take(i)] + r.0, r.1)
        },
        None => (Seq::empty(), p),
    }
}

/// Two positions that are both the first blank line are the same.
proof fn lemma_first_occurrence_unique(p: Seq<char>, i: int, j: int)
    requires
        first_occurrence(p, event_end(), i),
        first_occurrence(p, event_end(), j),
    ensures
        i == j,
{
    if i < j {
        assert(!occurs_at(p, event_end(), i));
    } else if j < i {
        assert(!occurs_at(p, event_end(), j));
    }
}

/// Taking events out as text arrives gives what taking them out of all the
/// text at once gives: the events of `a + b` are those of `a`, then those
/// of what `a` leaves over with `b` after it; and so is what is left.
pub proof fn lemma_drain_append(a: Seq<char>, b: Seq<char>)
    ensures
        drain(a + b).0 == drain(a).0 + drain(drain(a).1 + b).0,
        drain(a + b).1 == drain(drain(a).1 + b).1,
    decreases a.len(),
{
    lemma_end_from(a, 0);
    lemma_end_from(a + b, 0);
    match end_from(a, 0) {
        Some(i) => {
            lemma_event_stable_under_append(a, b, i);
            match end_from(a + b, 0) {
                Some(j) => lemma_first_occurrence_unique(a + b, i, j),
                None => {},
            }
            let rest = a.skip(i + 2);
            lemma_drain_append(rest, b);
            assert(drain(a + b).0 =~= seq![a.take(i)] + drain(rest + b).0);
            assert(drain(a).0 =~= seq![a.take(i)] + drain(rest).0);
            assert(drain(a + b).0 =~= drain(a).0 + drain(drain(a).1 + b).0);
        },
        None => {
            assert(drain(a).0 =~= Seq::<Seq<char>>::empty());
            assert(drain(a).0 + drain(drain(a).1 + b).0 =~= drain(a + b).0);
        },
    }
}

/// Bytes read in pieces read as they do whole, where each piece is
/// well-formed UTF-8 (the whole cut at character boundaries).
pub proof fn lemma_pieces_decode_as_whole(b1: Seq<u8>, b2: Seq<u8>)
    requires
        vstd::utf8::valid_utf8(b1),
        vstd::utf8::valid_utf8(b2),
    ensures
        vstd::utf8::valid_utf8(b1 + b2),
        vstd::utf8::decode_utf8(b1 + b2) == vstd::utf8::decode_utf8(b1) + vstd::utf8::decode_utf8(b2),
{
    let x = vstd::utf8::decode_utf8(b1);
    let y = vstd::utf8::decode_utf8(b2);
    vstd::utf8::valid_utf8_concat(b1, b2);
    vstd::utf8::decode_utf8_encode_utf8(b1);
    vstd::utf8::decode_utf8_encode_utf8(b2);
    lemma_encode_concat(x, y);
    vstd::utf8::encode_utf8_decode_utf8(x + y);
}

/// The encoding of joined characters is the join of their encodings.
proof fn lemma_encode_concat(x: Seq<char>, y: Seq<char>)
    ensures
        vstd::utf8::encode_utf8(x + y) == vstd::utf8::encode_utf8(x) + vstd::utf8::encode_utf8(y),
    decreases x.len(),
{
    if x.len() == 0 {
        assert(x + y =~= y);
        assert(vstd::utf8::encode_utf8(x) =~= Seq::<u8>::empty());
        assert(vstd::utf8::encode_utf8(x) + vstd::utf8::encode_utf8(y) =~= vstd::utf8::encode_utf8(y));
    } else {
        assert((x + y).drop_first() =~= x.drop_first() + y);
        assert((x + y)[0] == x[0]);
        lemma_encode_concat(x.drop_first(), y);
        assert(vstd::utf8::encode_utf8(x + y) =~= vstd::utf8::encode_utf8(x) + vstd::utf8::encode_utf8(y));
    }
}

/// Text received from a stream and not yet cut into events.
#[derive(Debug)]
pub struct SseBuffer {
    pub pending: String,
}

impl SseBuffer {
    /// An empty buffer.
    pub fn new() -> (r: Self)
        ensures
            r.pending@ == Seq::<char>::empty(),
    {
        SseBuffer { pending: String::new() }
    }

    /// Appends text read from the stream.
    pub fn push_text(&mut self, text: &str)
        ensures
            final(self).pending@ == old(self).pending@ + text@,
    {
        self.pending = join2(self.pending.as_str(), text);
    }

    /// Appends bytes read from the stream, read as UTF-8 (ill-formed
    /// sequences become U+FFFD).
    pub fn push_bytes(&mut self, bytes: &[u8])
        ensures
            final(self).pending@ == old(self).pending@ + lossy_utf8(bytes@),
            vstd::utf8::valid_utf8(bytes@) ==> final(self).pending@ == old(self).pending@
                + vstd::utf8::decode_utf8(bytes@),
    {
        let text = utf8_lossy(bytes);
        self.push_text(text.as_str());
    }

    /// Takes out the first complete event, leaving what follows its blank line.
    pub fn next_event(&mut self) -> (r: Option<String>)
        ensures
            match r {
                Some(event) => exists|i: int|
                    first_occurrence(old(self).pending@, event_end(), i) && event@ == old(self).pending@.take(i)
                        && final(self).pending@ == old(self).pending@.skip(i + 2),
                None => !contains_seq(old(self).pending@, event_end()) && final(self).pending@
                    == old(self).pending@,
            },
            drain(old(self).pending@) == match r {
                Some(event) => (seq![event@] + drain(final(self).pending@).0, drain(final(self).pending@).1),
                None => (Seq::<Seq<char>>::empty(), old(self).pending@),
            },
    {
        proof {
            lemma_end_from(self.pending@, 0);
        }
        match split_sse_event(self.pending.as_str()) {
            Some((event, rest)) => {
                self.pending = rest;
                Some(event)
            },
            None => None,
        }
    }

    /// Appends bytes read from the stream and takes out every event that is
    /// now complete, in order; what follows the last blank line stays.
    pub fn feed(&mut self, bytes: &[u8]) -> (events: Vec<String>)
        ensures
            (views(events@), final(self).pending@) == drain(old(self).pending@ + lossy_utf8(bytes@)),
            vstd::utf8::valid_utf8(bytes@) ==> (views(events@), final(self).pending@) == drain(
                old(self).pending@ + vstd::utf8::decode_utf8(bytes@),
            ),
            !contains_seq(final(self).pending@, event_end()),
    {
        self.push_bytes(bytes);
        proof {
            lemma_drain_rest(self.pending@);
        }
        let ghost all = self.pending@;
        let mut events: Vec<String> = Vec::new();
        assert(views(events@) + drain(all).0 =~= drain(all).0);
        loop
            invariant
                drain(all) == (views(events@) + drain(self.pending@).0, drain(self.pending@).1),
            ensures
                drain(all) == (views(events@), self.pending@),
            decreases self.pending@.len(),
        {
            let ghost before = self.pending@;
            match self.next_event() {
                Some(e) => {
                    let ghost vs = views(events@);
                    events.push(e);
                    assert(views(events@) =~= vs.push(e@));
                    assert(vs + (seq![e@] + drain(self.pending@).0) =~= views(events@) + drain(self.pending@).0);
                },
                None => {
                    assert(views(events@) + Seq::<Seq<char>>::empty() =~= views(events@));
                    break;
                },
            }
        }
        events
    }
}

/// What a stream of byte pieces gives when each piece is fed in turn
/// (read as UTF-8) starting from pending text `p`: the events taken out,
/// in order, and the text left pending.
pub open spec fn feed_all(p: Seq<char>, pieces: Seq<Seq<u8>>) -> (Seq<Seq<char>>, Seq<char>)
    decreases pieces.len(),
{
    if pieces.len() == 0 {
        (Seq::empty(), p)
    } else {
        let d = drain(p + vstd::utf8::decode_utf8(pieces[0]));
        let r = feed_all(d.1, pieces.drop_first());
        (d.0 + r.0, r.1)
    }
}

/// Every piece is well-formed UTF-8.
pub open spec fn all_valid_utf8(pieces: Seq<Seq<u8>>) -> bool {
    forall|k: int| 0 <= k < pieces.len() ==> vstd::utf8::valid_utf8(#[trigger] pieces[k])
}

/// What `drain` leaves holds no complete event.
pub proof fn lemma_drain_rest(x: Seq<char>)
    ensures
        !contains_seq(drain(x).1, event_end()),
    decreases x.len(),
{
    lemma_end_from(x, 0);
    match end_from(x, 0) {
        Some(i) => lemma_drain_rest(x.skip(i + 2)),
        None => {},
    }
}

/// Feeding well-formed pieces one by one to a buffer that holds no complete
/// event gives what feeding all their bytes at once gives.
pub proof fn lemma_feed_all_as_whole(p: Seq<char>, pieces: Seq<Seq<u8>>)
    requires
        !contains_seq(p, event_end()),
        all_valid_utf8(pieces),
    ensures
        vstd::utf8::valid_utf8(pieces.flatten()),
        feed_all(p, pieces) == drain(p + vstd::utf8::decode_utf8(pieces.flatten())),
    decreases pieces.len(),
{
    if pieces.len() == 0 {
        assert(pieces.flatten() =~= Seq::<u8>::empty());
        assert(vstd::utf8::decode_utf8(Seq::<u8>::empty()) =~= Seq::<char>::empty());
        assert(p + Seq::<char>::empty() =~= p);
        lemma_end_from(p, 0);
    } else {
        let rest = pieces.drop_first();
        assert(all_valid_utf8(rest)) by {
            assert forall|k: int| 0 <= k < rest.len() implies vstd::utf8::valid_utf8(#[trigger] rest[k]) by {
                assert(rest[k] == pieces[k + 1]);
            }
        }
        assert(vstd::utf8::valid_utf8(pieces[0]));
        let a = p + vstd::utf8::decode_utf8(pieces[0]);
        let d = drain(a);
        lemma_drain_rest(a);
        lemma_feed_all_as_whole(d.1, rest);
        lemma_pieces_decode_as_whole(pieces[0], rest.flatten());
        assert(pieces.flatten() =~= pieces[0] + rest.flatten());
        lemma_drain_append(a, vstd::utf8::decode_utf8(rest.flatten()));
        assert(a + vstd::utf8::decode_utf8(rest.flatten()) =~= p + vstd::utf8::decode_utf8(pieces.flatten()));
    }
}

/// How a stream is cut into pieces does not change the events it gives:
/// from a buffer holding no complete event (an empty one, or one fed
/// before), two cuttings of the same bytes into well-formed UTF-8 pieces
/// (cuts at character boundaries) give the same events and leave the same
/// text.
pub proof fn lemma_cutting_does_not_matter(p: Seq<char>, pieces1: Seq<Seq<u8>>, pieces2: Seq<Seq<u8>>)
    requires
        !contains_seq(p, event_end()),
        all_valid_utf8(pieces1),
        all_valid_utf8(pieces2),
        pieces1.flatten() == pieces2.flatten(),
    ensures
        feed_all(p, pieces1) == feed_all(p, pieces2),
{
    lemma_feed_all_as_whole(p, pieces1);
    lemma_feed_all_as_whole(p, pieces2);
}

/// The first choice of an event.
pub open spec fn first_choice(raw: StreamEventRaw) -> Option<StreamChoice> {
    match raw.output {
        Some(o) => match o.choices {
            Some(cs) => if cs@.len() > 0 {
                Some(cs@[0])
            } else {
                None
            },
            None => None,
        },
        None => None,
    }
}

pub open spec fn message_content(m: Option<StreamMessage>) -> Option<Seq<char>> {
    match m {
        Some(m) => opt_view(m.content),
        None => None,
    }
}

/// The new text of an event: the first choice's `delta`, else its `message`.
pub open spec fn event_content(raw: StreamEventRaw) -> Option<Seq<char>> {
    match first_choice(raw) {
        Some(c) => match message_content(c.delta) {
            Some(t) => Some(t),
            None => message_content(c.message),
        },
        None => None,
    }
}

pub open spec fn event_finish_reason(raw: StreamEventRaw) -> Option<Seq<char>> {
    match first_choice(raw) {
        Some(c) => opt_view(c.finish_reason),
        None => None,
    }
}

/// Whether an event reports an error: a non-empty `code`.
pub open spec fn event_failed(raw: StreamEventRaw) -> bool {
    raw.code matches Some(c) && c@.len() > 0
}

fn message_text(m: &Option<StreamMessage>) -> (r: Option<String>)
    ensures
        opt_view(r) == message_content(*m),
{
    match m {
        Some(m) => m.content.clone(),
        None => None,
    }
}

/// Turns one decoded event into a chunk, or into the error it reports.
pub fn chunk_from_event(raw: &StreamEventRaw) -> (r: Result<StreamChunk, DashScopeError>)
    ensures
        event_failed(*raw) ==> (r matches Err(DashScopeError::ApiResponseError { code: Some(c), message })
            && Some(c@) == opt_view(raw.code)
            && message@ == (match raw.message {
                Some(m) => m@,
                None => Seq::empty(),
            })),
        !event_failed(*raw) ==> (r matches Ok(ch) && opt_view(ch.content) == event_content(*raw)
            && opt_view(ch.finish_reason) == event_finish_reason(*raw) && ch.usage == raw.usage),
{
    if let Some(code) = &raw.code {
        if !code.as_str().is_empty() {
            let message = match &raw.message {
                Some(m) => m.clone(),
                None => String::new(),
            };
            return Err(DashScopeError::ApiResponseError { code: Some(code.clone()), message });
        }
    }
    let mut content: Option<String> = None;
    let mut finish_reason: Option<String> = None;
    if let Some(o) = &raw.output {
        if let Some(cs) = &o.choices {
            if cs.len() > 0 {
                let c = &cs[0];
                content = match message_text(&c.delta) {
                    Some(t) => Some(t),
                    None => message_text(&c.message),
                };
                finish_reason = c.finish_reason.clone();
            }
        }
    }
    Ok(StreamChunk { content, finish_reason, usage: raw.usage })
}

} // verus!
