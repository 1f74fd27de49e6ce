//! Small string helpers with exact contracts.

use vstd::prelude::*;

verus! {

/// Whether two string slices hold the same characters.
pub fn str_eq(a: &str, b: &str) -> (r: bool)
    ensures
        r == (a@ == b@),
{
    let ca = chars_of(a);
    let cb = chars_of(b);
    if ca.len() != cb.len() {
        return false;
    }
    let mut i: usize = 0;
    while i < ca.len()
        invariant
            ca@ == a@,
            cb@ == b@,
            ca@.len() == cb@.len(),
            i <= ca@.len(),
            forall|k: int| 0 <= k < i ==> ca@[k] == cb@[k],
        decreases ca.len() - i,
    {
        if ca[i] != cb[i] {
            return false;
        }
        i = i + 1;
    }
    assert(ca@ =~= cb@);
    true
}

/// Copies a string slice into an owned `String` (std's `str::to_string`).
pub fn owned(s: &str) -> (r: String)
    ensures
        r@ == s@,
{
    s.to_owned()
}

/// `a` followed by `b`.
pub fn join2(a: &str, b: &str) -> (r: String)
    ensures
        r@ == a@ + b@,
{
    let mut r = a.to_owned();
    r.append(b);
    r
}

/// The characters of a string slice, in order.
pub fn chars_of(s: &str) -> (r: Vec<char>)
    ensures
        r@ == s@,
{
    broadcast use vstd::string::axiom_spec_iter;
    let mut out: Vec<char> = Vec::new();
    for c in it: s.chars()
        invariant
            it.seq() == s@,
            out@ == it.seq().take(it.index()),
    {
        assert(it.seq().take(it.index() + 1) =~= it.seq().take(it.index()).push(c));
        out.push(c);
    }
    assert(out@ =~= s@);
    out
}

/// Appends a character (std's `String::push`).
#[verifier::external_body]
fn push_char(s: &mut String, c: char)
    ensures
        final(s)@ == old(s)@.push(c),
{
    s.push(c);
}

/// The string made of the given characters, in order.
pub fn string_from_chars(cs: &[char]) -> (r: String)
    ensures
        r@ == cs@,
{
    let mut out = String::new();
    let mut i: usize = 0;
    while i < cs.len()
        invariant
            i <= cs@.len(),
            out@ == cs@.take(i as int),
        decreases cs.len() - i,
    {
        push_char(&mut out, cs[i]);
        assert(cs@.take(i + 1) =~= cs@.take(i as int).push(cs@[i as int]));
        i = i + 1;
    }
    assert(cs@.take(i as int) =~= cs@);
    out
}

/// Whether `sub` occurs in `s` at position `i`.
pub open spec fn occurs_at(s: Seq<char>, sub: Seq<char>, i: int) -> bool {
    0 <= i && i + sub.len() <= s.len() && s.subrange(i, i + sub.len()) == sub
}

/// Whether `sub` occurs in `s`.
pub open spec fn contains_seq(s: Seq<char>, sub: Seq<char>) -> bool {
    exists|i: int| occurs_at(s, sub, i)
}

/// Whether the characters `sub` occur in `s` from position `i` on.
fn matches_at(s: &Vec<char>, sub: &Vec<char>, i: usize) -> (r: bool)
    requires
        i + sub@.len() <= s@.len(),
    ensures
        r == (s@.subrange(i as int, i + sub@.len()) == sub@),
{
    let mut j: usize = 0;
    while j < sub.len()
        invariant
            j <= sub@.len(),
            i + sub@.len() <= s@.len(),
            forall|x: int| 0 <= x < j ==> s@[i + x] == sub@[x],
        decreases sub.len() - j,
    {
        assert(i + j < s@.len());
        assert(s@.len() == s.len());
        if s[i + j] != sub[j] {
            assert(s@.subrange(i as int, i + sub@.len())[j as int] != sub@[j as int]);
            return false;
        }
        j = j + 1;
    }
    assert(s@.subrange(i as int, i + sub@.len()) =~= sub@);
    true
}

/// Whether `sub` occurs in `s` (std's `str::contains` with a string pattern).
pub fn contains_str(s: &str, sub: &str) -> (r: bool)
    ensures
        r == contains_seq(s@, sub@),
{
    let cs = chars_of(s);
    let ss = chars_of(sub);
    if ss.len() > cs.len() {
        assert forall|i: int| !occurs_at(s@, sub@, i) by {}
        return false;
    }
    let last = cs.len() - ss.len();
    let mut i: usize = 0;
    while i <= last
        invariant
            last == cs@.len() - ss@.len(),
            cs@ == s@,
            ss@ == sub@,
            forall|x: int| 0 <= x < i ==> !occurs_at(s@, sub@, x),
        decreases last + 1 - i,
    {
        if matches_at(&cs, &ss, i) {
            assert(occurs_at(s@, sub@, i as int));
            return true;
        }
        if i == last {
            assert forall|x: int| !occurs_at(s@, sub@, x) by {
                if 0 <= x <= last {
                    if x < i {
                    }
                }
            }
            return false;
        }
        i = i + 1;
    }
    false
}

/// The position of the first occurrence of `sub` in `s`.
pub open spec fn first_occurrence(s: Seq<char>, sub: Seq<char>, i: int) -> bool {
    occurs_at(s, sub, i) && forall|x: int| 0 <= x < i ==> !occurs_at(s, sub, x)
}

/// Where `sub` first occurs in the characters `cs` (std's `str::find`, by character).
pub fn find_chars(cs: &Vec<char>, sub: &Vec<char>) -> (r: Option<usize>)
    ensures
        match r {
            Some(i) => first_occurrence(cs@, sub@, i as int),
            None => !contains_seq(cs@, sub@),
        },
{
    if sub.len() > cs.len() {
        assert forall|i: int| !occurs_at(cs@, sub@, i) by {}
        return None;
    }
    let last = cs.len() - sub.len();
    let mut i: usize = 0;
    while i <= last
        invariant
            last == cs@.len() - sub@.len(),
            forall|x: int| 0 <= x < i ==> !occurs_at(cs@, sub@, x),
        decreases last + 1 - i,
    {
        if matches_at(cs, sub, i) {
            return Some(i);
        }
        if i == last {
            assert forall|x: int| !occurs_at(cs@, sub@, x) by {}
            return None;
        }
        i = i + 1;
    }
    None
}

/// The characters of `cs` from `start` up to `end`, as a string.
pub fn substring(cs: &Vec<char>, start: usize, end: usize) -> (r: String)
    requires
        start <= end <= cs@.len(),
    ensures
        r@ == cs@.subrange(start as int, end as int),
{
    let mut out: Vec<char> = Vec::new();
    let mut i: usize = start;
    while i < end
        invariant
            start <= i <= end <= cs@.len(),
            out@ == cs@.subrange(start as int, i as int),
        decreases end - i,
    {
        out.push(cs[i]);
        assert(cs@.subrange(start as int, i + 1) =~= cs@.subrange(start as int, i as int).push(cs@[i as int]));
        i = i + 1;
    }
    string_from_chars(out.as_slice())
}

/// The characters with Unicode's `White_Space` property, which is what
/// std's `char::is_whitespace` tests.
pub open spec fn is_ws(c: char) -> bool {
    ||| ('\u{9}' <= c && c <= '\u{d}')
    ||| c == ' '
    ||| c == '\u{85}'
    ||| c == '\u{a0}'
    ||| c == '\u{1680}'
    ||| ('\u{2000}' <= c && c <= '\u{200a}')
    ||| c == '\u{2028}'
    ||| c == '\u{2029}'
    ||| c == '\u{202f}'
    ||| c == '\u{205f}'
    ||| c == '\u{3000}'
}

/// Whether `c` has the `White_Space` property.
fn char_is_whitespace(c: char) -> (r: bool)
    ensures
        r == is_ws(c),
{
    ('\u{9}' <= c && c <= '\u{d}') || c == ' ' || c == '\u{85}' || c == '\u{a0}' || c == '\u{1680}'
        || ('\u{2000}' <= c && c <= '\u{200a}') || c == '\u{2028}' || c == '\u{2029}' || c == '\u{202f}'
        || c == '\u{205f}' || c == '\u{3000}'
}

/// `s` without its leading white space.
pub open spec fn trim_start(s: Seq<char>) -> Seq<char>
    decreases s.len(),
{
    if s.len() > 0 && is_ws(s[0]) {
        trim_start(s.drop_first())
    } else {
        s
    }
}

/// `s` without its trailing white space.
pub open spec fn trim_end(s: Seq<char>) -> Seq<char>
    decreases s.len(),
{
    if s.len() > 0 && is_ws(s.last()) {
        trim_end(s.drop_last())
    } else {
        s
    }
}

/// `s` without leading and trailing white space (std's `str::trim`).
pub open spec fn trimmed(s: Seq<char>) -> Seq<char> {
    trim_end(trim_start(s))
}

/// `str::trim`: the string without leading and trailing white space.
pub fn trim(s: &str) -> (r: String)
    ensures
        r@ == trimmed(s@),
{
    let cs = chars_of(s);
    let mut start: usize = 0;
    assert(cs@.skip(0) =~= cs@);
    while start < cs.len() && char_is_whitespace(cs[start])
        invariant
            start <= cs@.len(),
            trim_start(cs@) == trim_start(cs@.skip(start as int)),
        decreases cs.len() - start,
    {
        assert(cs@.skip(start as int).drop_first() =~= cs@.skip(start + 1));
        start = start + 1;
    }
    let ghost rest = cs@.skip(start as int);
    assert(trim_start(rest) == rest);
    let mut end: usize = cs.len();
    assert(cs@.subrange(start as int, end as int) =~= rest);
    while end > start && char_is_whitespace(cs[end - 1])
        invariant
            start <= end <= cs@.len(),
            trim_end(rest) == trim_end(cs@.subrange(start as int, end as int)),
        decreases end - start,
    {
        assert(cs@.subrange(start as int, end as int).drop_last()
            =~= cs@.subrange(start as int, end - 1));
        end = end - 1;
    }
    let ghost kept = cs@.subrange(start as int, end as int);
    assert(trim_end(kept) == kept);
    substring(&cs, start, end)
}

/// Whether `s` begins with `p`.
pub open spec fn has_prefix(s: Seq<char>, p: Seq<char>) -> bool {
    p.len() <= s.len() && s.take(p.len() as int) == p
}

/// `str::strip_prefix`: what follows `prefix` where `s` begins with it.
pub fn after_prefix(s: &str, prefix: &str) -> (r: Option<String>)
    ensures
        match r {
            Some(t) => has_prefix(s@, prefix@) && t@ == s@.skip(prefix@.len() as int),
            None => !has_prefix(s@, prefix@),
        },
{
    let cs = chars_of(s);
    let ps = chars_of(prefix);
    if ps.len() > cs.len() {
        return None;
    }
    if matches_at(&cs, &ps, 0) {
        assert(cs@.subrange(0, ps@.len() as int) =~= cs@.take(ps@.len() as int));
        let n = cs.len();
        let t = substring(&cs, ps.len(), n);
        assert(cs@.subrange(ps@.len() as int, n as int) =~= cs@.skip(ps@.len() as int));
        Some(t)
    } else {
        assert(cs@.subrange(0, ps@.len() as int) =~= cs@.take(ps@.len() as int));
        None
    }
}

} // verus!
