//! DashScope response types.

use vstd::prelude::*;
use crate::request::MediaElement;
use crate::text::chars_of;

verus! {

/// The content of a reply: plain text, or elements (VL and audio models).
#[derive(Debug, Clone)]
pub enum ResponseContent {
    Text(String),
    Multimodal(Vec<MediaElement>),
}

/// The message of a choice.
#[derive(Debug, Clone)]
pub struct ResponseMessage {
    /// Always `assistant`.
    pub role: String,
    pub content: Option<ResponseContent>,
}

/// One generated choice.
#[derive(Debug, Clone)]
pub struct Choice {
    /// Why generation stopped: `stop`, `length`, `tool_calls`, ...
    pub finish_reason: Option<String>,
    pub message: ResponseMessage,
}

/// The output: `text` when the result format is text, `choices` when it is message.
#[derive(Debug, Clone)]
pub struct Output {
    pub text: Option<String>,
    pub finish_reason: Option<String>,
    pub choices: Option<Vec<Choice>>,
}

/// Tokens counted by the service.
#[derive(Debug, Clone, Copy, PartialEq, Eq, Structural)]
pub struct Usage {
    pub input_tokens: Option<u32>,
    pub output_tokens: Option<u32>,
    /// Total (for plain text).
    pub total_tokens: Option<u32>,
}

/// A status code as the service may send it: a number or a string.
#[derive(Debug, Clone)]
pub enum StatusCodeValue {
    Num(u16),
    Str(String),
}

/// The JSON answer as it comes.
#[derive(Debug, Clone)]
pub struct GenerationResponseRaw {
    /// 200 on success.
    pub status_code: Option<u16>,
    pub request_id: Option<String>,
    /// Error code; empty on success.
    pub code: Option<String>,
    pub message: Option<String>,
    pub output: Option<Output>,
    pub usage: Option<Usage>,
}

/// A successful answer.
#[derive(Debug, Clone)]
pub struct GenerationResponse {
    pub request_id: Option<String>,
    pub output: Output,
    pub usage: Option<Usage>,
}

/// The text of the first element that has one, else empty.
pub open spec fn first_element_text(es: Seq<MediaElement>) -> Seq<char>
    decreases es.len(),
{
    if es.len() == 0 {
        Seq::empty()
    } else {
        match es[0].text {
            Some(t) => t@,
            None => first_element_text(es.drop_first()),
        }
    }
}

/// The text of an answer: `output.text`, else the content of the first choice.
pub open spec fn output_text(o: Output) -> Option<Seq<char>> {
    match o.text {
        Some(t) => Some(t@),
        None => match o.choices {
            Some(cs) => if cs@.len() > 0 {
                match cs@[0].message.content {
                    Some(ResponseContent::Text(s)) => Some(s@),
                    Some(ResponseContent::Multimodal(es)) => Some(first_element_text(es@)),
                    None => None,
                }
            } else {
                None
            },
            None => None,
        },
    }
}

impl GenerationResponse {
    /// The text of the answer.
    pub fn text(&self) -> (r: Option<String>)
        ensures
            match r {
                Some(t) => output_text(self.output) == Some(t@),
                None => output_text(self.output) is None,
            },
    {
        if let Some(t) = &self.output.text {
            return Some(t.clone());
        }
        match &self.output.choices {
            Some(cs) => if cs.len() > 0 {
                match &cs[0].message.content {
                    Some(ResponseContent::Text(s)) => Some(s.clone()),
                    Some(ResponseContent::Multimodal(es)) => {
                        let mut i: usize = 0;
                        assert(es@.skip(0) =~= es@);
                        while i < es.len()
                            invariant
                                i <= es@.len(),
                                output_text(self.output) == Some(first_element_text(es@)),
                                first_element_text(es@) == first_element_text(es@.skip(i as int)),
                            decreases es.len() - i,
                        {
                            assert(es@.skip(i as int)[0] == es@[i as int]);
                            if let Some(t) = &es[i].text {
                                assert(es@[i as int].text == Some(*t));
                                assert(first_element_text(es@.skip(i as int)) == t@);
                                return Some(t.clone());
                            }
                            assert(es@.skip(i as int).drop_first() =~= es@.skip(i + 1));
                            i = i + 1;
                        }
                        Some(String::new())
                    },
                    None => None,
                }
            } else {
                None
            },
            None => None,
        }
    }
}

/// The value of a string of decimal digits.
pub open spec fn digits_value(s: Seq<char>) -> int
    decreases s.len(),
{
    if s.len() == 0 {
        0
    } else {
        digits_value(s.drop_last()) * 10 + (s.last() as int - '0' as int)
    }
}

pub open spec fn all_digits(s: Seq<char>) -> bool {
    forall|i: int| 0 <= i < s.len() ==> '0' <= #[trigger] s[i] <= '9'
}

/// A `u16` written in decimal, with an optional leading `+`, as std's
/// `str::parse::<u16>` reads it.
pub open spec fn u16_text(s: Seq<char>) -> Option<u16> {
    let d = if s.len() > 0 && s[0] == '+' {
        s.drop_first()
    } else {
        s
    };
    if d.len() > 0 && all_digits(d) && digits_value(d) <= u16::MAX {
        Some(digits_value(d) as u16)
    } else {
        None
    }
}

pub proof fn lemma_digits_value_nonneg(s: Seq<char>)
    requires
        all_digits(s),
    ensures
        digits_value(s) >= 0,
    decreases s.len(),
{
    if s.len() > 0 {
        lemma_digits_value_nonneg(s.drop_last());
    }
}

/// Reads a status code written as a string.
pub fn parse_u16_text(s: &str) -> (r: Option<u16>)
    ensures
        r == u16_text(s@),
{
    let cs = chars_of(s);
    let start: usize = if cs.len() > 0 && cs[0] == '+' {
        1
    } else {
        0
    };
    let ghost d = cs@.skip(start as int);
    assert(d == if s@.len() > 0 && s@[0] == '+' {
        s@.drop_first()
    } else {
        s@
    });
    if start == cs.len() {
        return None;
    }
    let mut value: u32 = 0;
    let mut i: usize = start;
    assert(d.take(0) =~= Seq::<char>::empty());
    while i < cs.len()
        invariant
            start <= i <= cs@.len(),
            start < cs@.len(),
            cs@ == s@,
            d == cs@.skip(start as int),
            d == if s@.len() > 0 && s@[0] == '+' {
                s@.drop_first()
            } else {
                s@
            },
            all_digits(d.take(i - start)),
            value == digits_value(d.take(i - start)),
            value <= u16::MAX,
        decreases cs.len() - i,
    {
        let c = cs[i];
        let ghost t = d.take(i + 1 - start);
        assert(t.drop_last() =~= d.take(i - start));
        assert(t.last() == c);
        if c < '0' || c > '9' {
            assert(!all_digits(d)) by {
                assert(d[i - start] == c);
            }
            return None;
        }
        let digit = (c as u32) - ('0' as u32);
        let next = value * 10 + digit;
        if next > 65535 {
            proof {
                if all_digits(d) {
                    lemma_digits_prefix_grows(d, i + 1 - start);
                }
            }
            return None;
        }
        value = next;
        i = i + 1;
    }
    assert(d.take(i - start) =~= d);
    Some(value as u16)
}

/// A string of digits is worth at least any of its prefixes.
pub proof fn lemma_digits_prefix_grows(d: Seq<char>, k: int)
    requires
        0 <= k <= d.len(),
        all_digits(d),
    ensures
        digits_value(d) >= digits_value(d.take(k)),
    decreases d.len() - k,
{
    if k < d.len() {
        lemma_digits_prefix_grows(d, k + 1);
        let t = d.take(k + 1);
        assert(t.drop_last() =~= d.take(k));
        assert('0' <= d[k] <= '9');
        lemma_digits_value_nonneg(d.take(k));
    } else {
        assert(d.take(k) =~= d);
    }
}

/// The status code of a raw answer: a number as it is, a string read as a
/// `u16`. `Err` carries a string that is not one.
pub fn status_code_of(v: Option<StatusCodeValue>) -> (r: Result<Option<u16>, String>)
    ensures
        match v {
            None => r == Ok::<Option<u16>, String>(None),
            Some(StatusCodeValue::Num(n)) => r == Ok::<Option<u16>, String>(Some(n)),
            Some(StatusCodeValue::Str(s)) => match u16_text(s@) {
                Some(n) => r == Ok::<Option<u16>, String>(Some(n)),
                None => r == Err::<Option<u16>, String>(s),
            },
        },
{
    match v {
        None => Ok(None),
        Some(StatusCodeValue::Num(n)) => Ok(Some(n)),
        Some(StatusCodeValue::Str(s)) => match parse_u16_text(s.as_str()) {
            Some(n) => Ok(Some(n)),
            None => Err(s),
        },
    }
}

} // verus!
