use uni_llm::error::DashScopeError;
use uni_llm::response::Usage;
use uni_llm::stream::{
    chunk_from_event, split_sse_event, sse_data, SseBuffer, StreamChoice, StreamEventRaw, StreamMessage,
    StreamOutput,
};
use uni_llm::text::{after_prefix, trim};

#[test]
fn split_at_the_first_blank_line() {
    assert_eq!(
        split_sse_event("data: a\n\ndata: b\n\nrest"),
        Some(("data: a".to_string(), "data: b\n\nrest".to_string()))
    );
    assert_eq!(split_sse_event("\n\n"), Some((String::new(), String::new())));
    assert_eq!(split_sse_event("data: a\ndata: b\n"), None);
    assert_eq!(split_sse_event(""), None);
    assert_eq!(split_sse_event("é\n\nü"), Some(("é".to_string(), "ü".to_string())));
}

#[test]
fn payload_of_an_event() {
    assert_eq!(sse_data("data: {\"a\":1}").as_deref(), Some("{\"a\":1}"));
    assert_eq!(sse_data("  data:x  \r").as_deref(), Some("x"));
    assert_eq!(sse_data("data: [DONE]"), None);
    assert_eq!(sse_data("data:   "), None);
    assert_eq!(sse_data(""), None);
    assert_eq!(sse_data("event: ping"), None);
    assert_eq!(sse_data(": comment"), None);
    assert_eq!(sse_data("id: 1\ndata: x").as_deref(), Some("x"));
}

#[test]
fn payload_of_a_multi_line_event() {
    let event = "id:1\nevent:result\ndata:{\"output\":{\"choices\":[{\"message\":{\"content\":\"Hi\"}}]}}";
    assert_eq!(
        sse_data(event).as_deref(),
        Some("{\"output\":{\"choices\":[{\"message\":{\"content\":\"Hi\"}}]}}")
    );
    assert_eq!(sse_data("data: a\r\n: note\ndata: b").as_deref(), Some("a\nb"));
    assert_eq!(sse_data("event: ping\nid: 7"), None);
    assert_eq!(sse_data("id: 2\ndata: [DONE]"), None);
    assert_eq!(sse_data("data:\ndata:").as_deref(), Some("\n"));
    assert_eq!(sse_data("data:\nid: 1"), None);
}

fn drain_all(chunks: &[&[u8]]) -> (Vec<String>, String) {
    let mut b = SseBuffer::new();
    let mut events = Vec::new();
    for c in chunks {
        b.push_bytes(c);
        while let Some(e) = b.next_event() {
            events.push(e);
        }
    }
    (events, b.pending.clone())
}

#[test]
fn events_do_not_depend_on_how_the_body_is_cut() {
    let body = "id:1\ndata: é1\n\ndata: two\n\n: c\n\ndata: tail".as_bytes();
    let whole = drain_all(&[body]);
    assert_eq!(whole.0, vec!["id:1\ndata: é1", "data: two", ": c"]);
    assert_eq!(whole.1, "data: tail");
    for cut in 0..=body.len() {
        if std::str::from_utf8(&body[..cut]).is_ok() {
            assert_eq!(drain_all(&[&body[..cut], &body[cut..]]), whole, "cut at {}", cut);
            assert_eq!(feed_all(&[&body[..cut], &body[cut..]]), whole, "cut at {}", cut);
        }
    }
    let pieces: Vec<&[u8]> = body.split_inclusive(|b| *b == b'\n').collect();
    assert_eq!(feed_all(&pieces), whole);
}

fn feed_all(chunks: &[&[u8]]) -> (Vec<String>, String) {
    let mut b = SseBuffer::new();
    let mut events = Vec::new();
    for c in chunks {
        events.extend(b.feed(c));
    }
    (events, b.pending.clone())
}

#[test]
fn feed_takes_out_complete_events() {
    let mut b = SseBuffer::new();
    assert!(b.feed(b"data: a\n").is_empty());
    assert_eq!(b.feed(b"\ndata: b\n\ndata: c"), vec!["data: a".to_string(), "data: b".to_string()]);
    assert_eq!(b.pending, "data: c");
    assert!(b.feed(&[0xff]).is_empty());
    assert_eq!(b.pending, "data: c\u{fffd}");
}

#[test]
fn trim_and_prefix_follow_std() {
    for s in ["", "  a b  ", "\u{3000}x\u{a0}", "\t\n", "x", " \u{200b} "] {
        assert_eq!(trim(s), s.trim(), "{:?}", s);
    }
    assert_eq!(after_prefix("data:x", "data:").as_deref(), Some("x"));
    assert_eq!(after_prefix("dat", "data:"), None);
    assert_eq!(after_prefix("data:", "data:").as_deref(), Some(""));
}

#[test]
fn buffer_yields_events_across_reads() {
    let mut b = SseBuffer::new();
    b.push_text("data: one\n");
    assert_eq!(b.next_event(), None);
    b.push_text("\ndata: two\n\ndata: th");
    assert_eq!(b.next_event().as_deref(), Some("data: one"));
    assert_eq!(b.next_event().as_deref(), Some("data: two"));
    assert_eq!(b.next_event(), None);
    assert_eq!(b.pending, "data: th");
    b.push_bytes("ree\n\n".as_bytes());
    assert_eq!(b.next_event().as_deref(), Some("data: three"));
    assert_eq!(b.pending, "");
}

#[test]
fn buffer_replaces_ill_formed_bytes() {
    let mut b = SseBuffer::new();
    b.push_bytes(&[b'a', 0xff, b'b']);
    assert_eq!(b.pending, "a\u{fffd}b");
    b.push_bytes("é".as_bytes());
    assert_eq!(b.pending, "a\u{fffd}bé");
}

fn event(code: Option<&str>, message: Option<&str>, choices: Option<Vec<StreamChoice>>) -> StreamEventRaw {
    StreamEventRaw {
        output: Some(StreamOutput { choices }),
        usage: Some(Usage { input_tokens: Some(3), output_tokens: Some(4), total_tokens: Some(7) }),
        code: code.map(|s| s.to_string()),
        message: message.map(|s| s.to_string()),
    }
}

fn msg(text: Option<&str>) -> Option<StreamMessage> {
    Some(StreamMessage { content: text.map(|s| s.to_string()) })
}

#[test]
fn chunk_takes_delta_then_message() {
    let e = event(None, None, Some(vec![StreamChoice { message: msg(Some("m")), delta: msg(Some("d")), finish_reason: None }]));
    let c = chunk_from_event(&e).unwrap();
    assert_eq!(c.content.as_deref(), Some("d"));
    assert!(c.finish_reason.is_none());
    assert_eq!(c.usage.unwrap().total_tokens, Some(7));
    let e2 = event(
        Some(""),
        None,
        Some(vec![StreamChoice { message: msg(Some("m")), delta: msg(None), finish_reason: Some("stop".to_string()) }]),
    );
    let c2 = chunk_from_event(&e2).unwrap();
    assert_eq!(c2.content.as_deref(), Some("m"));
    assert_eq!(c2.finish_reason.as_deref(), Some("stop"));
    let e3 = event(None, None, Some(vec![]));
    let c3 = chunk_from_event(&e3).unwrap();
    assert!(c3.content.is_none() && c3.finish_reason.is_none());
}

#[test]
fn chunk_reports_the_error_code() {
    match chunk_from_event(&event(Some("Throttling"), Some("slow down"), None)) {
        Err(DashScopeError::ApiResponseError { code, message }) => {
            assert_eq!(code.as_deref(), Some("Throttling"));
            assert_eq!(message, "slow down");
        },
        other => panic!("unexpected {:?}", other),
    }
    match chunk_from_event(&event(Some("X"), None, None)) {
        Err(DashScopeError::ApiResponseError { message, .. }) => assert_eq!(message, ""),
        other => panic!("unexpected {:?}", other),
    }
}
