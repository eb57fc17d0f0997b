use term_cat::agent::ChatEvent;
use term_cat::newtype::{FinishReason, MessageBody};
use term_cat::sse::{LineKind, SseStep, classify, sse_next};

fn data(line: &str) -> Option<String> {
    match classify(line) {
        LineKind::Data(s) => Some(s),
        LineKind::Done | LineKind::SkipLine => None,
    }
}

#[test]
fn data_line_carries_its_payload() {
    assert_eq!(data("data: {\"choices\":[]}\n"), Some("{\"choices\":[]}".to_owned()));
    assert_eq!(data("data:{\"a\":1}\r\n"), Some("{\"a\":1}".to_owned()));
}

#[test]
fn done_sentinel_ends_the_stream() {
    assert!(matches!(classify("data: [DONE]\n"), LineKind::Done));
    assert!(matches!(classify("data:[DONE]"), LineKind::Done));
    assert!(matches!(classify("data:   [DONE]\r\n"), LineKind::Done));
}

#[test]
fn blank_comment_and_other_fields_are_skipped() {
    assert!(matches!(classify("\n"), LineKind::SkipLine));
    assert!(matches!(classify("\r\n"), LineKind::SkipLine));
    assert!(matches!(classify(""), LineKind::SkipLine));
    assert!(matches!(classify(": keep-alive\n"), LineKind::SkipLine));
    assert!(matches!(classify("event: message\n"), LineKind::SkipLine));
    assert!(matches!(classify("dat: x\n"), LineKind::SkipLine));
}

#[test]
fn payload_keeps_trailing_spaces_and_inner_text() {
    assert_eq!(data("data: [DONE] \n"), Some("[DONE] ".to_owned()));
    assert_eq!(data("data: \n"), Some(String::new()));
}

#[test]
fn buffered_events_go_out_first_in_order() {
    let buf = vec![
        ChatEvent::Token(MessageBody::new("a")),
        ChatEvent::Finished(FinishReason::Stop),
    ];
    match sse_next(buf, true) {
        SseStep::Emit(ChatEvent::Token(b), rest) => {
            assert_eq!(b.as_str(), "a");
            assert_eq!(rest.len(), 1);
            assert!(matches!(rest[0], ChatEvent::Finished(FinishReason::Stop)));
        }
        _ => panic!("expected the first buffered token"),
    }
}

#[test]
fn empty_buffer_reads_or_stops_on_cancel() {
    assert!(matches!(sse_next(Vec::new(), false), SseStep::ReadLine));
    assert!(matches!(sse_next(Vec::new(), true), SseStep::Stop));
}

#[test]
fn payload_leading_whitespace_of_any_kind_is_trimmed() {
    assert_eq!(data("data:\t{}\n"), Some("{}".to_owned()));
    assert!(matches!(classify("data:\u{A0}[DONE]\n"), LineKind::Done));
}
