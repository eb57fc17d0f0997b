use term_cat::error::{decimal_text, error_of_fiber_failure, FiberFailure};
use term_cat::{BridgeError, Error, ProviderError, SseError, TuiError, WireError};

#[test]
fn messages_name_the_subsystem() {
    let e = Error::Wire(WireError::UnknownFinishReason("weird".to_owned()));
    assert_eq!(e.to_string(), "wire: unknown finish_reason: weird");
    let e = Error::Provider(ProviderError::Status { code: 404, body: "missing".to_owned() });
    assert_eq!(e.to_string(), "provider: status 404: missing");
    let e = Error::Bridge(BridgeError::SendDisconnected);
    assert_eq!(e.to_string(), "bridge: channel receiver disconnected");
    let e = Error::Sse(SseError::UnexpectedLine("x".to_owned()));
    assert_eq!(e.to_string(), "sse: unexpected SSE line: x");
    assert_eq!(WireError::UnknownRole("r".to_owned()).to_string(), "unknown role: r");
    assert_eq!(BridgeError::FiberPanicked("p".to_owned()).to_string(), "fiber panicked: p");
}

#[test]
fn wrapped_outside_errors_keep_their_text() {
    let io = std::io::Error::new(std::io::ErrorKind::Other, "disk gone");
    assert_eq!(Error::Tui(TuiError::Io(io)).to_string(), "tui: io: disk gone");
    let json_err = serde_json::from_str::<serde_json::Value>("{").expect_err("invalid json");
    let text = Error::Wire(WireError::Decode(json_err)).to_string();
    assert!(text.starts_with("wire: decode: "));
    assert!(text.len() > "wire: decode: ".len());
}

#[test]
fn decimal_text_writes_digits() {
    assert_eq!(decimal_text(0), "0");
    assert_eq!(decimal_text(7), "7");
    assert_eq!(decimal_text(200), "200");
    assert_eq!(decimal_text(65535), "65535");
}

#[test]
fn fiber_failures_map_to_bridge_errors() {
    match error_of_fiber_failure(FiberFailure::Panicked("boom".to_owned())) {
        Error::Bridge(BridgeError::FiberPanicked(s)) => assert_eq!(s, "boom"),
        other => panic!("unexpected {other:?}"),
    }
    match error_of_fiber_failure(FiberFailure::Failed(Error::Bridge(BridgeError::SendDisconnected))) {
        Error::Bridge(BridgeError::SendDisconnected) => {}
        other => panic!("unexpected {other:?}"),
    }
    let io = std::io::Error::new(std::io::ErrorKind::Other, "no threads");
    match error_of_fiber_failure(FiberFailure::SpawnFailed(io)) {
        Error::Bridge(BridgeError::FiberSpawn(e)) => assert_eq!(e.to_string(), "no threads"),
        other => panic!("unexpected {other:?}"),
    }
}
