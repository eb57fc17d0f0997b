use term_cat::agent::{PendingCall, ToolCallAccumulator};
use term_cat::newtype::{MessageBody, ToolCallId, ToolCallIndex, ToolName};

fn call_at(pending: &[PendingCall], idx: usize) -> Option<&PendingCall> {
    pending.get(idx)
}

#[test]
fn empty_accumulator_is_empty() {
    let acc = ToolCallAccumulator::empty();
    assert!(acc.is_empty(), "empty accumulator");
}

#[test]
fn add_start_creates_one_pending() {
    let acc = ToolCallAccumulator::empty().add_start(
        ToolCallIndex::new(0),
        ToolCallId::new("call_0"),
        ToolName::new("echo"),
    );
    let pending = acc.finalize();
    assert_eq!(pending.len(), 1usize, "pending count");
    let first = call_at(&pending, 0).expect("missing first pending");
    assert_eq!(first.id().as_str(), "call_0", "first id");
    assert_eq!(first.name().as_str(), "echo", "first name");
    assert_eq!(first.args_buf(), "", "first args (empty)");
}

#[test]
fn add_args_concatenates_under_same_index() {
    let acc = ToolCallAccumulator::empty()
        .add_start(ToolCallIndex::new(0), ToolCallId::new("c0"), ToolName::new("echo"))
        .add_args(ToolCallIndex::new(0), MessageBody::new("{\"msg\":"))
        .add_args(ToolCallIndex::new(0), MessageBody::new("\"hi\"}"));
    let pending = acc.finalize();
    let first = call_at(&pending, 0).expect("missing first pending");
    assert_eq!(first.args_buf(), "{\"msg\":\"hi\"}", "concatenated args");
}

#[test]
fn add_args_to_unknown_index_is_noop() {
    let acc = ToolCallAccumulator::empty()
        .add_start(ToolCallIndex::new(0), ToolCallId::new("c0"), ToolName::new("echo"))
        .add_args(ToolCallIndex::new(99), MessageBody::new("ignored"));
    let pending = acc.finalize();
    assert_eq!(pending.len(), 1usize, "still one pending");
    let first = call_at(&pending, 0).expect("missing first pending");
    assert_eq!(first.args_buf(), "", "args still empty");
}

#[test]
fn multi_index_interleaved_args() {
    let acc = ToolCallAccumulator::empty()
        .add_start(ToolCallIndex::new(0), ToolCallId::new("c0"), ToolName::new("echo"))
        .add_start(ToolCallIndex::new(1), ToolCallId::new("c1"), ToolName::new("now"))
        .add_args(ToolCallIndex::new(0), MessageBody::new("foo"))
        .add_args(ToolCallIndex::new(1), MessageBody::new("bar"))
        .add_args(ToolCallIndex::new(0), MessageBody::new("baz"));
    let pending = acc.finalize();
    assert_eq!(pending.len(), 2usize, "two pending");
    let first = call_at(&pending, 0).expect("missing first pending");
    let second = call_at(&pending, 1).expect("missing second pending");
    assert_eq!(first.args_buf(), "foobaz", "index 0 args");
    assert_eq!(second.args_buf(), "bar", "index 1 args");
}

#[test]
fn finalize_preserves_stream_order() {
    let acc = ToolCallAccumulator::empty()
        .add_start(ToolCallIndex::new(0), ToolCallId::new("c0"), ToolName::new("first"))
        .add_start(ToolCallIndex::new(1), ToolCallId::new("c1"), ToolName::new("second"))
        .add_start(ToolCallIndex::new(2), ToolCallId::new("c2"), ToolName::new("third"));
    let pending = acc.finalize();
    assert_eq!(pending.len(), 3usize, "three pending");
    let names: Vec<String> = pending.iter().map(|c| c.name().as_str().to_owned()).collect();
    assert_eq!(
        names,
        vec!["first".to_owned(), "second".to_owned(), "third".to_owned()],
        "stream order"
    );
}

#[test]
fn to_wire_round_trips_fields() {
    let acc = ToolCallAccumulator::empty()
        .add_start(ToolCallIndex::new(0), ToolCallId::new("call_42"), ToolName::new("greet"))
        .add_args(ToolCallIndex::new(0), MessageBody::new("{\"name\":\"x\"}"));
    let pending = acc.finalize();
    let first = call_at(&pending, 0).expect("missing first pending");
    let wire = first.to_wire();
    assert_eq!(wire.id().as_str(), "call_42", "wire id");
    assert_eq!(wire.function().name().as_str(), "greet", "wire fn name");
    assert_eq!(wire.function().arguments(), "{\"name\":\"x\"}", "wire arguments");
}

#[test]
fn args_before_start_are_dropped() {
    let acc = ToolCallAccumulator::empty()
        .add_args(ToolCallIndex::new(0), MessageBody::new("early"))
        .add_start(ToolCallIndex::new(0), ToolCallId::new("c0"), ToolName::new("echo"))
        .add_args(ToolCallIndex::new(0), MessageBody::new("late"));
    let pending = acc.finalize();
    assert_eq!(pending.len(), 1usize);
    assert_eq!(pending[0].args_buf(), "late");
}

#[test]
fn non_empty_accumulator_is_not_empty() {
    let acc = ToolCallAccumulator::empty().add_start(
        ToolCallIndex::new(3),
        ToolCallId::new("c3"),
        ToolName::new("echo"),
    );
    assert!(!acc.is_empty());
}
