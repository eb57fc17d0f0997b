use serde_json::Value;
use term_cat::agent::{BuiltinTool, EchoTool, NowTool};

fn json(text: &str) -> Value {
    serde_json::from_str::<Value>(text).expect("test JSON parses")
}

#[test]
fn echo_tool_returns_args_unchanged() {
    let tool = EchoTool;
    let args = json("{\"message\": \"hello world\"}");
    let result = tool.call(args.clone());
    assert_eq!(result, args, "echo result");
}

#[test]
fn echo_tool_definition_has_expected_name() {
    let tool = EchoTool;
    assert_eq!(tool.name(), "echo", "echo def name");
}

#[test]
fn now_tool_definition_has_expected_name() {
    let tool = NowTool;
    assert_eq!(tool.name(), "now", "now def name");
}

#[test]
fn builtin_tool_echo_definition_is_echos() {
    let tool = BuiltinTool::Echo(EchoTool);
    assert_eq!(tool.name(), "echo", "BuiltinTool::Echo definition name");
}

#[test]
fn builtin_tool_now_definition_is_nows() {
    let tool = BuiltinTool::Now(NowTool);
    assert_eq!(tool.name(), "now", "BuiltinTool::Now definition name");
}

#[test]
fn now_result_reports_the_reading_under_unix_timestamp() {
    let result = NowTool.result_for(1_700_000_000);
    let ts = result.get("unix_timestamp").expect("unix_timestamp present");
    assert!(ts.is_u64(), "unix_timestamp is u64");
    assert_eq!(ts.as_u64(), Some(1_700_000_000u64));
    assert_eq!(result.as_object().map(|m| m.len()), Some(1usize));
}

#[test]
fn descriptions_match_the_tools() {
    assert_eq!(
        EchoTool.description(),
        "Echo the JSON arguments back to the caller unchanged.  Useful as a smoke test."
    );
    assert_eq!(
        BuiltinTool::Now(NowTool).description(),
        "Return the current time as a Unix timestamp (seconds since 1970-01-01 UTC)."
    );
    assert_eq!(NowTool.result_field(), "unix_timestamp");
}

#[test]
fn now_result_text_is_compact_json() {
    assert_eq!(NowTool.result_for(42).to_string(), "{\"unix_timestamp\":42}");
}
