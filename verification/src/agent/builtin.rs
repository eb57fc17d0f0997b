//! The tools shipped with the client: `echo`, which hands its arguments
//! back, and `now`, which reports the current Unix time.  This module holds
//! what identifies each tool and what `echo` computes; reading the clock and
//! describing the tools to the model happen at the edge of the program.

use vstd::prelude::*;
use crate::json::{json_object_u64, json_text_of, plain_key};
use crate::text::decimal;

verus! {

/// The name the model calls `echo` by.
pub open spec fn echo_name() -> Seq<char> {
    "echo"@
}

/// The name the model calls `now` by.
pub open spec fn now_name() -> Seq<char> {
    "now"@
}

/// What the model is told `echo` does.
pub open spec fn echo_description() -> Seq<char> {
    "Echo the JSON arguments back to the caller unchanged.  Useful as a smoke test."@
}

/// What the model is told `now` does.
pub open spec fn now_description() -> Seq<char> {
    "Return the current time as a Unix timestamp (seconds since 1970-01-01 UTC)."@
}

/// The field under which `now` reports the time.
pub open spec fn timestamp_field() -> Seq<char> {
    "unix_timestamp"@
}

/// Echoes the JSON value it was given back as the tool's result.
#[derive(Debug, Clone, Copy)]
pub struct EchoTool;

/// Reports the current Unix timestamp as `{"unix_timestamp": <u64>}`.
#[derive(Debug, Clone, Copy)]
pub struct NowTool;

/// The built-in tools, dispatched by variant.
#[derive(Debug, Clone, Copy)]
pub enum BuiltinTool {
    Echo(EchoTool),
    Now(NowTool),
}

impl EchoTool {
    /// The tool's name.
    pub fn name(&self) -> (r: String)
        ensures
            r@ == echo_name(),
    {
        "echo".to_owned()
    }

    /// The tool's description.
    pub fn description(&self) -> (r: String)
        ensures
            r@ == echo_description(),
    {
        "Echo the JSON arguments back to the caller unchanged.  Useful as a smoke test.".to_owned()
    }

    /// Run the tool: the arguments are the result.
    pub fn call(&self, args: serde_json::Value) -> (r: serde_json::Value)
        ensures
            r == args,
    {
        args
    }
}

impl NowTool {
    /// The tool's name.
    pub fn name(&self) -> (r: String)
        ensures
            r@ == now_name(),
    {
        "now".to_owned()
    }

    /// The tool's description.
    pub fn description(&self) -> (r: String)
        ensures
            r@ == now_description(),
    {
        "Return the current time as a Unix timestamp (seconds since 1970-01-01 UTC).".to_owned()
    }

    /// The name of the one field of the result.
    pub fn result_field(&self) -> (r: String)
        ensures
            r@ == timestamp_field(),
    {
        "unix_timestamp".to_owned()
    }

    /// The tool's result for a clock reading of `secs` seconds since the
    /// Unix epoch: `{"unix_timestamp": secs}`.
    pub fn result_for(&self, secs: u64) -> (r: serde_json::Value)
        ensures
            json_text_of(r) == "{\""@ + timestamp_field() + "\":"@ + decimal(secs as nat) + "}"@,
    {
        let field = self.result_field();
        proof {
            reveal_strlit("unix_timestamp");
            assert(plain_key(field@));
        }
        json_object_u64(field, secs)
    }
}

impl BuiltinTool {
    /// The wrapped tool's name.
    pub fn name(&self) -> (r: String)
        ensures
            r@ == (match self {
                BuiltinTool::Echo(_) => echo_name(),
                BuiltinTool::Now(_) => now_name(),
            }),
    {
        match self {
            BuiltinTool::Echo(t) => t.name(),
            BuiltinTool::Now(t) => t.name(),
        }
    }

    /// The wrapped tool's description.
    pub fn description(&self) -> (r: String)
        ensures
            r@ == (match self {
                BuiltinTool::Echo(_) => echo_description(),
                BuiltinTool::Now(_) => now_description(),
            }),
    {
        match self {
            BuiltinTool::Echo(t) => t.description(),
            BuiltinTool::Now(t) => t.description(),
        }
    }
}

/// The names of the built-in tools differ, so a lookup by name finds at
/// most one of them.
pub proof fn lemma_builtin_names_distinct()
    ensures
        echo_name() != now_name(),
{
    reveal_strlit("echo");
    reveal_strlit("now");
    assert(echo_name().len() != now_name().len());
}

} // verus!
