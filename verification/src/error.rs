//! Hierarchical error enum.  Every wrappable source error has an explicit
//! subsystem; each call site maps to the right one before bubbling up.

use vstd::prelude::*;
use std::io::Error as IoError;
use ureq::Error as HttpError;
use rig_cat::error::Error as RigCatError;
use serde_json::Error as JsonError;
use comp_cat_rs::effect::fiber::FiberError;

use crate::text::{decimal, digit_char, string_push};

verus! {

#[verifier::external_type_specification]
#[verifier::external_body]
pub struct ExIoError(IoError);

#[verifier::external_type_specification]
#[verifier::external_body]
pub struct ExHttpError(HttpError);

#[verifier::external_type_specification]
#[verifier::external_body]
pub struct ExRigCatError(RigCatError);

/// The single project-wide error type.
#[derive(Debug)]
pub enum Error {
    /// Surfaced from `rig-cat` (provider, tool invocation).
    RigCat(RigCatError),
    /// Server-Sent Events parsing or transport failure.
    Sse(SseError),
    /// Wire-format (de)serialization failure.
    Wire(WireError),
    /// Terminal, render, or input failure.
    Tui(TuiError),
    /// Inter-thread plumbing failure (fiber spawn / join / channel).
    Bridge(BridgeError),
    /// HTTP transport or status failure from the server.
    Provider(ProviderError),
}

/// SSE-specific failures.
#[derive(Debug)]
pub enum SseError {
    /// Underlying IO failed while reading the SSE body.
    Io(IoError),
    /// A `data:` line did not parse as a chunk.
    Decode(JsonError),
    /// The line was structurally unexpected.
    UnexpectedLine(String),
}

/// Wire-format failures.
#[derive(Debug)]
pub enum WireError {
    /// Failed to serialize a request to JSON.
    Encode(JsonError),
    /// Failed to deserialize a JSON response.
    Decode(JsonError),
    /// A `role` field carried a string that is not recognized.
    UnknownRole(String),
    /// A `finish_reason` field carried a string that is not recognized.
    UnknownFinishReason(String),
}

/// TUI failures (terminal setup, draw, raw mode toggle).
#[derive(Debug)]
pub enum TuiError {
    /// Underlying terminal IO failed.
    Io(IoError),
}

/// Bridge / fiber / channel failures.
#[derive(Debug)]
pub enum BridgeError {
    /// The producer could not spawn its OS thread.
    FiberSpawn(IoError),
    /// The producer panicked; the captured message follows.
    FiberPanicked(String),
    /// The receiver was dropped before the producer finished.
    SendDisconnected,
}

/// HTTP / status failures from the server.
#[derive(Debug)]
pub enum ProviderError {
    /// Underlying HTTP transport failed.
    Http(HttpError),
    /// The server returned a non-2xx status.
    Status { code: u16, body: String },
    /// The non-streaming response body did not deserialize.
    Decode(JsonError),
}

#[verifier::external_type_specification]
#[verifier::external_body]
#[verifier::reject_recursive_types(E)]
pub struct ExFiberError<E>(FiberError<E>);

/// How a producer fiber failed, by variant.
#[derive(Debug)]
pub enum FiberFailure {
    /// The computation returned its own error.
    Failed(Error),
    /// The thread panicked with this message.
    Panicked(String),
    /// The thread could not be spawned.
    SpawnFailed(IoError),
}

/// Names the variant of `comp_cat_rs::effect::fiber::FiberError` that `fe`
/// is, with its payload, as a `FiberFailure`.
pub uninterp spec fn fiber_failure_named(fe: FiberError<Error>) -> FiberFailure;

/// Tells the variants of `comp_cat_rs::effect::fiber::FiberError` apart,
/// moving each one's payload over unchanged: the three variants of the
/// outside enum map one for one onto those of `FiberFailure`.
#[verifier::external_body]
fn fiber_failure_of(fe: FiberError<Error>) -> (r: FiberFailure)
    ensures
        r == fiber_failure_named(fe),
{
    match fe {
        FiberError::Failed(e) => FiberFailure::Failed(e),
        FiberError::Panicked(s) => FiberFailure::Panicked(s),
        FiberError::SpawnFailed(io) => FiberFailure::SpawnFailed(io),
    }
}

/// The project error for a fiber failure: the computation's own error as it
/// is; a panic or a failed spawn as a bridge error.
pub fn error_of_fiber_failure(f: FiberFailure) -> (r: Error)
    ensures
        match f {
            FiberFailure::Failed(e) => r == e,
            FiberFailure::Panicked(s) => r matches Error::Bridge(BridgeError::FiberPanicked(t)) && t == s,
            FiberFailure::SpawnFailed(io) => r matches Error::Bridge(BridgeError::FiberSpawn(j)) && j == io,
        },
{
    match f {
        FiberFailure::Failed(e) => e,
        FiberFailure::Panicked(s) => Error::Bridge(BridgeError::FiberPanicked(s)),
        FiberFailure::SpawnFailed(io) => Error::Bridge(BridgeError::FiberSpawn(io)),
    }
}

/// The project error for a failed producer fiber: the computation's own
/// error as it is; a panic or a failed spawn as a bridge error.
pub fn error_from_fiber(fe: FiberError<Error>) -> (r: Error)
    ensures
        match fiber_failure_named(fe) {
            FiberFailure::Failed(e) => r == e,
            FiberFailure::Panicked(s) => r matches Error::Bridge(BridgeError::FiberPanicked(t)) && t == s,
            FiberFailure::SpawnFailed(io) => r matches Error::Bridge(BridgeError::FiberSpawn(j)) && j == io,
        },
{
    error_of_fiber_failure(fiber_failure_of(fe))
}

/// Renders an I/O error through its `Display` impl.  Nothing is stated of
/// the text.
#[verifier::external_body]
fn io_error_text(e: &IoError) -> String {
    format!("{e}")
}

/// Renders a `serde_json::Error` through its `Display` impl.  Nothing is
/// stated of the text.
#[verifier::external_body]
fn json_error_text(e: &JsonError) -> String {
    format!("{e}")
}

/// Renders a `ureq::Error` through its `Display` impl.  Nothing is stated of
/// the text.
#[verifier::external_body]
fn http_error_text(e: &HttpError) -> String {
    format!("{e}")
}

/// Renders a `rig_cat::error::Error` through its `Debug` impl.  Nothing is
/// stated of the text.
#[verifier::external_body]
pub(crate) fn rig_cat_error_debug(e: &RigCatError) -> String {
    format!("{e:?}")
}

/// `prefix` followed by `text`, as a new string.
fn prefixed(prefix: &str, text: &str) -> (r: String)
    ensures
        r@ == prefix@ + text@,
{
    prefix.to_owned().concat(text)
}

fn digit(d: u16) -> (c: char)
    requires
        d < 10,
    ensures
        c == digit_char(d as nat),
{
    if d == 0 { '0' }
    else if d == 1 { '1' }
    else if d == 2 { '2' }
    else if d == 3 { '3' }
    else if d == 4 { '4' }
    else if d == 5 { '5' }
    else if d == 6 { '6' }
    else if d == 7 { '7' }
    else if d == 8 { '8' }
    else { '9' }
}

/// `n` written in decimal.
pub fn decimal_text(n: u16) -> (r: String)
    ensures
        r@ == decimal(n as nat),
    decreases n,
{
    if n < 10 {
        let mut s = String::new();
        string_push(&mut s, digit(n));
        s
    } else {
        let mut s = decimal_text(n / 10);
        string_push(&mut s, digit(n % 10));
        s
    }
}

/// `t` is an opaque error's text after `prefix`.
pub open spec fn opaque_text(t: Seq<char>, prefix: Seq<char>) -> bool {
    exists|x: Seq<char>| t == prefix + x
}

/// `t` is the message of `e`; the text of a wrapped outside error is left
/// open.
pub open spec fn sse_error_text(e: SseError, t: Seq<char>) -> bool {
    match e {
        SseError::UnexpectedLine(l) => t == "unexpected SSE line: "@ + l@,
        SseError::Io(_) => opaque_text(t, "io: "@),
        SseError::Decode(_) => opaque_text(t, "decode: "@),
    }
}

/// `t` is the message of `e`.
pub open spec fn wire_error_text(e: WireError, t: Seq<char>) -> bool {
    match e {
        WireError::UnknownRole(s) => t == "unknown role: "@ + s@,
        WireError::UnknownFinishReason(s) => t == "unknown finish_reason: "@ + s@,
        WireError::Encode(_) => opaque_text(t, "encode: "@),
        WireError::Decode(_) => opaque_text(t, "decode: "@),
    }
}

/// `t` is the message of `e`.
pub open spec fn tui_error_text(e: TuiError, t: Seq<char>) -> bool {
    opaque_text(t, "io: "@)
}

/// `t` is the message of `e`.
pub open spec fn bridge_error_text(e: BridgeError, t: Seq<char>) -> bool {
    match e {
        BridgeError::FiberPanicked(s) => t == "fiber panicked: "@ + s@,
        BridgeError::SendDisconnected => t == "channel receiver disconnected"@,
        BridgeError::FiberSpawn(_) => opaque_text(t, "fiber spawn: "@),
    }
}

/// `t` is the message of `e`.
pub open spec fn provider_error_text(e: ProviderError, t: Seq<char>) -> bool {
    match e {
        ProviderError::Status { code, body } => t == "status "@ + decimal(code as nat) + ": "@ + body@,
        ProviderError::Http(_) => opaque_text(t, "http: "@),
        ProviderError::Decode(_) => opaque_text(t, "decode: "@),
    }
}

/// `t` is the message of `e`: the subsystem, a colon and a space, and the
/// subsystem error's own message.
pub open spec fn error_text(e: Error, t: Seq<char>) -> bool {
    match e {
        Error::RigCat(_) => opaque_text(t, "rig-cat: "@),
        Error::Sse(x) => exists|u: Seq<char>| t == "sse: "@ + u && #[trigger] sse_error_text(x, u),
        Error::Wire(x) => exists|u: Seq<char>| t == "wire: "@ + u && #[trigger] wire_error_text(x, u),
        Error::Tui(x) => exists|u: Seq<char>| t == "tui: "@ + u && #[trigger] tui_error_text(x, u),
        Error::Bridge(x) => exists|u: Seq<char>| t == "bridge: "@ + u && #[trigger] bridge_error_text(x, u),
        Error::Provider(x) => exists|u: Seq<char>| t == "provider: "@ + u && #[trigger] provider_error_text(x, u),
    }
}

impl SseError {
    /// The message shown for this error.
    pub fn to_string(&self) -> (r: String)
        ensures
            sse_error_text(*self, r@),
    {
        match self {
            SseError::Io(e) => prefixed("io: ", io_error_text(e).as_str()),
            SseError::Decode(e) => prefixed("decode: ", json_error_text(e).as_str()),
            SseError::UnexpectedLine(l) => prefixed("unexpected SSE line: ", l.as_str()),
        }
    }
}

impl WireError {
    /// The message shown for this error.
    pub fn to_string(&self) -> (r: String)
        ensures
            wire_error_text(*self, r@),
    {
        match self {
            WireError::Encode(e) => prefixed("encode: ", json_error_text(e).as_str()),
            WireError::Decode(e) => prefixed("decode: ", json_error_text(e).as_str()),
            WireError::UnknownRole(s) => prefixed("unknown role: ", s.as_str()),
            WireError::UnknownFinishReason(s) => prefixed("unknown finish_reason: ", s.as_str()),
        }
    }
}

impl TuiError {
    /// The message shown for this error.
    pub fn to_string(&self) -> (r: String)
        ensures
            tui_error_text(*self, r@),
    {
        match self {
            TuiError::Io(e) => prefixed("io: ", io_error_text(e).as_str()),
        }
    }
}

impl BridgeError {
    /// The message shown for this error.
    pub fn to_string(&self) -> (r: String)
        ensures
            bridge_error_text(*self, r@),
    {
        match self {
            BridgeError::FiberSpawn(e) => prefixed("fiber spawn: ", io_error_text(e).as_str()),
            BridgeError::FiberPanicked(s) => prefixed("fiber panicked: ", s.as_str()),
            BridgeError::SendDisconnected => "channel receiver disconnected".to_owned(),
        }
    }
}

impl ProviderError {
    /// The message shown for this error.
    pub fn to_string(&self) -> (r: String)
        ensures
            provider_error_text(*self, r@),
    {
        match self {
            ProviderError::Http(e) => prefixed("http: ", http_error_text(e).as_str()),
            ProviderError::Status { code, body } => {
                let head = prefixed("status ", decimal_text(*code).as_str());
                let mid = prefixed(head.as_str(), ": ");
                prefixed(mid.as_str(), body.as_str())
            },
            ProviderError::Decode(e) => prefixed("decode: ", json_error_text(e).as_str()),
        }
    }
}

impl Error {
    /// The message shown for this error: the subsystem, a colon, and the
    /// subsystem's own message.
    pub fn to_string(&self) -> (r: String)
        ensures
            error_text(*self, r@),
    {
        match self {
            Error::RigCat(e) => prefixed("rig-cat: ", rig_cat_error_debug(e).as_str()),
            Error::Sse(e) => prefixed("sse: ", e.to_string().as_str()),
            Error::Wire(e) => prefixed("wire: ", e.to_string().as_str()),
            Error::Tui(e) => prefixed("tui: ", e.to_string().as_str()),
            Error::Bridge(e) => prefixed("bridge: ", e.to_string().as_str()),
            Error::Provider(e) => prefixed("provider: ", e.to_string().as_str()),
        }
    }
}

} // verus!
