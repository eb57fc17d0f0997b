//! Newtypes for every domain primitive.  Each owns its data; the text
//! newtypes are viewed as the sequence of characters they hold.

use vstd::prelude::*;
use vstd::string::StringExecFns;

verus! {

/// The base URL of the OpenAI-compatible server, e.g. `http://localhost:1234/v1`.
#[derive(Debug)]
pub struct BaseUrl(String);

impl View for BaseUrl {
    type V = Seq<char>;

    closed spec fn view(&self) -> Seq<char> {
        self.0@
    }
}

impl Clone for BaseUrl {
    fn clone(&self) -> (r: Self)
        ensures
            r@ == self@,
    {
        BaseUrl(self.0.clone())
    }
}

impl BaseUrl {
    /// Construct from text.  No validation: the source is trusted.
    pub fn new(s: &str) -> (r: Self)
        ensures
            r@ == s@,
    {
        BaseUrl(s.to_owned())
    }

    /// The base URL, without trailing slash normalization.
    pub fn as_str(&self) -> (r: &str)
        ensures
            r@ == self@,
    {
        self.0.as_str()
    }
}

/// The model identifier the server should use.
#[derive(Debug)]
pub struct ModelName(String);

impl View for ModelName {
    type V = Seq<char>;

    closed spec fn view(&self) -> Seq<char> {
        self.0@
    }
}

impl Clone for ModelName {
    fn clone(&self) -> (r: Self)
        ensures
            r@ == self@,
    {
        ModelName(self.0.clone())
    }
}

impl ModelName {
    /// Construct from text.
    pub fn new(s: &str) -> (r: Self)
        ensures
            r@ == s@,
    {
        ModelName(s.to_owned())
    }

    /// The model identifier.
    pub fn as_str(&self) -> (r: &str)
        ensures
            r@ == self@,
    {
        self.0.as_str()
    }
}

/// Bearer token for the OpenAI-compatible server.
#[derive(Debug)]
pub struct ApiKey(String);

impl View for ApiKey {
    type V = Seq<char>;

    closed spec fn view(&self) -> Seq<char> {
        self.0@
    }
}

impl Clone for ApiKey {
    fn clone(&self) -> (r: Self)
        ensures
            r@ == self@,
    {
        ApiKey(self.0.clone())
    }
}

impl ApiKey {
    /// Construct from text.
    pub fn new(s: &str) -> (r: Self)
        ensures
            r@ == s@,
    {
        ApiKey(s.to_owned())
    }

    /// The token.
    pub fn as_str(&self) -> (r: &str)
        ensures
            r@ == self@,
    {
        self.0.as_str()
    }
}

/// Maximum tokens the server should generate in a single response.
#[derive(Debug, Clone, Copy)]
pub struct MaxTokens(u32);

impl View for MaxTokens {
    type V = u32;

    closed spec fn view(&self) -> u32 {
        self.0
    }
}

impl MaxTokens {
    /// Wrap a token count.
    pub fn new(n: u32) -> (r: Self)
        ensures
            r@ == n,
    {
        MaxTokens(n)
    }

    /// The token count.
    pub fn value(self) -> (r: u32)
        ensures
            r == self@,
    {
        self.0
    }
}

/// The textual body of any chat message.
#[derive(Debug)]
pub struct MessageBody(String);

impl View for MessageBody {
    type V = Seq<char>;

    closed spec fn view(&self) -> Seq<char> {
        self.0@
    }
}

impl Clone for MessageBody {
    fn clone(&self) -> (r: Self)
        ensures
            r@ == self@,
    {
        MessageBody(self.0.clone())
    }
}

impl MessageBody {
    /// Construct from text.
    pub fn new(s: &str) -> (r: Self)
        ensures
            r@ == s@,
    {
        MessageBody(s.to_owned())
    }

    /// Take ownership of a `String` as a body.
    pub fn from_string(s: String) -> (r: Self)
        ensures
            r@ == s@,
    {
        MessageBody(s)
    }

    /// The body text.
    pub fn as_str(&self) -> (r: &str)
        ensures
            r@ == self@,
    {
        self.0.as_str()
    }

    /// Consume into the underlying `String`.
    pub fn into_string(self) -> (r: String)
        ensures
            r@ == self@,
    {
        self.0
    }

    /// Append another body's text, returning a new `MessageBody`.
    pub fn concat(self, other: &Self) -> (r: Self)
        ensures
            r@ == self@ + other@,
    {
        MessageBody(self.0.concat(other.as_str()))
    }

    /// Append a `&str`, returning a new `MessageBody`.
    pub fn append(self, s: &str) -> (r: Self)
        ensures
            r@ == self@ + s@,
    {
        MessageBody(self.0.concat(s))
    }

    /// `true` iff the body is the empty string.
    pub fn is_empty(&self) -> (r: bool)
        ensures
            r == (self@.len() == 0),
    {
        self.0.as_str().is_empty()
    }
}

impl From<String> for MessageBody {
    fn from(s: String) -> (r: Self) {
        MessageBody(s)
    }
}

impl vstd::std_specs::convert::FromSpecImpl<String> for MessageBody {
    open spec fn obeys_from_spec() -> bool {
        true
    }

    closed spec fn from_spec(s: String) -> MessageBody {
        MessageBody(s)
    }
}

/// A body made from a `String` holds exactly that text.
pub proof fn lemma_from_string_keeps_text(s: String)
    ensures
        <MessageBody as vstd::std_specs::convert::FromSpec<String>>::from_spec(s)@ == s@,
{
}

/// Identifier the server assigns to one tool-call within a streaming response.
#[derive(Debug)]
pub struct ToolCallId(String);

impl View for ToolCallId {
    type V = Seq<char>;

    closed spec fn view(&self) -> Seq<char> {
        self.0@
    }
}

impl Clone for ToolCallId {
    fn clone(&self) -> (r: Self)
        ensures
            r@ == self@,
    {
        ToolCallId(self.0.clone())
    }
}

impl ToolCallId {
    /// Construct from text.
    pub fn new(s: &str) -> (r: Self)
        ensures
            r@ == s@,
    {
        ToolCallId(s.to_owned())
    }

    /// The identifier.
    pub fn as_str(&self) -> (r: &str)
        ensures
            r@ == self@,
    {
        self.0.as_str()
    }
}

/// Function name within a tool-call (matches a tool definition's name).
#[derive(Debug)]
pub struct ToolName(String);

impl View for ToolName {
    type V = Seq<char>;

    closed spec fn view(&self) -> Seq<char> {
        self.0@
    }
}

impl Clone for ToolName {
    fn clone(&self) -> (r: Self)
        ensures
            r@ == self@,
    {
        ToolName(self.0.clone())
    }
}

impl ToolName {
    /// Construct from text.
    pub fn new(s: &str) -> (r: Self)
        ensures
            r@ == s@,
    {
        ToolName(s.to_owned())
    }

    /// The function name.
    pub fn as_str(&self) -> (r: &str)
        ensures
            r@ == self@,
    {
        self.0.as_str()
    }
}

/// Position of a tool-call within the streaming `tool_calls[]` array.  Used
/// to key deltas during accumulation.
#[derive(Debug, Clone, Copy, PartialEq, Eq, Hash, Structural)]
pub struct ToolCallIndex(u32);

impl View for ToolCallIndex {
    type V = u32;

    closed spec fn view(&self) -> u32 {
        self.0
    }
}

impl ToolCallIndex {
    /// Wrap a position.
    pub fn new(i: u32) -> (r: Self)
        ensures
            r@ == i,
    {
        ToolCallIndex(i)
    }

    /// The position.
    pub fn value(self) -> (r: u32)
        ensures
            r == self@,
    {
        self.0
    }
}

/// Why the streaming response ended.
#[derive(Debug, Clone, Copy, PartialEq, Eq, Structural)]
pub enum FinishReason {
    /// Natural stop / end-of-sequence token.
    Stop,
    /// Hit the `max_tokens` ceiling.
    Length,
    /// Server-side content filter triggered.
    ContentFilter,
    /// Response contained `tool_calls`; the caller must dispatch and continue.
    ToolCalls,
}

} // verus!
