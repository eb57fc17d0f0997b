//! Request shaping and response checking for a local OpenAI-compatible
//! server.  The transport itself runs at the edge of the program; it asks
//! these functions what to send and how to read what came back.

use vstd::prelude::*;
use crate::error::{Error, ProviderError};
use crate::newtype::{ApiKey, BaseUrl, MessageBody};
use crate::wire::response::{ChatCompletionResponse, first_content_spec};

verus! {

/// The chat-completions endpoint under a base URL.
pub open spec fn completion_url_spec(base: Seq<char>) -> Seq<char> {
    base + "/chat/completions"@
}

/// Whether an HTTP status code is a success (`2xx`).
pub open spec fn is_success(code: u16) -> bool {
    200 <= code < 300
}

/// The headers of a chat-completion request: the JSON content type always;
/// `Accept: text/event-stream` when streaming; a bearer token when a key is
/// configured.
pub open spec fn headers_spec(key: Option<Seq<char>>, streaming: bool) -> Seq<(Seq<char>, Seq<char>)> {
    let base = seq![("Content-Type"@, "application/json"@)];
    let with_accept = if streaming {
        base.push(("Accept"@, "text/event-stream"@))
    } else {
        base
    };
    match key {
        Some(k) => with_accept.push(("Authorization"@, "Bearer "@ + k)),
        None => with_accept,
    }
}

/// The text stood in for a response body that could not be read.
pub open spec fn unreadable_body() -> Seq<char> {
    "<failed to read body>"@
}

/// The text of the error for a successful response without content.
pub open spec fn no_content_message() -> Seq<char> {
    "response had no content"@
}

/// The views of a list of headers.
pub open spec fn headers_view(hs: Seq<(String, String)>) -> Seq<(Seq<char>, Seq<char>)> {
    hs.map_values(|h: (String, String)| (h.0@, h.1@))
}

/// `{base}/chat/completions`.
pub fn completion_url(base: &BaseUrl) -> (r: String)
    ensures
        r@ == completion_url_spec(base@),
{
    base.as_str().to_owned().concat("/chat/completions")
}

/// The headers to send, in order.
pub fn request_headers(key: Option<&ApiKey>, streaming: bool) -> (r: Vec<(String, String)>)
    ensures
        headers_view(r@) == headers_spec(
            match key {
                Some(k) => Some(k@),
                None => None,
            },
            streaming,
        ),
{
    let mut hs: Vec<(String, String)> = Vec::new();
    hs.push(("Content-Type".to_owned(), "application/json".to_owned()));
    if streaming {
        hs.push(("Accept".to_owned(), "text/event-stream".to_owned()));
    }
    match key {
        Some(k) => {
            hs.push(("Authorization".to_owned(), "Bearer ".to_owned().concat(k.as_str())));
        },
        None => {},
    }
    let ghost kv = match key {
        Some(k) => Some(k@),
        None => None::<Seq<char>>,
    };
    assert(headers_view(hs@) =~= headers_spec(kv, streaming));
    hs
}

/// Whether a response with this status is accepted.
pub fn check_status(code: u16) -> (r: bool)
    ensures
        r == is_success(code),
{
    200 <= code && code < 300
}

/// The error for a rejected status, carrying the response body.
pub fn status_failure(code: u16, body: String) -> (r: Error)
    ensures
        r matches Error::Provider(ProviderError::Status { code: c, body: b }) && c == code && b@ == body@,
{
    Error::Provider(ProviderError::Status { code, body })
}

/// The text of a response body as read: what was read, or a placeholder
/// when reading failed.
pub fn consumed_body_text(read: Option<String>) -> (r: String)
    ensures
        r@ == (match read {
            Some(s) => s@,
            None => unreadable_body(),
        }),
{
    match read {
        Some(s) => s,
        None => "<failed to read body>".to_owned(),
    }
}

/// The assistant content of a non-streaming response, or, when the first
/// choice carries none, a provider error with status 200.
pub fn first_content_or_error(resp: &ChatCompletionResponse) -> (r: Result<MessageBody, Error>)
    ensures
        match first_content_spec(resp@) {
            Some(c) => r matches Ok(b) && b@ == c,
            None => r matches Err(Error::Provider(ProviderError::Status { code: c, body: b }))
                && c == 200 && b@ == no_content_message(),
        },
{
    match resp.first_content() {
        Some(b) => Ok(b.clone()),
        None => Err(Error::Provider(ProviderError::Status { code: 200, body: "response had no content".to_owned() })),
    }
}

} // verus!
