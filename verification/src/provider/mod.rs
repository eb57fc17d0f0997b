//! The decisions of the OpenAI-compatible HTTP client: where a request goes,
//! which headers it carries, which status codes are accepted and what a
//! response without content is answered with.

pub mod local_openai;

pub use local_openai::{
    check_status, completion_url, consumed_body_text, first_content_or_error, request_headers, status_failure,
};
