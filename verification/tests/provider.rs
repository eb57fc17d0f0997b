use term_cat::newtype::{ApiKey, BaseUrl, MessageBody};
use term_cat::provider::{
    check_status, completion_url, consumed_body_text, first_content_or_error, request_headers,
    status_failure,
};
use term_cat::wire::{ChatCompletionResponse, ResponseChoice, ResponseMessage};
use term_cat::{Error, ProviderError};

fn pairs(hs: Vec<(String, String)>) -> Vec<(String, String)> {
    hs
}

#[test]
fn url_appends_the_chat_completions_path() {
    let url = completion_url(&BaseUrl::new("http://localhost:1234/v1"));
    assert_eq!(url, "http://localhost:1234/v1/chat/completions");
}

#[test]
fn headers_depend_on_streaming_and_key() {
    let plain = pairs(request_headers(None, false));
    assert_eq!(plain, vec![("Content-Type".to_owned(), "application/json".to_owned())]);
    let key = ApiKey::new("abc");
    let streaming = pairs(request_headers(Some(&key), true));
    assert_eq!(
        streaming,
        vec![
            ("Content-Type".to_owned(), "application/json".to_owned()),
            ("Accept".to_owned(), "text/event-stream".to_owned()),
            ("Authorization".to_owned(), "Bearer abc".to_owned()),
        ]
    );
}

#[test]
fn only_2xx_statuses_are_accepted() {
    assert!(check_status(200));
    assert!(check_status(204));
    assert!(check_status(299));
    assert!(!check_status(199));
    assert!(!check_status(300));
    assert!(!check_status(404));
    match status_failure(503, "busy".to_owned()) {
        Error::Provider(ProviderError::Status { code, body }) => {
            assert_eq!(code, 503);
            assert_eq!(body, "busy");
        }
        other => panic!("unexpected {other:?}"),
    }
}

#[test]
fn unreadable_body_gets_a_placeholder() {
    assert_eq!(consumed_body_text(Some("text".to_owned())), "text");
    assert_eq!(consumed_body_text(None), "<failed to read body>");
}

#[test]
fn first_content_is_returned_or_reported_missing() {
    let with = ChatCompletionResponse::new(vec![
        ResponseChoice::new(ResponseMessage::new(Some(MessageBody::new("answer")), None), Some("stop".to_owned())),
        ResponseChoice::new(ResponseMessage::new(Some(MessageBody::new("second")), None), None),
    ]);
    let body = first_content_or_error(&with).expect("content present");
    assert_eq!(body.as_str(), "answer");

    let without = ChatCompletionResponse::new(vec![ResponseChoice::new(ResponseMessage::new(None, None), None)]);
    match first_content_or_error(&without) {
        Err(Error::Provider(ProviderError::Status { code, body })) => {
            assert_eq!(code, 200);
            assert_eq!(body, "response had no content");
        }
        other => panic!("unexpected {other:?}"),
    }

    let empty = ChatCompletionResponse::new(Vec::new());
    assert!(first_content_or_error(&empty).is_err());
}
