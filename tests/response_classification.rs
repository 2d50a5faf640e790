use storage_client::error::StorageError;
use storage_client::response::{after_send, success_response, unexpected_body, StatusOutcome};

const URL: &str = "https://storage.example.com/b/bucket/o/object";

#[test]
fn status_200_is_success() {
    assert_eq!(success_response(URL, 200), StatusOutcome::Success);
}

#[test]
fn whole_success_class_is_success() {
    assert_eq!(success_response(URL, 204), StatusOutcome::Success);
    assert_eq!(success_response(URL, 299), StatusOutcome::Success);
    assert_eq!(success_response(URL, 300), StatusOutcome::ReadBody);
    assert_eq!(success_response(URL, 199), StatusOutcome::ReadBody);
}

#[test]
fn status_404_is_not_found_with_url() {
    assert_eq!(
        success_response(URL, 404),
        StatusOutcome::Fail(StorageError::ResourceNotFound { url: URL.to_string() })
    );
}

#[test]
fn status_500_with_body_boom_is_unexpected_response() {
    assert_eq!(success_response(URL, 500), StatusOutcome::ReadBody);
    assert_eq!(
        unexpected_body(URL, Ok("boom")),
        StorageError::UnexpectedResponse { url: URL.to_string(), body: "boom".to_string() }
    );
}

#[test]
fn unreadable_error_body_is_transport_error() {
    assert_eq!(
        unexpected_body(URL, Err("connection reset")),
        StorageError::HttpTransportError { details: "connection reset".to_string() }
    );
}

#[test]
fn transport_failure_before_status() {
    assert_eq!(
        after_send(URL, Err("dns failure")),
        StatusOutcome::Fail(StorageError::HttpTransportError { details: "dns failure".to_string() })
    );
}

#[test]
fn delete_against_404_is_not_found() {
    let outcome = after_send(URL, Ok(404));
    assert_eq!(
        outcome,
        StatusOutcome::Fail(StorageError::ResourceNotFound { url: URL.to_string() })
    );
    assert!(!matches!(
        outcome,
        StatusOutcome::Fail(StorageError::HttpTransportError { .. })
    ));
}

#[test]
fn sent_success_status_is_success() {
    assert_eq!(after_send(URL, Ok(200)), StatusOutcome::Success);
    assert_eq!(after_send(URL, Ok(403)), StatusOutcome::ReadBody);
}
