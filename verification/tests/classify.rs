use async_http2::Cause;
use async_http2::CauseKind;
use async_http2::ErrorKind;
use async_http2::TransportError;

fn plain_error(description: &str) -> TransportError {
    TransportError {
        description: description.to_string(),
        is_timeout: false,
        is_connect: false,
        is_request: false,
        is_status: false,
        is_body: false,
        is_builder: false,
        is_decode: false,
        is_redirect: false,
        causes: Vec::new(),
    }
}

fn other_cause(description: &str) -> Cause {
    Cause { description: description.to_string(), kind: CauseKind::Other }
}

fn reset_cause(description: &str, reason: Option<u32>) -> Cause {
    Cause { description: description.to_string(), kind: CauseKind::StreamReset { reason } }
}

#[test]
fn zero_reset_deep_in_chain_wins_over_timeout() {
    let mut e = plain_error("request aborted");
    e.is_timeout = true;
    e.causes = vec![other_cause("connection closed"), reset_cause("stream reset", Some(0))];
    let r = e.classify("request send failed");
    assert_eq!(r.kind, ErrorKind::RetryError);
}

#[test]
fn zero_reset_behind_nonzero_reset_still_wins() {
    let mut e = plain_error("request aborted");
    e.is_connect = true;
    e.causes = vec![reset_cause("stream reset", Some(3)), reset_cause("stream reset", Some(0))];
    let r = e.classify("request send failed");
    assert_eq!(r.kind, ErrorKind::RetryError);
}

#[test]
fn reset_without_reason_is_not_retryable() {
    let mut e = plain_error("request aborted");
    e.is_timeout = true;
    e.causes = vec![reset_cause("stream reset", None)];
    let r = e.classify("request send failed");
    assert_eq!(r.kind, ErrorKind::TimeoutError);
}

#[test]
fn nonzero_reset_falls_through_to_generic() {
    let mut e = plain_error("request aborted");
    e.causes = vec![reset_cause("stream reset", Some(5))];
    let r = e.classify("request send failed");
    assert_eq!(r.kind, ErrorKind::GenericError);
}

#[test]
fn timeout_has_highest_predicate_priority() {
    let mut e = plain_error("deadline exceeded");
    e.is_timeout = true;
    e.is_connect = true;
    e.is_request = true;
    e.is_status = true;
    e.is_body = true;
    e.is_builder = true;
    e.is_decode = true;
    e.is_redirect = true;
    let r = e.classify("request send failed");
    assert_eq!(r.kind, ErrorKind::TimeoutError);
}

#[test]
fn connect_beats_every_later_predicate() {
    let mut e = plain_error("connection refused");
    e.is_connect = true;
    e.is_request = true;
    e.is_status = true;
    e.is_body = true;
    e.is_builder = true;
    e.is_decode = true;
    e.is_redirect = true;
    let r = e.classify("request send failed");
    assert_eq!(r.kind, ErrorKind::ConnectError);
}

#[test]
fn each_single_predicate_yields_its_kind() {
    let cases: Vec<(fn(&mut TransportError), ErrorKind)> = vec![
        (|e| e.is_timeout = true, ErrorKind::TimeoutError),
        (|e| e.is_connect = true, ErrorKind::ConnectError),
        (|e| e.is_request = true, ErrorKind::RequestError),
        (|e| e.is_status = true, ErrorKind::BadStatusCodeError),
        (|e| e.is_body = true, ErrorKind::BodyError),
        (|e| e.is_builder = true, ErrorKind::BuilderError),
        (|e| e.is_decode = true, ErrorKind::DecodeError),
        (|e| e.is_redirect = true, ErrorKind::RedirectError),
    ];
    for (set, expected) in cases {
        let mut e = plain_error("failure");
        set(&mut e);
        assert_eq!(e.classify("request send failed").kind, expected);
    }
}

#[test]
fn unmatched_error_is_generic() {
    let e = plain_error("mystery failure");
    let r = e.classify("request send failed");
    assert_eq!(r.kind, ErrorKind::GenericError);
}

#[test]
fn message_without_cause_has_empty_bracket() {
    let mut e = plain_error("deadline exceeded");
    e.is_timeout = true;
    let r = e.classify("request send failed");
    assert_eq!(r.message, "[] request send failed: deadline exceeded");
}

#[test]
fn message_carries_deepest_cause() {
    let mut e = plain_error("request aborted");
    e.causes = vec![other_cause("io error"), other_cause("broken pipe")];
    let r = e.classify("request data read failed");
    assert_eq!(r.message, "[broken pipe] request data read failed: request aborted");
}

#[test]
fn single_cause_is_the_deepest() {
    let mut e = plain_error("request aborted");
    e.causes = vec![other_cause("io error")];
    let r = e.classify("request data read failed");
    assert_eq!(r.message, "[io error] request data read failed: request aborted");
}

#[test]
fn classification_is_deterministic() {
    let mut e = plain_error("request aborted");
    e.is_body = true;
    e.causes = vec![other_cause("io error"), reset_cause("stream reset", Some(0))];
    let r1 = e.classify("request data read failed");
    let r2 = e.classify("request data read failed");
    assert_eq!(r1.kind, r2.kind);
    assert_eq!(r1.message, r2.message);
}

#[test]
fn retry_signal_detected_anywhere() {
    let mut e = plain_error("request aborted");
    e.causes = vec![other_cause("a"), other_cause("b"), reset_cause("reset", Some(0))];
    assert!(e.has_reset_signal());
    e.causes.pop();
    assert!(!e.has_reset_signal());
}
