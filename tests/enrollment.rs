use unifi_access::enrollment::{end_session_result, session_path_of};
use unifi_access::{
    classify_poll, end_request, enroll_with_replies, open_session_request, poll_request,
    session_from_reply, ClientError, EnrollState, Enrollment, Method, PollOutcome,
    POLL_INTERVAL_MS,
};

const OPEN_OK: &str = r#"{"code":"SUCCESS","msg":"ok","data":{"session_id":"s-42"}}"#;
const PENDING: &str = r#"{"code":"TOKEN_EMPTY","msg":"no card yet","data":null}"#;
const NOT_FOUND: &str = r#"{"code":"SESSION_NOT_FOUND","msg":"session gone"}"#;
const CARD: &str = r#"{"code":"SUCCESS","msg":"ok","data":{"id":"Card A","token":"f00d"}}"#;

#[test]
fn enrollment_resolves_on_third_poll() {
    let polls = vec![PENDING.to_string(), PENDING.to_string(), CARD.to_string()];
    let (e, n) = enroll_with_replies("dev1", OPEN_OK, &polls);
    assert_eq!(n, 3);
    match e.outcome() {
        Some(Ok(card)) => {
            assert_eq!(card.id, "Card A");
            assert_eq!(card.token, "f00d");
        }
        other => panic!("unexpected {:?}", other),
    }
}

#[test]
fn enrollment_stops_on_session_not_found() {
    let polls = vec![
        PENDING.to_string(),
        NOT_FOUND.to_string(),
        CARD.to_string(),
        PENDING.to_string(),
    ];
    let (e, n) = enroll_with_replies("dev1", OPEN_OK, &polls);
    assert_eq!(n, 2);
    assert!(matches!(e.outcome(), Some(Err(ClientError::SessionCanceled))));
}

#[test]
fn enrollment_canceled_on_first_poll() {
    let polls = vec![NOT_FOUND.to_string(), CARD.to_string()];
    let (e, n) = enroll_with_replies("dev1", OPEN_OK, &polls);
    assert_eq!(n, 1);
    assert!(matches!(e.outcome(), Some(Err(ClientError::SessionCanceled))));
}

#[test]
fn enrollment_open_failure_polls_nothing() {
    let open = r#"{"code":"CODE_DEVICE_BUSY","msg":"busy"}"#;
    let polls = vec![CARD.to_string()];
    let (e, n) = enroll_with_replies("dev1", open, &polls);
    assert_eq!(n, 0);
    match e.outcome() {
        Some(Err(ClientError::ApiError { message, .. })) => assert_eq!(message, "busy"),
        other => panic!("unexpected {:?}", other),
    }
}

#[test]
fn enrollment_still_pending_when_replies_run_out() {
    let polls = vec![PENDING.to_string()];
    let (e, n) = enroll_with_replies("dev1", OPEN_OK, &polls);
    assert_eq!(n, 1);
    assert!(matches!(&e.state, EnrollState::Polling { session_id } if session_id == "s-42"));
    assert!(e.outcome().is_none());
}

#[test]
fn machine_exposes_session_after_open() {
    let mut e = Enrollment::new("reader-9");
    assert!(e.session_id().is_none());
    let req = e.open_request();
    assert_eq!(req.method, Method::Post);
    assert_eq!(req.path, "/api/v1/developer/credentials/nfc_cards/sessions");
    assert_eq!(req.body.as_deref(), Some(r#"{"device_id":"reader-9","reset_ua_card":true}"#));
    e.on_open_reply(OPEN_OK);
    assert_eq!(e.session_id().as_deref(), Some("s-42"));
    assert!(!e.is_finished());
    e.on_poll_reply(PENDING);
    assert!(!e.is_finished());
    e.on_poll_reply(CARD);
    assert!(e.is_finished());
}

#[test]
fn poll_classification() {
    let path = session_path_of("s1");
    assert!(matches!(classify_poll(&path, PENDING), Ok(PollOutcome::Pending)));
    assert!(matches!(classify_poll(&path, NOT_FOUND), Ok(PollOutcome::Canceled)));
    assert!(matches!(classify_poll(&path, "plain SESSION_NOT_FOUND text"), Ok(PollOutcome::Canceled)));
    assert!(matches!(classify_poll(&path, CARD), Ok(PollOutcome::Resolved(_))));
}

#[test]
fn not_found_wins_over_token_empty() {
    let raw = "TOKEN_EMPTY and SESSION_NOT_FOUND";
    assert!(matches!(classify_poll("/s", raw), Ok(PollOutcome::Canceled)));
}

#[test]
fn unreadable_poll_is_malformed_not_pending() {
    match classify_poll("/s", "<html>502</html>") {
        Err(ClientError::MalformedResponse { snippet }) => assert_eq!(snippet, "<html>502</html>"),
        other => panic!("unexpected {:?}", other),
    }
}

#[test]
fn poll_without_payload_is_malformed() {
    let raw = r#"{"code":"SUCCESS","msg":"ok"}"#;
    assert!(matches!(classify_poll("/s", raw), Err(ClientError::MalformedResponse { .. })));
}

#[test]
fn poll_with_other_payload_is_schema_mismatch() {
    let raw = r#"{"code":"SUCCESS","msg":"ok","data":{"token":"t"}}"#;
    assert!(matches!(classify_poll("/s", raw), Err(ClientError::SchemaMismatch { .. })));
}

#[test]
fn end_tolerates_missing_session() {
    let path = session_path_of("gone");
    assert!(end_session_result(&path, NOT_FOUND).is_ok());
    assert!(end_session_result(&path, r#"{"code":"SUCCESS","msg":"ok"}"#).is_ok());
    assert!(matches!(
        end_session_result(&path, r#"{"code":"CODE_SYSTEM_ERROR","msg":"boom"}"#),
        Err(ClientError::ApiError { .. })
    ));
}

#[test]
fn session_requests() {
    let p = poll_request("abc");
    assert_eq!(p.method, Method::Get);
    assert_eq!(p.path, "/api/v1/developer/credentials/nfc_cards/sessions/abc");
    let e = end_request("abc");
    assert_eq!(e.method, Method::Delete);
    assert_eq!(e.path, p.path);
    assert!(e.body.is_none());
    let o = open_session_request("d\"1");
    assert_eq!(o.body.as_deref(), Some(r#"{"device_id":"d\"1","reset_ua_card":true}"#));
}

#[test]
fn session_id_missing_is_schema_mismatch() {
    let raw = r#"{"code":"SUCCESS","msg":"ok","data":{"other":"x"}}"#;
    assert!(matches!(session_from_reply(raw), Err(ClientError::SchemaMismatch { .. })));
    assert_eq!(session_from_reply(OPEN_OK).unwrap(), "s-42");
}

#[test]
fn poll_interval_is_a_tenth_of_a_second() {
    assert_eq!(POLL_INTERVAL_MS, 100);
}

#[test]
fn ending_an_open_session() {
    let mut e = Enrollment::new("r");
    e.on_open_reply(OPEN_OK);
    let req = e.end_request();
    assert_eq!(req.method, Method::Delete);
    assert_eq!(req.path, "/api/v1/developer/credentials/nfc_cards/sessions/s-42");
    e.on_end_reply(NOT_FOUND);
    assert!(e.is_finished());
    assert!(matches!(&e.state, EnrollState::Ended));
    assert!(matches!(e.outcome(), Some(Err(ClientError::SessionCanceled))));
}

#[test]
fn end_failure_is_reported() {
    let mut e = Enrollment::new("r");
    e.on_open_reply(OPEN_OK);
    e.on_end_reply(r#"{"code":"CODE_SYSTEM_ERROR","msg":"boom"}"#);
    match e.outcome() {
        Some(Err(ClientError::ApiError { message, .. })) => assert_eq!(message, "boom"),
        other => panic!("unexpected {:?}", other),
    }
}
