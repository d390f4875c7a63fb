use unifi_access::json::{json_literal, parse_json, text_object, JsonNode};
use unifi_access::text::contains_text;
use unifi_access::{
    decode_envelope, request_raw, request_typed, AccessPolicy, ClientError, List, NfcCard, User,
    UsersResponse,
};
use unifi_access::protocol::FromJson;

#[test]
fn success_envelope_decodes_typed_payload() {
    let raw = r#"{"code":"SUCCESS","msg":"success","data":{"id":"Card 1","token":"abc123"}}"#;
    let card: NfcCard = request_typed("/cards", raw).unwrap();
    assert_eq!(card.id, "Card 1");
    assert_eq!(card.token, "abc123");
}

#[test]
fn failure_code_is_api_error_with_data() {
    let raw = r#"{"code":"CODE_NOT_FOUND","msg":"no such user","data":{"id":"x","token":"y"}}"#;
    match request_typed::<NfcCard>("/users/1", raw) {
        Err(ClientError::ApiError { path, message }) => {
            assert_eq!(path, "/users/1");
            assert_eq!(message, "no such user");
        }
        other => panic!("unexpected {:?}", other),
    }
    match request_raw("/users/1", raw) {
        Err(ClientError::ApiError { message, .. }) => assert_eq!(message, "no such user"),
        other => panic!("unexpected {:?}", other),
    }
}

#[test]
fn failure_code_is_api_error_without_data() {
    let raw = r#"{"code":"CODE_AUTH_FAILED","msg":"bad token"}"#;
    match request_raw("/p", raw) {
        Err(ClientError::ApiError { path, message }) => {
            assert_eq!(path, "/p");
            assert_eq!(message, "bad token");
        }
        other => panic!("unexpected {:?}", other),
    }
}

#[test]
fn success_without_data_is_missing_data_when_typed() {
    let raw = r#"{"code":"SUCCESS","msg":"ok"}"#;
    match request_typed::<NfcCard>("/q", raw) {
        Err(ClientError::MissingData { path }) => assert_eq!(path, "/q"),
        other => panic!("unexpected {:?}", other),
    }
    assert!(matches!(request_raw("/q", raw), Ok(None)));
}

#[test]
fn success_with_null_data_has_no_payload() {
    let raw = r#"{"code":"SUCCESS","msg":"ok","data":null}"#;
    assert!(matches!(request_raw("/q", raw), Ok(None)));
    assert!(matches!(
        request_typed::<NfcCard>("/q", raw),
        Err(ClientError::MissingData { .. })
    ));
}

#[test]
fn payload_of_other_shape_is_schema_mismatch() {
    let raw = r#"{"code":"SUCCESS","msg":"ok","data":{"id":"Card 1"}}"#;
    match request_typed::<NfcCard>("/c", raw) {
        Err(ClientError::SchemaMismatch { path, expected }) => {
            assert_eq!(path, "/c");
            assert_eq!(expected, "NfcCard");
        }
        other => panic!("unexpected {:?}", other),
    }
}

#[test]
fn not_json_is_malformed() {
    match decode_envelope("<html>bad gateway</html>") {
        Err(ClientError::MalformedResponse { snippet }) => {
            assert_eq!(snippet, "<html>bad gateway</html>")
        }
        other => panic!("unexpected {:?}", other),
    }
}

#[test]
fn envelope_without_msg_is_malformed() {
    assert!(matches!(
        request_raw("/p", r#"{"code":"SUCCESS"}"#),
        Err(ClientError::MalformedResponse { .. })
    ));
    assert!(matches!(
        request_raw("/p", r#"{"code":7,"msg":"m"}"#),
        Err(ClientError::MalformedResponse { .. })
    ));
}

#[test]
fn envelope_fields_are_read() {
    let env = decode_envelope(r#"{"msg":"hi","code":"SUCCESS","data":[1,2]}"#).unwrap();
    assert_eq!(env.code, "SUCCESS");
    assert_eq!(env.msg, "hi");
    assert_eq!(env.data.as_deref(), Some("[1,2]"));
}

#[test]
fn card_round_trip_keeps_fields() {
    let card = NfcCard::from_json(r#"{"id":"Front \"door\" card","token":"a1b2c3","extra":5}"#)
        .unwrap();
    let text = card.to_json();
    let again = NfcCard::from_json(&text).unwrap();
    assert_eq!(again.id, "Front \"door\" card");
    assert_eq!(again.token, "a1b2c3");
}

#[test]
fn json_literal_escapes_quotes() {
    assert_eq!(json_literal("a\"b"), "\"a\\\"b\"");
    assert_eq!(json_literal(""), "\"\"");
}

#[test]
fn text_object_reads_back() {
    let t = text_object(&vec![("k".to_string(), "v".to_string())]);
    assert_eq!(t, r#"{"k":"v"}"#);
}

#[test]
fn parse_json_keeps_children_as_text() {
    match parse_json(r#"{"a":{"b":1},"c":"d"}"#) {
        Some(JsonNode::Object(ms)) => {
            assert_eq!(ms.len(), 2);
            assert!(ms.contains(&("a".to_string(), r#"{"b":1}"#.to_string())));
            assert!(ms.contains(&("c".to_string(), r#""d""#.to_string())));
        }
        other => panic!("unexpected {:?}", other),
    }
    assert!(parse_json("nope").is_none());
    assert!(matches!(parse_json("null"), Some(JsonNode::Null)));
}

#[test]
fn contains_text_finds_markers() {
    assert!(contains_text("xx TOKEN_EMPTY yy", "TOKEN_EMPTY"));
    assert!(!contains_text("TOKEN_EMPT", "TOKEN_EMPTY"));
    assert!(contains_text("abc", ""));
    assert!(!contains_text("", "a"));
}

#[test]
fn users_decode_with_nested_lists() {
    let raw = r#"{"code":"SUCCESS","msg":"ok","data":[
        {"id":"u1","first_name":"Ada","last_name":"L","nfc_cards":[{"id":"c","token":"t"}],
         "employee_number":"7","user_email":"a@x"},
        {"id":"u2","first_name":"Bo","last_name":"M","nfc_cards":[],
         "employee_number":"8","user_email":"b@x","access_policies":[{"id":"p","name":"Door"}]}
    ]}"#;
    let users: List<User> = request_typed("/api/v1/developer/users", raw).unwrap();
    assert_eq!(users.items.len(), 2);
    assert_eq!(users.items[0].nfc_cards[0].token, "t");
    assert!(users.items[0].access_policies.is_none());
    let p: &Vec<AccessPolicy> = users.items[1].access_policies.as_ref().unwrap();
    assert_eq!(p[0].name, "Door");
}

#[test]
fn user_with_bad_card_list_does_not_decode() {
    let text = r#"{"id":"u1","first_name":"A","last_name":"L","nfc_cards":[{"id":"c"}],
        "employee_number":"7","user_email":"a@x"}"#;
    assert!(User::from_json(text).is_none());
}

#[test]
fn users_response_reads_data() {
    let text = r#"{"data":[],"msg":"ok","code":"SUCCESS"}"#;
    let r = UsersResponse::from_json(text).unwrap();
    assert!(r.data.is_empty());
}
