use unifi_access::ops::{
    assign_card_request, assign_policies_request, card_holder, created_user_id, decimal,
    delete_card_request, devices_from_reply, register_user_request, system_log_request,
    unassign_card_request, user_policies_path,
};
use unifi_access::{request_url, ClientError, Method, NfcCard, SystemLogTopic};

fn card() -> NfcCard {
    NfcCard { id: "Card".to_string(), token: "tok9".to_string() }
}

#[test]
fn url_uses_port() {
    assert_eq!(request_url("10.0.0.2", "/api/v1/x"), "https://10.0.0.2:12445/api/v1/x");
}

#[test]
fn decimal_digits() {
    assert_eq!(decimal(0), "0");
    assert_eq!(decimal(7), "7");
    assert_eq!(decimal(1700000000), "1700000000");
    assert_eq!(decimal(u64::MAX), "18446744073709551615");
}

#[test]
fn devices_are_flattened_in_order() {
    let raw = r#"{"code":"SUCCESS","msg":"ok","data":[
        [{"id":"a","name":"A","type":"UAH"}],
        [],
        [{"id":"b","name":"B","type":"UA-G2"},{"id":"c","name":"C","type":"UAH"}]
    ]}"#;
    let ds = devices_from_reply(raw).unwrap();
    let ids: Vec<&str> = ds.iter().map(|d| d.id.as_str()).collect();
    assert_eq!(ids, vec!["a", "b", "c"]);
    assert_eq!(ds[1].device_type, "UA-G2");
}

#[test]
fn flat_device_list_is_schema_mismatch() {
    let raw = r#"{"code":"SUCCESS","msg":"ok","data":[{"id":"a","name":"A","type":"UAH"}]}"#;
    assert!(matches!(devices_from_reply(raw), Err(ClientError::SchemaMismatch { .. })));
}

#[test]
fn policy_assignment_body() {
    let r = assign_policies_request("u1", &vec!["p1".to_string(), "p2".to_string()]);
    assert_eq!(r.method, Method::Put);
    assert_eq!(r.path, "/api/v1/developer/users/u1/access_policies");
    assert_eq!(r.body.as_deref(), Some(r#"{"access_policy_ids":["p1","p2"]}"#));
    let empty = assign_policies_request("u1", &vec![]);
    assert_eq!(empty.body.as_deref(), Some(r#"{"access_policy_ids":[]}"#));
    assert_eq!(user_policies_path("u1"), r.path);
}

#[test]
fn card_requests() {
    let a = assign_card_request("u1", &card());
    assert_eq!(a.path, "/api/v1/developer/users/u1/nfc_cards");
    assert_eq!(a.body.as_deref(), Some(r#"{"token":"tok9"}"#));
    let u = unassign_card_request("u1", &card());
    assert_eq!(u.method, Method::Put);
    assert_eq!(u.path, "/api/v1/developer/users/u1/nfc_cards/delete");
    let d = delete_card_request(&card());
    assert_eq!(d.method, Method::Delete);
    assert_eq!(d.path, "/api/v1/developer/credentials/nfc_cards/tokens/tok9");
}

#[test]
fn register_body_and_reply() {
    let r = register_user_request("Ada", "Lovelace", "ada@x.org", "42", 1700000000);
    assert_eq!(r.method, Method::Post);
    assert_eq!(
        r.body.as_deref(),
        Some(r#"{"first_name":"Ada","last_name":"Lovelace","user_email":"ada@x.org","employee_number":"42","onboard_time":1700000000}"#)
    );
    let reply = r#"{"code":"SUCCESS","msg":"ok","data":{"id":"uuid-1","first_name":"Ada"}}"#;
    assert_eq!(created_user_id(reply).unwrap(), "uuid-1");
    let no_id = r#"{"code":"SUCCESS","msg":"ok","data":{"first_name":"Ada"}}"#;
    assert!(matches!(created_user_id(no_id), Err(ClientError::SchemaMismatch { .. })));
}

#[test]
fn card_holder_reply() {
    let held = r#"{"code":"SUCCESS","msg":"ok","data":{"token":"t","user_id":"u7"}}"#;
    assert_eq!(card_holder("/c", held).unwrap().as_deref(), Some("u7"));
    let free = r#"{"code":"SUCCESS","msg":"ok","data":{"token":"t","user_id":null}}"#;
    assert!(card_holder("/c", free).unwrap().is_none());
    let absent = r#"{"code":"SUCCESS","msg":"ok","data":{"token":"t"}}"#;
    assert!(card_holder("/c", absent).unwrap().is_none());
}

#[test]
fn system_log_body() {
    let r = system_log_request(&SystemLogTopic::DoorOpenings, Some(5));
    assert_eq!(r.path, "/api/v1/developer/system/logs");
    assert_eq!(r.body.as_deref(), Some(r#"{"since":5,"topic":"door_openings"}"#));
    let all = system_log_request(&SystemLogTopic::All, None);
    assert_eq!(all.body.as_deref(), Some(r#"{"since":null,"topic":"all"}"#));
    assert_eq!(SystemLogTopic::AdminActivity.as_str(), "admin_activity");
}
