//! Wire codec behaviour: round trips, schema validation, defaults.

use aliyun_push::models::AccountRequest;
use aliyun_push::models::AliasRequest;
use aliyun_push::models::ChannelStatusResponse;
use aliyun_push::models::DeviceIdResponse;
use aliyun_push::models::OperationResponse;
use aliyun_push::models::PushNotification;
use aliyun_push::models::TagListResponse;
use aliyun_push::models::TagRequest;
use aliyun_push::WireValue;

fn obj(fields: Vec<(&str, WireValue)>) -> WireValue {
    WireValue::Obj(fields.into_iter().map(|(k, v)| (k.to_string(), v)).collect())
}

fn s(text: &str) -> WireValue {
    WireValue::Str(text.to_string())
}

#[test]
fn account_request_round_trips() {
    let req = AccountRequest { account: "user-17".to_string() };
    let wire = req.to_wire();
    let back = AccountRequest::from_wire(&wire).expect("schema-conformant");
    assert_eq!(back, req);
}

#[test]
fn account_request_wire_shape() {
    let wire = AccountRequest { account: "a".to_string() }.to_wire();
    assert_eq!(wire, obj(vec![("account", s("a"))]));
}

#[test]
fn account_request_missing_field_rejected() {
    assert_eq!(AccountRequest::from_wire(&obj(vec![("user", s("a"))])), None);
    assert_eq!(AccountRequest::from_wire(&WireValue::Null), None);
    assert_eq!(AccountRequest::from_wire(&obj(vec![("account", WireValue::Int(3))])), None);
}

#[test]
fn account_request_unknown_fields_ignored() {
    let wire = obj(vec![("other", WireValue::Bool(true)), ("account", s("u"))]);
    let back = AccountRequest::from_wire(&wire).expect("unknown fields are ignored");
    assert_eq!(back.account, "u");
}

#[test]
fn duplicate_field_resolves_to_first() {
    let wire = obj(vec![("account", s("first")), ("account", s("second"))]);
    let back = AccountRequest::from_wire(&wire).unwrap();
    assert_eq!(back.account, "first");
}

#[test]
fn alias_request_round_trips() {
    let req = AliasRequest { alias: "nick".to_string() };
    let back = AliasRequest::from_wire(&req.to_wire()).unwrap();
    assert_eq!(back, req);
}

#[test]
fn device_id_response_round_trips() {
    let resp = DeviceIdResponse { device_id: "dev-123".to_string() };
    let wire = resp.to_wire();
    assert_eq!(wire, obj(vec![("deviceId", s("dev-123"))]));
    assert_eq!(DeviceIdResponse::from_wire(&wire).unwrap(), resp);
}

#[test]
fn operation_response_round_trips() {
    let resp = OperationResponse { success: true, response: "OK".to_string() };
    let wire = resp.to_wire();
    assert_eq!(
        wire,
        obj(vec![("success", WireValue::Bool(true)), ("response", s("OK"))]),
    );
    assert_eq!(OperationResponse::from_wire(&wire).unwrap(), resp);
}

#[test]
fn channel_status_response_round_trips() {
    let resp = ChannelStatusResponse { success: true, status: "ON".to_string() };
    assert_eq!(ChannelStatusResponse::from_wire(&resp.to_wire()).unwrap(), resp);
}

#[test]
fn tag_list_response_round_trips() {
    let resp = TagListResponse { success: true, tags: "[\"vip\"]".to_string() };
    assert_eq!(TagListResponse::from_wire(&resp.to_wire()).unwrap(), resp);
}

#[test]
fn tag_request_round_trips_full() {
    let req = TagRequest {
        tags: vec!["vip".to_string(), "beta".to_string()],
        target: Some(2),
        alias: Some("u1".to_string()),
    };
    let back = TagRequest::from_wire(&req.to_wire()).unwrap();
    assert_eq!(back, req);
}

#[test]
fn tag_request_round_trips_minimal() {
    let req = TagRequest { tags: vec![], target: None, alias: None };
    let back = TagRequest::from_wire(&req.to_wire()).unwrap();
    assert_eq!(back, req);
}

#[test]
fn tag_request_wire_shape() {
    let req = TagRequest { tags: vec!["vip".to_string()], target: None, alias: None };
    assert_eq!(
        req.to_wire(),
        obj(vec![
            ("tags", WireValue::Arr(vec![s("vip")])),
            ("target", WireValue::Null),
            ("alias", WireValue::Null),
        ]),
    );
}

#[test]
fn tag_request_optional_fields_may_be_absent() {
    let wire = obj(vec![("tags", WireValue::Arr(vec![s("vip")]))]);
    let back = TagRequest::from_wire(&wire).unwrap();
    assert_eq!(back.tags, vec!["vip".to_string()]);
    assert_eq!(back.target, None);
    assert_eq!(back.alias, None);
}

#[test]
fn tag_request_requires_tags() {
    assert_eq!(TagRequest::from_wire(&obj(vec![("target", WireValue::Int(1))])), None);
    assert_eq!(TagRequest::from_wire(&obj(vec![("tags", WireValue::Null)])), None);
}

#[test]
fn tag_request_rejects_non_string_tag() {
    let wire = obj(vec![("tags", WireValue::Arr(vec![s("vip"), WireValue::Int(7)]))]);
    assert_eq!(TagRequest::from_wire(&wire), None);
}

#[test]
fn tag_request_rejects_out_of_range_target() {
    let wire = obj(vec![
        ("tags", WireValue::Arr(vec![])),
        ("target", WireValue::Int(i64::from(i32::MAX) + 1)),
    ]);
    assert_eq!(TagRequest::from_wire(&wire), None);
}

#[test]
fn push_notification_round_trips_with_extras() {
    let extras = || obj(vec![("badge", WireValue::Int(3))]);
    let msg = PushNotification {
        kind: "notice".to_string(),
        title: "Hello".to_string(),
        content: "World".to_string(),
        extras: Some(extras()),
    };
    let back = PushNotification::from_wire(msg.to_wire()).unwrap();
    assert_eq!(back.kind, "notice");
    assert_eq!(back.title, "Hello");
    assert_eq!(back.content, "World");
    assert_eq!(back.extras, Some(extras()));
}

#[test]
fn push_notification_round_trips_without_extras() {
    let msg = PushNotification {
        kind: "message".to_string(),
        title: "t".to_string(),
        content: "c".to_string(),
        extras: None,
    };
    let back = PushNotification::from_wire(msg.to_wire()).unwrap();
    assert_eq!(back.extras, None);
    assert_eq!(back.kind, "message");
}

#[test]
fn push_notification_requires_all_texts() {
    let wire = obj(vec![("type", s("n")), ("title", s("t"))]);
    assert_eq!(PushNotification::from_wire(wire), None);
}

#[test]
fn response_defaults_are_failure_and_empty() {
    let op = OperationResponse::default();
    assert!(!op.success);
    assert_eq!(op.response, "");
    let dev = DeviceIdResponse::default();
    assert_eq!(dev.device_id, "");
    let status = ChannelStatusResponse::default();
    assert!(!status.success);
    assert_eq!(status.status, "");
    let tags = TagListResponse::default();
    assert!(!tags.success);
    assert_eq!(tags.tags, "");
}
