//! Dispatch behaviour: the stub path, the native forwarding path, the
//! command surface, and reply decoding.

use aliyun_push::bridge::decode_channel_status_reply;
use aliyun_push::bridge::decode_device_id_reply;
use aliyun_push::bridge::decode_operation_reply;
use aliyun_push::bridge::decode_permission_reply;
use aliyun_push::bridge::decode_tag_list_reply;
use aliyun_push::models::OperationResponse;
use aliyun_push::surface::handle_bind_account;
use aliyun_push::surface::handle_bind_alias;
use aliyun_push::surface::handle_bind_tag;
use aliyun_push::surface::handle_list_tags;
use aliyun_push::surface::handle_unbind_alias;
use aliyun_push::surface::handle_unbind_tag;
use aliyun_push::AliyunPush;
use aliyun_push::BackendKind;
use aliyun_push::Error;
use aliyun_push::NativeCall;
use aliyun_push::NativeReply;
use aliyun_push::TagRequest;
use aliyun_push::WireValue;

fn stub() -> AliyunPush {
    AliyunPush::new(BackendKind::Stub)
}

fn native() -> AliyunPush {
    AliyunPush::new(BackendKind::Native)
}

fn record(fields: Vec<(&str, WireValue)>) -> WireValue {
    WireValue::Obj(fields.into_iter().map(|(k, v)| (k.to_string(), v)).collect())
}

fn text(value: &str) -> WireValue {
    WireValue::Str(value.to_string())
}

fn assert_unsupported(r: Result<NativeCall, Error>) {
    match r {
        Err(Error::PlatformUnsupported(m)) => {
            assert!(m.contains("only available on mobile platforms"));
        },
        other => panic!("expected a platform-unsupported refusal, got {:?}", other),
    }
}

#[test]
fn stub_refuses_every_operation() {
    let push = stub();
    assert_unsupported(push.initialize(WireValue::Null));
    assert_unsupported(push.get_device_id());
    assert_unsupported(push.bind_account("a".to_string()));
    assert_unsupported(push.unbind_account());
    assert_unsupported(push.bind_tag(TagRequest { tags: vec![], target: None, alias: None }));
    assert_unsupported(push.unbind_tag(TagRequest { tags: vec![], target: None, alias: None }));
    assert_unsupported(push.bind_alias("n".to_string()));
    assert_unsupported(push.unbind_alias("n".to_string()));
    assert_unsupported(push.list_tags(None));
    assert_unsupported(push.turn_on_push_channel());
    assert_unsupported(push.turn_off_push_channel());
    assert_unsupported(push.check_push_channel_status());
    assert_unsupported(push.request_notification_permission());
}

#[test]
fn stub_get_device_id_names_mobile_platforms() {
    match stub().get_device_id() {
        Err(Error::PlatformUnsupported(m)) => {
            assert!(m.contains("only available on mobile platforms"));
            assert_eq!(m, "Aliyun Push is only available on mobile platforms");
        },
        other => panic!("expected a platform-unsupported refusal, got {:?}", other),
    }
}

#[test]
fn native_get_device_id_forwards_empty_payload() {
    let call = native().get_device_id().unwrap();
    assert_eq!(call.method, "getDeviceId");
    assert_eq!(call.payload, WireValue::Null);
}

#[test]
fn native_bind_account_wraps_scalar_into_record() {
    let call = native().bind_account("user-1".to_string()).unwrap();
    assert_eq!(call.method, "bindAccount");
    assert_eq!(call.payload, record(vec![("account", text("user-1"))]));
}

#[test]
fn native_bind_alias_wraps_scalar_into_record() {
    let call = native().bind_alias("nick".to_string()).unwrap();
    assert_eq!(call.method, "bindAlias");
    assert_eq!(call.payload, record(vec![("alias", text("nick"))]));
    let call = native().unbind_alias("nick".to_string()).unwrap();
    assert_eq!(call.method, "unbindAlias");
    assert_eq!(call.payload, record(vec![("alias", text("nick"))]));
}

#[test]
fn native_initialize_passes_config_through() {
    let config = || record(vec![("appKey", text("k")), ("appSecret", text("s"))]);
    let call = native().initialize(config()).unwrap();
    assert_eq!(call.method, "initialize");
    assert_eq!(call.payload, config());
}

#[test]
fn list_tags_without_target_forwards_device_scope() {
    let call = native().list_tags(None).unwrap();
    assert_eq!(call.method, "listTags");
    assert_eq!(call.payload, record(vec![("target", WireValue::Int(1))]));
}

#[test]
fn list_tags_omitted_target_equals_explicit_one() {
    let omitted = native().list_tags(None).unwrap();
    let explicit = native().list_tags(Some(1)).unwrap();
    assert_eq!(omitted, explicit);
}

#[test]
fn list_tags_explicit_target_is_kept() {
    let call = native().list_tags(Some(2)).unwrap();
    assert_eq!(call.payload, record(vec![("target", WireValue::Int(2))]));
}

#[test]
fn bind_tag_scenario_echoed_success() {
    let push = native();
    let request = TagRequest {
        tags: vec!["vip".to_string(), "beta".to_string()],
        target: None,
        alias: Some("u1".to_string()),
    };
    let call = push.bind_tag(request).unwrap();
    assert_eq!(call.method, "bindTag");
    assert_eq!(
        call.payload,
        record(vec![
            ("tags", WireValue::Arr(vec![text("vip"), text("beta")])),
            ("target", WireValue::Null),
            ("alias", text("u1")),
        ]),
    );
    let echo = OperationResponse { success: true, response: "OK".to_string() };
    let reply = NativeReply::Value(echo.to_wire());
    let result = decode_operation_reply(reply).unwrap();
    assert!(result.success);
    assert_eq!(result.response, "OK");
}

#[test]
fn repeated_bind_account_succeeds_each_time() {
    let push = native();
    let mut outcomes = Vec::new();
    for _ in 0..3 {
        let call = push.bind_account("same-user".to_string()).unwrap();
        assert_eq!(call.method, "bindAccount");
        assert_eq!(call.payload, record(vec![("account", text("same-user"))]));
        let reply = NativeReply::Value(
            OperationResponse { success: true, response: "bound".to_string() }.to_wire(),
        );
        outcomes.push(decode_operation_reply(reply).unwrap());
    }
    for outcome in outcomes {
        assert!(outcome.success);
        assert_eq!(outcome.response, "bound");
    }
}

#[test]
fn unknown_method_fault_becomes_bridge_error() {
    let fault = NativeReply::Fault("unknown method checkPushChannelStatus".to_string());
    match decode_channel_status_reply(fault) {
        Err(Error::Bridge(m)) => assert_eq!(m, "unknown method checkPushChannelStatus"),
        other => panic!("expected a bridge error, got {:?}", other),
    }
}

#[test]
fn misshapen_reply_becomes_bridge_error() {
    match decode_device_id_reply(NativeReply::Value(WireValue::Null)) {
        Err(Error::Bridge(m)) => assert_eq!(m, "invalid response from native plugin"),
        other => panic!("expected a bridge error, got {:?}", other),
    }
    let missing_status = record(vec![("success", WireValue::Bool(true))]);
    assert!(matches!(
        decode_channel_status_reply(NativeReply::Value(missing_status)),
        Err(Error::Bridge(_)),
    ));
}

#[test]
fn device_id_reply_decodes() {
    let reply = NativeReply::Value(record(vec![("deviceId", text("dev-9"))]));
    let resp = decode_device_id_reply(reply).unwrap();
    assert_eq!(resp.device_id, "dev-9");
}

#[test]
fn tag_list_reply_decodes() {
    let reply = NativeReply::Value(record(vec![
        ("success", WireValue::Bool(true)),
        ("tags", text("[\"vip\"]")),
    ]));
    let resp = decode_tag_list_reply(reply).unwrap();
    assert!(resp.success);
    assert_eq!(resp.tags, "[\"vip\"]");
}

#[test]
fn permission_reply_passes_through() {
    let value = || record(vec![("granted", WireValue::Bool(true))]);
    let out = decode_permission_reply(NativeReply::Value(value())).unwrap();
    assert_eq!(out, value());
    match decode_permission_reply(NativeReply::Fault("denied".to_string())) {
        Err(Error::Bridge(m)) => assert_eq!(m, "denied"),
        other => panic!("expected a bridge error, got {:?}", other),
    }
}

#[test]
fn handler_rejects_malformed_payload() {
    let push = native();
    match handle_bind_account(&push, &WireValue::Null) {
        Err(Error::Malformed(m)) => assert_eq!(m, "malformed request payload"),
        other => panic!("expected a malformed-request refusal, got {:?}", other),
    }
    assert!(matches!(
        handle_bind_tag(&push, &record(vec![("target", WireValue::Int(1))])),
        Err(Error::Malformed(_)),
    ));
    assert!(matches!(
        handle_bind_alias(&push, &record(vec![])),
        Err(Error::Malformed(_)),
    ));
    assert!(matches!(
        handle_unbind_alias(&push, &WireValue::Bool(true)),
        Err(Error::Malformed(_)),
    ));
    assert!(matches!(
        handle_list_tags(&push, &text("nope")),
        Err(Error::Malformed(_)),
    ));
}

#[test]
fn handler_dispatches_valid_payload() {
    let push = native();
    let call = handle_bind_account(&push, &record(vec![("account", text("u"))])).unwrap();
    assert_eq!(call.method, "bindAccount");
    let call = handle_unbind_tag(
        &push,
        &record(vec![("tags", WireValue::Arr(vec![text("vip")]))]),
    )
    .unwrap();
    assert_eq!(call.method, "unbindTag");
    let call = handle_list_tags(&push, &WireValue::Null).unwrap();
    assert_eq!(call.payload, record(vec![("target", WireValue::Int(1))]));
    let call = handle_list_tags(&push, &record(vec![("target", WireValue::Int(7))])).unwrap();
    assert_eq!(call.payload, record(vec![("target", WireValue::Int(7))]));
}

#[test]
fn handler_on_stub_still_validates_first() {
    let push = stub();
    assert!(matches!(
        handle_bind_account(&push, &WireValue::Null),
        Err(Error::Malformed(_)),
    ));
    assert_unsupported(handle_bind_account(&push, &record(vec![("account", text("u"))])));
}

#[test]
fn error_message_accessor_reads_detail() {
    let e = Error::Bridge("boom".to_string());
    assert_eq!(e.message(), "boom");
    let e = Error::Malformed("bad".to_string());
    assert_eq!(e.message(), "bad");
    match stub().get_device_id() {
        Err(e) => assert_eq!(e.message(), "Aliyun Push is only available on mobile platforms"),
        Ok(_) => panic!("the stub never forwards"),
    }
}
