//! The backend router and the native bridge protocol.
//!
//! At setup time the host constructs exactly one [`AliyunPush`] for the
//! whole process: on a mobile platform it routes to the native push SDK,
//! elsewhere to the built-in stub. Each operation either resolves at once
//! (the stub path refuses it uniformly, without reaching any native
//! layer) or yields the exact [`NativeCall`] the host must forward to
//! the native plugin: the operation's wire method name together with its
//! marshalled payload. Whatever the native layer answers comes back as a
//! [`NativeReply`], and a `decode_...` function turns it into the typed
//! response, folding a native fault or a malformed native response into
//! the single bridge error channel. The bridge keeps no state between
//! calls: every call is marshalled, forwarded and decoded on its own.

use vstd::prelude::*;

use crate::error::bridge_decode_failure;
use crate::error::decode_failure_message;
use crate::error::platform_unsupported;
use crate::error::stub_message;
use crate::error::Error;
use crate::models::account_request_wire;
use crate::models::alias_request_wire;
use crate::models::parse_account_request;
use crate::models::parse_channel_status_response;
use crate::models::parse_device_id_response;
use crate::models::parse_operation_response;
use crate::models::parse_tag_list_response;
use crate::models::lemma_account_request_round_trip;
use crate::models::tag_request_wire;
use crate::models::AccountRequest;
use crate::models::AccountRequestView;
use crate::models::AliasRequest;
use crate::models::AliasRequestView;
use crate::models::ChannelStatusResponse;
use crate::models::DeviceIdResponse;
use crate::models::OperationResponse;
use crate::models::TagListResponse;
use crate::models::TagRequest;
use crate::wire::WireValue;

verus! {

/// Which backend the router selected for this process.
#[derive(Clone, Copy, Debug, PartialEq, Eq, Structural)]
pub enum BackendKind {
    /// No native push SDK exists on this platform; every operation is
    /// refused uniformly.
    Stub,
    /// A native push SDK is registered; operations are forwarded to it.
    Native,
}

/// One call to forward to the native plugin: the operation's wire
/// method name and its marshalled payload.
#[derive(Debug, PartialEq)]
pub struct NativeCall {
    pub method: String,
    pub payload: WireValue,
}

/// What the native plugin answered: a structured value, or a fault
/// (the backend was unreachable, the method unknown, or the call
/// failed) carrying the native detail as an opaque string.
#[derive(Debug, PartialEq)]
pub enum NativeReply {
    Value(WireValue),
    Fault(String),
}

/// A stub-path outcome: the uniform platform-unsupported refusal,
/// resolved without producing any native call.
pub open spec fn stub_refusal(r: Result<NativeCall, Error>) -> bool {
    &&& r matches Err(e)
    &&& e matches Error::PlatformUnsupported(m)
    &&& m@ == stub_message()
}

/// A stub refusal carries no native call: an operation refused as
/// unsupported never reaches the native layer.
pub proof fn lemma_stub_never_calls_native(r: Result<NativeCall, Error>)
    requires
        stub_refusal(r),
    ensures
        !(r is Ok),
{
}

/// The target scope actually forwarded for a tag query: the explicit
/// target, or the device-scope sentinel 1 when it was omitted.
pub open spec fn effective_target(target: Option<i32>) -> i32 {
    match target {
        Some(n) => n,
        None => 1,
    }
}

/// Default-substitution invariant: omitting the target is equivalent
/// to supplying target 1 — both resolve to the device scope, and the
/// native layer receives the very same request either way.
pub proof fn lemma_omitted_target_is_device_scope(v: WireValue)
    ensures
        effective_target(None) == effective_target(Some(1i32)),
        list_tags_wire(effective_target(None), v) <==> list_tags_wire(
            effective_target(Some(1i32)),
            v,
        ),
{
}

/// The exact wire form of the tag query: one field, `target`.
pub open spec fn list_tags_wire(target: i32, v: WireValue) -> bool {
    &&& v matches WireValue::Obj(fields)
    &&& fields@.len() == 1
    &&& fields@[0].0@ == "target"@
    &&& fields@[0].1 == WireValue::Int(target as i64)
}

/// The process-wide access point to the push operations, bound to the
/// one backend the router selected at setup.
pub struct AliyunPush {
    backend: BackendKind,
}

impl AliyunPush {
    /// Which backend this access point routes to.
    pub closed spec fn kind(self) -> BackendKind {
        self.backend
    }

    /// Bind the access point to the backend the platform offers.
    /// The host constructs exactly one per process, at setup.
    pub fn new(backend: BackendKind) -> (r: AliyunPush)
        ensures
            r.kind() == backend,
    {
        AliyunPush { backend }
    }

    /// One-time setup of the native SDK. The configuration is backend
    /// specific and passes through to the native layer unchanged.
    pub fn initialize(&self, config: WireValue) -> (r: Result<NativeCall, Error>)
        ensures
            self.kind() is Stub ==> stub_refusal(r),
            self.kind() is Native ==> (r matches Ok(c) && c.method@ == "initialize"@
                && c.payload == config),
    {
        match self.backend {
            BackendKind::Stub => Err(platform_unsupported()),
            BackendKind::Native => Ok(
                NativeCall { method: "initialize".to_owned(), payload: config },
            ),
        }
    }

    /// Ask the native SDK for the registered device identifier.
    pub fn get_device_id(&self) -> (r: Result<NativeCall, Error>)
        ensures
            self.kind() is Stub ==> stub_refusal(r),
            self.kind() is Native ==> (r matches Ok(c) && c.method@ == "getDeviceId"@
                && c.payload is Null),
    {
        match self.backend {
            BackendKind::Stub => Err(platform_unsupported()),
            BackendKind::Native => Ok(
                NativeCall { method: "getDeviceId".to_owned(), payload: WireValue::Null },
            ),
        }
    }

    /// Bind an account. The bare account name is wrapped into a
    /// one-field record: the native boundary accepts only records.
    pub fn bind_account(&self, account: String) -> (r: Result<NativeCall, Error>)
        ensures
            self.kind() is Stub ==> stub_refusal(r),
            self.kind() is Native ==> (r matches Ok(c) && c.method@ == "bindAccount"@
                && account_request_wire(AccountRequestView { account: account@ }, c.payload)),
    {
        match self.backend {
            BackendKind::Stub => Err(platform_unsupported()),
            BackendKind::Native => {
                let payload = AccountRequest { account }.to_wire();
                Ok(NativeCall { method: "bindAccount".to_owned(), payload })
            },
        }
    }

    /// Unbind the bound account, if any; the native layer decides.
    pub fn unbind_account(&self) -> (r: Result<NativeCall, Error>)
        ensures
            self.kind() is Stub ==> stub_refusal(r),
            self.kind() is Native ==> (r matches Ok(c) && c.method@ == "unbindAccount"@
                && c.payload is Null),
    {
        match self.backend {
            BackendKind::Stub => Err(platform_unsupported()),
            BackendKind::Native => Ok(
                NativeCall { method: "unbindAccount".to_owned(), payload: WireValue::Null },
            ),
        }
    }

    /// Bind tags to the device or to an alias.
    pub fn bind_tag(&self, request: TagRequest) -> (r: Result<NativeCall, Error>)
        ensures
            self.kind() is Stub ==> stub_refusal(r),
            self.kind() is Native ==> (r matches Ok(c) && c.method@ == "bindTag"@
                && tag_request_wire(request@, c.payload)),
    {
        match self.backend {
            BackendKind::Stub => Err(platform_unsupported()),
            BackendKind::Native => {
                let payload = request.to_wire();
                Ok(NativeCall { method: "bindTag".to_owned(), payload })
            },
        }
    }

    /// Unbind tags from the device or from an alias.
    pub fn unbind_tag(&self, request: TagRequest) -> (r: Result<NativeCall, Error>)
        ensures
            self.kind() is Stub ==> stub_refusal(r),
            self.kind() is Native ==> (r matches Ok(c) && c.method@ == "unbindTag"@
                && tag_request_wire(request@, c.payload)),
    {
        match self.backend {
            BackendKind::Stub => Err(platform_unsupported()),
            BackendKind::Native => {
                let payload = request.to_wire();
                Ok(NativeCall { method: "unbindTag".to_owned(), payload })
            },
        }
    }

    /// Bind an alias, wrapped into a one-field record.
    pub fn bind_alias(&self, alias: String) -> (r: Result<NativeCall, Error>)
        ensures
            self.kind() is Stub ==> stub_refusal(r),
            self.kind() is Native ==> (r matches Ok(c) && c.method@ == "bindAlias"@
                && alias_request_wire(AliasRequestView { alias: alias@ }, c.payload)),
    {
        match self.backend {
            BackendKind::Stub => Err(platform_unsupported()),
            BackendKind::Native => {
                let payload = AliasRequest { alias }.to_wire();
                Ok(NativeCall { method: "bindAlias".to_owned(), payload })
            },
        }
    }

    /// Unbind an alias, wrapped into a one-field record.
    pub fn unbind_alias(&self, alias: String) -> (r: Result<NativeCall, Error>)
        ensures
            self.kind() is Stub ==> stub_refusal(r),
            self.kind() is Native ==> (r matches Ok(c) && c.method@ == "unbindAlias"@
                && alias_request_wire(AliasRequestView { alias: alias@ }, c.payload)),
    {
        match self.backend {
            BackendKind::Stub => Err(platform_unsupported()),
            BackendKind::Native => {
                let payload = AliasRequest { alias }.to_wire();
                Ok(NativeCall { method: "unbindAlias".to_owned(), payload })
            },
        }
    }

    /// Query the bound tags. An omitted target is substituted with the
    /// device-scope sentinel before the request is forwarded.
    pub fn list_tags(&self, target: Option<i32>) -> (r: Result<NativeCall, Error>)
        ensures
            self.kind() is Stub ==> stub_refusal(r),
            self.kind() is Native ==> (r matches Ok(c) && c.method@ == "listTags"@
                && list_tags_wire(effective_target(target), c.payload)),
    {
        match self.backend {
            BackendKind::Stub => Err(platform_unsupported()),
            BackendKind::Native => {
                let t: i32 = match target {
                    Some(n) => n,
                    None => 1,
                };
                let mut fields: Vec<(String, WireValue)> = Vec::new();
                fields.push(("target".to_owned(), WireValue::Int(t as i64)));
                Ok(NativeCall { method: "listTags".to_owned(), payload: WireValue::Obj(fields) })
            },
        }
    }

    /// Turn the push channel on.
    pub fn turn_on_push_channel(&self) -> (r: Result<NativeCall, Error>)
        ensures
            self.kind() is Stub ==> stub_refusal(r),
            self.kind() is Native ==> (r matches Ok(c) && c.method@ == "turnOnPushChannel"@
                && c.payload is Null),
    {
        match self.backend {
            BackendKind::Stub => Err(platform_unsupported()),
            BackendKind::Native => Ok(
                NativeCall { method: "turnOnPushChannel".to_owned(), payload: WireValue::Null },
            ),
        }
    }

    /// Turn the push channel off.
    pub fn turn_off_push_channel(&self) -> (r: Result<NativeCall, Error>)
        ensures
            self.kind() is Stub ==> stub_refusal(r),
            self.kind() is Native ==> (r matches Ok(c) && c.method@ == "turnOffPushChannel"@
                && c.payload is Null),
    {
        match self.backend {
            BackendKind::Stub => Err(platform_unsupported()),
            BackendKind::Native => Ok(
                NativeCall { method: "turnOffPushChannel".to_owned(), payload: WireValue::Null },
            ),
        }
    }

    /// Query the state of the push channel.
    pub fn check_push_channel_status(&self) -> (r: Result<NativeCall, Error>)
        ensures
            self.kind() is Stub ==> stub_refusal(r),
            self.kind() is Native ==> (r matches Ok(c) && c.method@ == "checkPushChannelStatus"@
                && c.payload is Null),
    {
        match self.backend {
            BackendKind::Stub => Err(platform_unsupported()),
            BackendKind::Native => Ok(
                NativeCall {
                    method: "checkPushChannelStatus".to_owned(),
                    payload: WireValue::Null,
                },
            ),
        }
    }

    /// Ask the platform for notification permission. The native answer
    /// is backend specific and is handed back to the caller opaquely.
    pub fn request_notification_permission(&self) -> (r: Result<NativeCall, Error>)
        ensures
            self.kind() is Stub ==> stub_refusal(r),
            self.kind() is Native ==> (r matches Ok(c)
                && c.method@ == "requestNotificationPermission"@ && c.payload is Null),
    {
        match self.backend {
            BackendKind::Stub => Err(platform_unsupported()),
            BackendKind::Native => Ok(
                NativeCall {
                    method: "requestNotificationPermission".to_owned(),
                    payload: WireValue::Null,
                },
            ),
        }
    }
}

// ---------------------------------------------------------------------
// Decoding native replies.
// ---------------------------------------------------------------------

/// Decode the reply of a mutation operation. A native fault becomes a
/// bridge error carrying the native detail; a reply that does not
/// match the response schema becomes a bridge error as well.
pub fn decode_operation_reply(reply: NativeReply) -> (r: Result<OperationResponse, Error>)
    ensures
        (match reply {
            NativeReply::Fault(m) => (r matches Err(e) && e matches Error::Bridge(b) && b@ == m@),
            NativeReply::Value(v) => (match parse_operation_response(v) {
                Some(x) => (r matches Ok(resp) && resp@ == x),
                None => (r matches Err(e) && e matches Error::Bridge(b)
                    && b@ == decode_failure_message()),
            }),
        }),
{
    match reply {
        NativeReply::Fault(m) => Err(Error::Bridge(m)),
        NativeReply::Value(v) => match OperationResponse::from_wire(&v) {
            Some(resp) => Ok(resp),
            None => Err(bridge_decode_failure()),
        },
    }
}

/// Decode the reply of `getDeviceId`.
pub fn decode_device_id_reply(reply: NativeReply) -> (r: Result<DeviceIdResponse, Error>)
    ensures
        (match reply {
            NativeReply::Fault(m) => (r matches Err(e) && e matches Error::Bridge(b) && b@ == m@),
            NativeReply::Value(v) => (match parse_device_id_response(v) {
                Some(x) => (r matches Ok(resp) && resp@ == x),
                None => (r matches Err(e) && e matches Error::Bridge(b)
                    && b@ == decode_failure_message()),
            }),
        }),
{
    match reply {
        NativeReply::Fault(m) => Err(Error::Bridge(m)),
        NativeReply::Value(v) => match DeviceIdResponse::from_wire(&v) {
            Some(resp) => Ok(resp),
            None => Err(bridge_decode_failure()),
        },
    }
}

/// Decode the reply of `checkPushChannelStatus`.
pub fn decode_channel_status_reply(reply: NativeReply) -> (r: Result<ChannelStatusResponse, Error>)
    ensures
        (match reply {
            NativeReply::Fault(m) => (r matches Err(e) && e matches Error::Bridge(b) && b@ == m@),
            NativeReply::Value(v) => (match parse_channel_status_response(v) {
                Some(x) => (r matches Ok(resp) && resp@ == x),
                None => (r matches Err(e) && e matches Error::Bridge(b)
                    && b@ == decode_failure_message()),
            }),
        }),
{
    match reply {
        NativeReply::Fault(m) => Err(Error::Bridge(m)),
        NativeReply::Value(v) => match ChannelStatusResponse::from_wire(&v) {
            Some(resp) => Ok(resp),
            None => Err(bridge_decode_failure()),
        },
    }
}

/// Decode the reply of `listTags`.
pub fn decode_tag_list_reply(reply: NativeReply) -> (r: Result<TagListResponse, Error>)
    ensures
        (match reply {
            NativeReply::Fault(m) => (r matches Err(e) && e matches Error::Bridge(b) && b@ == m@),
            NativeReply::Value(v) => (match parse_tag_list_response(v) {
                Some(x) => (r matches Ok(resp) && resp@ == x),
                None => (r matches Err(e) && e matches Error::Bridge(b)
                    && b@ == decode_failure_message()),
            }),
        }),
{
    match reply {
        NativeReply::Fault(m) => Err(Error::Bridge(m)),
        NativeReply::Value(v) => match TagListResponse::from_wire(&v) {
            Some(resp) => Ok(resp),
            None => Err(bridge_decode_failure()),
        },
    }
}

/// Decode the reply of `requestNotificationPermission`: the native
/// answer passes through to the caller unchanged.
pub fn decode_permission_reply(reply: NativeReply) -> (r: Result<WireValue, Error>)
    ensures
        (match reply {
            NativeReply::Fault(m) => (r matches Err(e) && e matches Error::Bridge(b) && b@ == m@),
            NativeReply::Value(v) => r == Ok::<WireValue, Error>(v),
        }),
{
    match reply {
        NativeReply::Fault(m) => Err(Error::Bridge(m)),
        NativeReply::Value(v) => Ok(v),
    }
}

/// No bridge-level deduplication: repeated `bindAccount` calls with
/// the same account each forward an equivalent request — the payload
/// is a function of the account alone — and each reply is decoded on
/// its own, so a native backend that answers every one of them with
/// success makes every call independently report success.
pub proof fn lemma_bind_account_idempotent(
    account: Seq<char>,
    p1: WireValue,
    p2: WireValue,
    v: WireValue,
)
    requires
        account_request_wire(AccountRequestView { account }, p1),
        account_request_wire(AccountRequestView { account }, p2),
        (parse_operation_response(v) matches Some(x) && x.success),
    ensures
        parse_account_request(p1) == parse_account_request(p2),
        parse_account_request(p1) == Some(AccountRequestView { account }),
        (parse_operation_response(v) matches Some(x) && x.success),
{
    lemma_account_request_round_trip(AccountRequestView { account }, p1);
    lemma_account_request_round_trip(AccountRequestView { account }, p2);
}

} // verus!
