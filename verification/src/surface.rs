//! The command surface: schema-validated entry points for the typed
//! requests that arrive from the host in wire form.
//!
//! Each handler decodes the caller's payload against the operation
//! schema and only then dispatches to the backend; a payload that does
//! not satisfy the schema is rejected as a malformed request before any
//! backend is reached. The handlers perform no business logic beyond
//! that decode: name, argument shape and result pass through unchanged.
//! Operations whose requests carry no payload have nothing to validate
//! and are invoked on [`AliyunPush`] directly, as is `initialize`,
//! whose configuration is backend specific and passes through opaquely.

use vstd::prelude::*;

use crate::bridge::effective_target;
use crate::bridge::list_tags_wire;
use crate::bridge::stub_refusal;
use crate::bridge::AliyunPush;
use crate::bridge::NativeCall;
use crate::error::malformed_message;
use crate::error::malformed_request;
use crate::error::Error;
use crate::models::account_request_wire;
use crate::models::alias_request_wire;
use crate::models::get_opt_i32;
use crate::models::parse_account_request;
use crate::models::parse_alias_request;
use crate::models::parse_opt_i32_field;
use crate::models::parse_tag_request;
use crate::models::tag_request_wire;
use crate::models::AccountRequest;
use crate::models::AliasRequest;
use crate::models::TagRequest;
use crate::wire::lookup;
use crate::wire::WireValue;

verus! {

/// A caller payload rejected by the operation schema, before any
/// backend was reached.
pub open spec fn malformed_refusal(r: Result<NativeCall, Error>) -> bool {
    &&& r matches Err(e)
    &&& e matches Error::Malformed(m)
    &&& m@ == malformed_message()
}

/// Accept a `bindAccount` payload, validate it, and dispatch.
pub fn handle_bind_account(push: &AliyunPush, args: &WireValue) -> (r: Result<NativeCall, Error>)
    ensures
        (match parse_account_request(*args) {
            Some(x) => {
                &&& (push.kind() is Stub ==> stub_refusal(r))
                &&& (push.kind() is Native ==> (r matches Ok(c) && c.method@ == "bindAccount"@
                    && account_request_wire(x, c.payload)))
            },
            None => malformed_refusal(r),
        }),
{
    match AccountRequest::from_wire(args) {
        Some(req) => push.bind_account(req.account),
        None => Err(malformed_request()),
    }
}

/// Accept a `bindTag` payload, validate it, and dispatch.
pub fn handle_bind_tag(push: &AliyunPush, args: &WireValue) -> (r: Result<NativeCall, Error>)
    ensures
        (match parse_tag_request(*args) {
            Some(x) => {
                &&& (push.kind() is Stub ==> stub_refusal(r))
                &&& (push.kind() is Native ==> (r matches Ok(c) && c.method@ == "bindTag"@
                    && tag_request_wire(x, c.payload)))
            },
            None => malformed_refusal(r),
        }),
{
    match TagRequest::from_wire(args) {
        Some(req) => push.bind_tag(req),
        None => Err(malformed_request()),
    }
}

/// Accept an `unbindTag` payload, validate it, and dispatch.
pub fn handle_unbind_tag(push: &AliyunPush, args: &WireValue) -> (r: Result<NativeCall, Error>)
    ensures
        (match parse_tag_request(*args) {
            Some(x) => {
                &&& (push.kind() is Stub ==> stub_refusal(r))
                &&& (push.kind() is Native ==> (r matches Ok(c) && c.method@ == "unbindTag"@
                    && tag_request_wire(x, c.payload)))
            },
            None => malformed_refusal(r),
        }),
{
    match TagRequest::from_wire(args) {
        Some(req) => push.unbind_tag(req),
        None => Err(malformed_request()),
    }
}

/// Accept a `bindAlias` payload, validate it, and dispatch.
pub fn handle_bind_alias(push: &AliyunPush, args: &WireValue) -> (r: Result<NativeCall, Error>)
    ensures
        (match parse_alias_request(*args) {
            Some(x) => {
                &&& (push.kind() is Stub ==> stub_refusal(r))
                &&& (push.kind() is Native ==> (r matches Ok(c) && c.method@ == "bindAlias"@
                    && alias_request_wire(x, c.payload)))
            },
            None => malformed_refusal(r),
        }),
{
    match AliasRequest::from_wire(args) {
        Some(req) => push.bind_alias(req.alias),
        None => Err(malformed_request()),
    }
}

/// Accept an `unbindAlias` payload, validate it, and dispatch.
pub fn handle_unbind_alias(push: &AliyunPush, args: &WireValue) -> (r: Result<NativeCall, Error>)
    ensures
        (match parse_alias_request(*args) {
            Some(x) => {
                &&& (push.kind() is Stub ==> stub_refusal(r))
                &&& (push.kind() is Native ==> (r matches Ok(c) && c.method@ == "unbindAlias"@
                    && alias_request_wire(x, c.payload)))
            },
            None => malformed_refusal(r),
        }),
{
    match AliasRequest::from_wire(args) {
        Some(req) => push.unbind_alias(req.alias),
        None => Err(malformed_request()),
    }
}

/// What a `listTags` payload means: no payload selects no explicit
/// target; a record may carry an optional `target`.
pub open spec fn parse_list_tags_args(v: WireValue) -> Option<Option<i32>> {
    match v {
        WireValue::Null => Some(None),
        WireValue::Obj(fields) => parse_opt_i32_field(lookup(fields@, "target"@)),
        _ => None,
    }
}

/// Accept a `listTags` payload, validate it, and dispatch.
pub fn handle_list_tags(push: &AliyunPush, args: &WireValue) -> (r: Result<NativeCall, Error>)
    ensures
        (match parse_list_tags_args(*args) {
            Some(target) => {
                &&& (push.kind() is Stub ==> stub_refusal(r))
                &&& (push.kind() is Native ==> (r matches Ok(c) && c.method@ == "listTags"@
                    && list_tags_wire(effective_target(target), c.payload)))
            },
            None => malformed_refusal(r),
        }),
{
    let target: Option<i32> = match args {
        WireValue::Null => None,
        WireValue::Obj(fields) => {
            let key = "target".to_owned();
            match get_opt_i32(fields, &key) {
                Some(o) => o,
                None => {
                    return Err(malformed_request());
                },
            }
        },
        _ => {
            return Err(malformed_request());
        },
    };
    push.list_tags(target)
}

} // verus!
