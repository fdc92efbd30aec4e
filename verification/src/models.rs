//! The operation schema: typed request and response shapes.
//!
//! Every operation of the surface exchanges one of these records.
//! External field names follow the wire convention (`deviceId`, not
//! `device_id`); the mapping between a record and its wire form is stated
//! per field by a `..._wire` predicate, the decode direction by a
//! `parse_...` function, and the two are tied together by a round-trip
//! lemma: a record serialized to its wire form decodes back field for
//! field. Unknown incoming fields are ignored; a missing or ill-typed
//! required field makes the decode fail, never a silent default.

use vstd::prelude::*;

use crate::wire::all_strings;
use crate::wire::lookup;
use crate::wire::obj_find_index;
use crate::wire::obj_get;
use crate::wire::str_view_of;
use crate::wire::string_views;
use crate::wire::WireValue;

verus! {

// ---------------------------------------------------------------------
// Reading single fields out of a wire record.
// ---------------------------------------------------------------------

/// A required text field: the looked-up value, if it is a string.
pub open spec fn parse_str_field(o: Option<WireValue>) -> Option<Seq<char>> {
    match o {
        Some(WireValue::Str(s)) => Some(s@),
        _ => None,
    }
}

/// A required boolean field: the looked-up value, if it is a boolean.
pub open spec fn parse_bool_field(o: Option<WireValue>) -> Option<bool> {
    match o {
        Some(WireValue::Bool(b)) => Some(b),
        _ => None,
    }
}

/// An optional text field: absent or null is `None`; a string is kept;
/// any other shape is a schema violation.
pub open spec fn parse_opt_str_field(o: Option<WireValue>) -> Option<Option<Seq<char>>> {
    match o {
        None => Some(None),
        Some(WireValue::Null) => Some(None),
        Some(WireValue::Str(s)) => Some(Some(s@)),
        Some(_) => None,
    }
}

/// An optional integer field: absent or null is `None`; an integer in
/// 32-bit range is kept; any other shape is a schema violation.
pub open spec fn parse_opt_i32_field(o: Option<WireValue>) -> Option<Option<i32>> {
    match o {
        None => Some(None),
        Some(WireValue::Null) => Some(None),
        Some(WireValue::Int(n)) => if i32::MIN as int <= n as int <= i32::MAX as int {
            Some(Some(n as i32))
        } else {
            None
        },
        Some(_) => None,
    }
}

/// The texts of an optional owned text field.
pub open spec fn opt_str_view(o: Option<String>) -> Option<Seq<char>> {
    match o {
        Some(s) => Some(s@),
        None => None,
    }
}

pub(crate) fn get_str(fields: &Vec<(String, WireValue)>, name: &String) -> (r: Option<String>)
    ensures
        (match r {
            Some(s) => parse_str_field(lookup(fields@, name@)) == Some(s@),
            None => parse_str_field(lookup(fields@, name@)) is None,
        }),
{
    match obj_get(fields, name) {
        Some(w) => match w {
            WireValue::Str(s) => Some(s.clone()),
            _ => None,
        },
        None => None,
    }
}

pub(crate) fn get_bool(fields: &Vec<(String, WireValue)>, name: &String) -> (r: Option<bool>)
    ensures
        (match r {
            Some(b) => parse_bool_field(lookup(fields@, name@)) == Some(b),
            None => parse_bool_field(lookup(fields@, name@)) is None,
        }),
{
    match obj_get(fields, name) {
        Some(w) => match w {
            WireValue::Bool(b) => Some(*b),
            _ => None,
        },
        None => None,
    }
}

pub(crate) fn get_opt_str(fields: &Vec<(String, WireValue)>, name: &String) -> (r: Option<Option<String>>)
    ensures
        (match r {
            Some(o) => parse_opt_str_field(lookup(fields@, name@)) == Some(opt_str_view(o)),
            None => parse_opt_str_field(lookup(fields@, name@)) is None,
        }),
{
    match obj_get(fields, name) {
        Some(w) => match w {
            WireValue::Null => Some(None),
            WireValue::Str(s) => Some(Some(s.clone())),
            _ => None,
        },
        None => Some(None),
    }
}

pub(crate) fn get_opt_i32(fields: &Vec<(String, WireValue)>, name: &String) -> (r: Option<Option<i32>>)
    ensures
        (match r {
            Some(o) => parse_opt_i32_field(lookup(fields@, name@)) == Some(o),
            None => parse_opt_i32_field(lookup(fields@, name@)) is None,
        }),
{
    match obj_get(fields, name) {
        Some(w) => match w {
            WireValue::Null => Some(None),
            WireValue::Int(n) => {
                if *n >= i32::MIN as i64 && *n <= i32::MAX as i64 {
                    Some(Some(*n as i32))
                } else {
                    None
                }
            },
            _ => None,
        },
        None => Some(None),
    }
}

// ---------------------------------------------------------------------
// AccountRequest
// ---------------------------------------------------------------------

/// The request of `bindAccount`: which account to bind.
#[derive(Debug, PartialEq)]
pub struct AccountRequest {
    pub account: String,
}

/// The mathematical content of an [`AccountRequest`].
#[verifier::ext_equal]
pub struct AccountRequestView {
    pub account: Seq<char>,
}

impl View for AccountRequest {
    type V = AccountRequestView;

    open spec fn view(&self) -> AccountRequestView {
        AccountRequestView { account: self.account@ }
    }
}

/// The exact wire form of an account request: one field, `account`.
pub open spec fn account_request_wire(x: AccountRequestView, v: WireValue) -> bool {
    &&& v matches WireValue::Obj(fields)
    &&& fields@.len() == 1
    &&& fields@[0].0@ == "account"@
    &&& (fields@[0].1 matches WireValue::Str(s) && s@ == x.account)
}

/// Decode an account request from a wire record.
pub open spec fn parse_account_request(v: WireValue) -> Option<AccountRequestView> {
    match v {
        WireValue::Obj(fields) => match parse_str_field(lookup(fields@, "account"@)) {
            Some(a) => Some(AccountRequestView { account: a }),
            None => None,
        },
        _ => None,
    }
}

/// Round trip: an account request serialized to its wire form decodes
/// back field for field.
pub proof fn lemma_account_request_round_trip(x: AccountRequestView, v: WireValue)
    requires
        account_request_wire(x, v),
    ensures
        parse_account_request(v) == Some(x),
{
}

impl AccountRequest {
    /// Serialize to the wire form.
    pub fn to_wire(&self) -> (r: WireValue)
        ensures
            account_request_wire(self@, r),
            parse_account_request(r) == Some(self@),
    {
        let mut fields: Vec<(String, WireValue)> = Vec::new();
        fields.push(("account".to_owned(), WireValue::Str(self.account.clone())));
        let r = WireValue::Obj(fields);
        proof {
            lemma_account_request_round_trip(self@, r);
        }
        r
    }

    /// Decode from a wire record; `None` when the schema is not met.
    pub fn from_wire(v: &WireValue) -> (r: Option<AccountRequest>)
        ensures
            (match r {
                Some(x) => parse_account_request(*v) == Some(x@),
                None => parse_account_request(*v) is None,
            }),
    {
        match v {
            WireValue::Obj(fields) => {
                let key = "account".to_owned();
                match get_str(fields, &key) {
                    Some(account) => Some(AccountRequest { account }),
                    None => None,
                }
            },
            _ => None,
        }
    }
}

// ---------------------------------------------------------------------
// AliasRequest
// ---------------------------------------------------------------------

/// The request of `bindAlias` and `unbindAlias`: which alias.
#[derive(Debug, PartialEq)]
pub struct AliasRequest {
    pub alias: String,
}

/// The mathematical content of an [`AliasRequest`].
#[verifier::ext_equal]
pub struct AliasRequestView {
    pub alias: Seq<char>,
}

impl View for AliasRequest {
    type V = AliasRequestView;

    open spec fn view(&self) -> AliasRequestView {
        AliasRequestView { alias: self.alias@ }
    }
}

/// The exact wire form of an alias request: one field, `alias`.
pub open spec fn alias_request_wire(x: AliasRequestView, v: WireValue) -> bool {
    &&& v matches WireValue::Obj(fields)
    &&& fields@.len() == 1
    &&& fields@[0].0@ == "alias"@
    &&& (fields@[0].1 matches WireValue::Str(s) && s@ == x.alias)
}

/// Decode an alias request from a wire record.
pub open spec fn parse_alias_request(v: WireValue) -> Option<AliasRequestView> {
    match v {
        WireValue::Obj(fields) => match parse_str_field(lookup(fields@, "alias"@)) {
            Some(a) => Some(AliasRequestView { alias: a }),
            None => None,
        },
        _ => None,
    }
}

/// Round trip: an alias request serialized to its wire form decodes
/// back field for field.
pub proof fn lemma_alias_request_round_trip(x: AliasRequestView, v: WireValue)
    requires
        alias_request_wire(x, v),
    ensures
        parse_alias_request(v) == Some(x),
{
}

impl AliasRequest {
    /// Serialize to the wire form.
    pub fn to_wire(&self) -> (r: WireValue)
        ensures
            alias_request_wire(self@, r),
            parse_alias_request(r) == Some(self@),
    {
        let mut fields: Vec<(String, WireValue)> = Vec::new();
        fields.push(("alias".to_owned(), WireValue::Str(self.alias.clone())));
        let r = WireValue::Obj(fields);
        proof {
            lemma_alias_request_round_trip(self@, r);
        }
        r
    }

    /// Decode from a wire record; `None` when the schema is not met.
    pub fn from_wire(v: &WireValue) -> (r: Option<AliasRequest>)
        ensures
            (match r {
                Some(x) => parse_alias_request(*v) == Some(x@),
                None => parse_alias_request(*v) is None,
            }),
    {
        match v {
            WireValue::Obj(fields) => {
                let key = "alias".to_owned();
                match get_str(fields, &key) {
                    Some(alias) => Some(AliasRequest { alias }),
                    None => None,
                }
            },
            _ => None,
        }
    }
}

// ---------------------------------------------------------------------
// OperationResponse
// ---------------------------------------------------------------------

/// The generic result of every mutation operation: whether it
/// succeeded, and a human-readable detail.
#[derive(Debug, Clone, PartialEq)]
pub struct OperationResponse {
    pub success: bool,
    pub response: String,
}

/// The mathematical content of an [`OperationResponse`].
#[verifier::ext_equal]
pub struct OperationResponseView {
    pub success: bool,
    pub response: Seq<char>,
}

impl View for OperationResponse {
    type V = OperationResponseView;

    open spec fn view(&self) -> OperationResponseView {
        OperationResponseView { success: self.success, response: self.response@ }
    }
}

impl Default for OperationResponse {
    /// The deterministic default: not successful, empty detail.
    fn default() -> (r: Self)
        ensures
            !r@.success,
            r@.response == Seq::<char>::empty(),
    {
        OperationResponse { success: false, response: String::new() }
    }
}

/// The exact wire form of an operation response: `success`, `response`.
pub open spec fn operation_response_wire(x: OperationResponseView, v: WireValue) -> bool {
    &&& v matches WireValue::Obj(fields)
    &&& fields@.len() == 2
    &&& fields@[0].0@ == "success"@
    &&& fields@[0].1 == WireValue::Bool(x.success)
    &&& fields@[1].0@ == "response"@
    &&& (fields@[1].1 matches WireValue::Str(s) && s@ == x.response)
}

/// Decode an operation response from a wire record.
pub open spec fn parse_operation_response(v: WireValue) -> Option<OperationResponseView> {
    match v {
        WireValue::Obj(fields) => match (
            parse_bool_field(lookup(fields@, "success"@)),
            parse_str_field(lookup(fields@, "response"@)),
        ) {
            (Some(success), Some(response)) => Some(
                OperationResponseView { success, response },
            ),
            _ => None,
        },
        _ => None,
    }
}

/// Round trip: an operation response serialized to its wire form
/// decodes back field for field.
pub proof fn lemma_operation_response_round_trip(x: OperationResponseView, v: WireValue)
    requires
        operation_response_wire(x, v),
    ensures
        parse_operation_response(v) == Some(x),
{
    reveal_strlit("success");
    reveal_strlit("response");
    let fields = v->Obj_0;
    assert("success"@.len() == 7);
    assert("response"@.len() == 8);
    assert(fields@.skip(1)[0] == fields@[1]);
    assert(lookup(fields@, "response"@) == lookup(fields@.skip(1), "response"@));
}

impl OperationResponse {
    /// Serialize to the wire form.
    pub fn to_wire(&self) -> (r: WireValue)
        ensures
            operation_response_wire(self@, r),
            parse_operation_response(r) == Some(self@),
    {
        let mut fields: Vec<(String, WireValue)> = Vec::new();
        fields.push(("success".to_owned(), WireValue::Bool(self.success)));
        fields.push(("response".to_owned(), WireValue::Str(self.response.clone())));
        let r = WireValue::Obj(fields);
        proof {
            lemma_operation_response_round_trip(self@, r);
        }
        r
    }

    /// Decode from a wire record; `None` when the schema is not met.
    pub fn from_wire(v: &WireValue) -> (r: Option<OperationResponse>)
        ensures
            (match r {
                Some(x) => parse_operation_response(*v) == Some(x@),
                None => parse_operation_response(*v) is None,
            }),
    {
        match v {
            WireValue::Obj(fields) => {
                let success_key = "success".to_owned();
                let response_key = "response".to_owned();
                match (get_bool(fields, &success_key), get_str(fields, &response_key)) {
                    (Some(success), Some(response)) => Some(
                        OperationResponse { success, response },
                    ),
                    _ => None,
                }
            },
            _ => None,
        }
    }
}

// ---------------------------------------------------------------------
// DeviceIdResponse
// ---------------------------------------------------------------------

/// The response of `getDeviceId`: the opaque device identifier the
/// native backend registered, immutable once obtained.
#[derive(Debug, Clone, PartialEq)]
pub struct DeviceIdResponse {
    pub device_id: String,
}

/// The mathematical content of a [`DeviceIdResponse`].
#[verifier::ext_equal]
pub struct DeviceIdResponseView {
    pub device_id: Seq<char>,
}

impl View for DeviceIdResponse {
    type V = DeviceIdResponseView;

    open spec fn view(&self) -> DeviceIdResponseView {
        DeviceIdResponseView { device_id: self.device_id@ }
    }
}

impl Default for DeviceIdResponse {
    /// The deterministic default: an empty identifier.
    fn default() -> (r: Self)
        ensures
            r@.device_id == Seq::<char>::empty(),
    {
        DeviceIdResponse { device_id: String::new() }
    }
}

/// The exact wire form of a device-id response: one field, `deviceId`.
pub open spec fn device_id_response_wire(x: DeviceIdResponseView, v: WireValue) -> bool {
    &&& v matches WireValue::Obj(fields)
    &&& fields@.len() == 1
    &&& fields@[0].0@ == "deviceId"@
    &&& (fields@[0].1 matches WireValue::Str(s) && s@ == x.device_id)
}

/// Decode a device-id response from a wire record.
pub open spec fn parse_device_id_response(v: WireValue) -> Option<DeviceIdResponseView> {
    match v {
        WireValue::Obj(fields) => match parse_str_field(lookup(fields@, "deviceId"@)) {
            Some(d) => Some(DeviceIdResponseView { device_id: d }),
            None => None,
        },
        _ => None,
    }
}

/// Round trip: a device-id response serialized to its wire form
/// decodes back field for field.
pub proof fn lemma_device_id_response_round_trip(x: DeviceIdResponseView, v: WireValue)
    requires
        device_id_response_wire(x, v),
    ensures
        parse_device_id_response(v) == Some(x),
{
}

impl DeviceIdResponse {
    /// Serialize to the wire form.
    pub fn to_wire(&self) -> (r: WireValue)
        ensures
            device_id_response_wire(self@, r),
            parse_device_id_response(r) == Some(self@),
    {
        let mut fields: Vec<(String, WireValue)> = Vec::new();
        fields.push(("deviceId".to_owned(), WireValue::Str(self.device_id.clone())));
        let r = WireValue::Obj(fields);
        proof {
            lemma_device_id_response_round_trip(self@, r);
        }
        r
    }

    /// Decode from a wire record; `None` when the schema is not met.
    pub fn from_wire(v: &WireValue) -> (r: Option<DeviceIdResponse>)
        ensures
            (match r {
                Some(x) => parse_device_id_response(*v) == Some(x@),
                None => parse_device_id_response(*v) is None,
            }),
    {
        match v {
            WireValue::Obj(fields) => {
                let key = "deviceId".to_owned();
                match get_str(fields, &key) {
                    Some(device_id) => Some(DeviceIdResponse { device_id }),
                    None => None,
                }
            },
            _ => None,
        }
    }
}

// ---------------------------------------------------------------------
// ChannelStatusResponse
// ---------------------------------------------------------------------

/// The response of `checkPushChannelStatus`: whether the query
/// succeeded, and the enumerated state name of the push channel.
#[derive(Debug, Clone, PartialEq)]
pub struct ChannelStatusResponse {
    pub success: bool,
    pub status: String,
}

/// The mathematical content of a [`ChannelStatusResponse`].
#[verifier::ext_equal]
pub struct ChannelStatusResponseView {
    pub success: bool,
    pub status: Seq<char>,
}

impl View for ChannelStatusResponse {
    type V = ChannelStatusResponseView;

    open spec fn view(&self) -> ChannelStatusResponseView {
        ChannelStatusResponseView { success: self.success, status: self.status@ }
    }
}

impl Default for ChannelStatusResponse {
    /// The deterministic default: not successful, empty state name.
    fn default() -> (r: Self)
        ensures
            !r@.success,
            r@.status == Seq::<char>::empty(),
    {
        ChannelStatusResponse { success: false, status: String::new() }
    }
}

/// The exact wire form of a channel-status response: `success`, `status`.
pub open spec fn channel_status_response_wire(x: ChannelStatusResponseView, v: WireValue) -> bool {
    &&& v matches WireValue::Obj(fields)
    &&& fields@.len() == 2
    &&& fields@[0].0@ == "success"@
    &&& fields@[0].1 == WireValue::Bool(x.success)
    &&& fields@[1].0@ == "status"@
    &&& (fields@[1].1 matches WireValue::Str(s) && s@ == x.status)
}

/// Decode a channel-status response from a wire record.
pub open spec fn parse_channel_status_response(v: WireValue) -> Option<ChannelStatusResponseView> {
    match v {
        WireValue::Obj(fields) => match (
            parse_bool_field(lookup(fields@, "success"@)),
            parse_str_field(lookup(fields@, "status"@)),
        ) {
            (Some(success), Some(status)) => Some(
                ChannelStatusResponseView { success, status },
            ),
            _ => None,
        },
        _ => None,
    }
}

/// Round trip: a channel-status response serialized to its wire form
/// decodes back field for field.
pub proof fn lemma_channel_status_response_round_trip(x: ChannelStatusResponseView, v: WireValue)
    requires
        channel_status_response_wire(x, v),
    ensures
        parse_channel_status_response(v) == Some(x),
{
    reveal_strlit("success");
    reveal_strlit("status");
    let fields = v->Obj_0;
    assert("success"@.len() == 7);
    assert("status"@.len() == 6);
    assert(fields@.skip(1)[0] == fields@[1]);
    assert(lookup(fields@, "status"@) == lookup(fields@.skip(1), "status"@));
}

impl ChannelStatusResponse {
    /// Serialize to the wire form.
    pub fn to_wire(&self) -> (r: WireValue)
        ensures
            channel_status_response_wire(self@, r),
            parse_channel_status_response(r) == Some(self@),
    {
        let mut fields: Vec<(String, WireValue)> = Vec::new();
        fields.push(("success".to_owned(), WireValue::Bool(self.success)));
        fields.push(("status".to_owned(), WireValue::Str(self.status.clone())));
        let r = WireValue::Obj(fields);
        proof {
            lemma_channel_status_response_round_trip(self@, r);
        }
        r
    }

    /// Decode from a wire record; `None` when the schema is not met.
    pub fn from_wire(v: &WireValue) -> (r: Option<ChannelStatusResponse>)
        ensures
            (match r {
                Some(x) => parse_channel_status_response(*v) == Some(x@),
                None => parse_channel_status_response(*v) is None,
            }),
    {
        match v {
            WireValue::Obj(fields) => {
                let success_key = "success".to_owned();
                let status_key = "status".to_owned();
                match (get_bool(fields, &success_key), get_str(fields, &status_key)) {
                    (Some(success), Some(status)) => Some(
                        ChannelStatusResponse { success, status },
                    ),
                    _ => None,
                }
            },
            _ => None,
        }
    }
}

// ---------------------------------------------------------------------
// TagListResponse
// ---------------------------------------------------------------------

/// The response of `listTags`: whether the query succeeded, and the
/// bound tags as one serialized list, opaque to the bridge.
#[derive(Debug, Clone, PartialEq)]
pub struct TagListResponse {
    pub success: bool,
    pub tags: String,
}

/// The mathematical content of a [`TagListResponse`].
#[verifier::ext_equal]
pub struct TagListResponseView {
    pub success: bool,
    pub tags: Seq<char>,
}

impl View for TagListResponse {
    type V = TagListResponseView;

    open spec fn view(&self) -> TagListResponseView {
        TagListResponseView { success: self.success, tags: self.tags@ }
    }
}

impl Default for TagListResponse {
    /// The deterministic default: not successful, empty list text.
    fn default() -> (r: Self)
        ensures
            !r@.success,
            r@.tags == Seq::<char>::empty(),
    {
        TagListResponse { success: false, tags: String::new() }
    }
}

/// The exact wire form of a tag-list response: `success`, `tags`.
pub open spec fn tag_list_response_wire(x: TagListResponseView, v: WireValue) -> bool {
    &&& v matches WireValue::Obj(fields)
    &&& fields@.len() == 2
    &&& fields@[0].0@ == "success"@
    &&& fields@[0].1 == WireValue::Bool(x.success)
    &&& fields@[1].0@ == "tags"@
    &&& (fields@[1].1 matches WireValue::Str(s) && s@ == x.tags)
}

/// Decode a tag-list response from a wire record.
pub open spec fn parse_tag_list_response(v: WireValue) -> Option<TagListResponseView> {
    match v {
        WireValue::Obj(fields) => match (
            parse_bool_field(lookup(fields@, "success"@)),
            parse_str_field(lookup(fields@, "tags"@)),
        ) {
            (Some(success), Some(tags)) => Some(TagListResponseView { success, tags }),
            _ => None,
        },
        _ => None,
    }
}

/// Round trip: a tag-list response serialized to its wire form decodes
/// back field for field.
pub proof fn lemma_tag_list_response_round_trip(x: TagListResponseView, v: WireValue)
    requires
        tag_list_response_wire(x, v),
    ensures
        parse_tag_list_response(v) == Some(x),
{
    reveal_strlit("success");
    reveal_strlit("tags");
    let fields = v->Obj_0;
    assert("success"@.len() == 7);
    assert("tags"@.len() == 4);
    assert(fields@.skip(1)[0] == fields@[1]);
    assert(lookup(fields@, "tags"@) == lookup(fields@.skip(1), "tags"@));
}

impl TagListResponse {
    /// Serialize to the wire form.
    pub fn to_wire(&self) -> (r: WireValue)
        ensures
            tag_list_response_wire(self@, r),
            parse_tag_list_response(r) == Some(self@),
    {
        let mut fields: Vec<(String, WireValue)> = Vec::new();
        fields.push(("success".to_owned(), WireValue::Bool(self.success)));
        fields.push(("tags".to_owned(), WireValue::Str(self.tags.clone())));
        let r = WireValue::Obj(fields);
        proof {
            lemma_tag_list_response_round_trip(self@, r);
        }
        r
    }

    /// Decode from a wire record; `None` when the schema is not met.
    pub fn from_wire(v: &WireValue) -> (r: Option<TagListResponse>)
        ensures
            (match r {
                Some(x) => parse_tag_list_response(*v) == Some(x@),
                None => parse_tag_list_response(*v) is None,
            }),
    {
        match v {
            WireValue::Obj(fields) => {
                let success_key = "success".to_owned();
                let tags_key = "tags".to_owned();
                match (get_bool(fields, &success_key), get_str(fields, &tags_key)) {
                    (Some(success), Some(tags)) => Some(TagListResponse { success, tags }),
                    _ => None,
                }
            },
            _ => None,
        }
    }
}

// ---------------------------------------------------------------------
// TagRequest
// ---------------------------------------------------------------------

/// An optional text value on the wire: a string when present, null
/// when absent.
pub open spec fn opt_str_wire(o: Option<Seq<char>>, v: WireValue) -> bool {
    match o {
        Some(s) => (v matches WireValue::Str(t) && t@ == s),
        None => v is Null,
    }
}

/// An optional 32-bit integer on the wire: an integer when present,
/// null when absent.
pub open spec fn opt_i32_wire(o: Option<i32>, v: WireValue) -> bool {
    match o {
        Some(n) => v == WireValue::Int(n as i64),
        None => v is Null,
    }
}

/// A list of texts on the wire: an array of exactly those strings.
pub open spec fn str_arr_wire(strs: Seq<Seq<char>>, v: WireValue) -> bool {
    &&& v matches WireValue::Arr(items)
    &&& all_strings(items@)
    &&& string_views(items@) == strs
}

/// A required list-of-text field: the looked-up value, if it is an
/// array whose elements are all strings.
pub open spec fn parse_str_arr_field(o: Option<WireValue>) -> Option<Seq<Seq<char>>> {
    match o {
        Some(WireValue::Arr(items)) => if all_strings(items@) {
            Some(string_views(items@))
        } else {
            None
        },
        _ => None,
    }
}

/// The request of `bindTag` and `unbindTag`: the tags to bind, the
/// optional target selecting device or alias scope, and the optional
/// alias the tags apply to. An absent target is interpreted by the
/// native backend as device scope.
#[derive(Debug, PartialEq)]
pub struct TagRequest {
    pub tags: Vec<String>,
    pub target: Option<i32>,
    pub alias: Option<String>,
}

/// The mathematical content of a [`TagRequest`].
#[verifier::ext_equal]
pub struct TagRequestView {
    pub tags: Seq<Seq<char>>,
    pub target: Option<i32>,
    pub alias: Option<Seq<char>>,
}

impl View for TagRequest {
    type V = TagRequestView;

    open spec fn view(&self) -> TagRequestView {
        TagRequestView {
            tags: self.tags@.map_values(|s: String| s@),
            target: self.target,
            alias: opt_str_view(self.alias),
        }
    }
}

/// The exact wire form of a tag request: `tags`, `target`, `alias`.
pub open spec fn tag_request_wire(x: TagRequestView, v: WireValue) -> bool {
    &&& v matches WireValue::Obj(fields)
    &&& fields@.len() == 3
    &&& fields@[0].0@ == "tags"@
    &&& str_arr_wire(x.tags, fields@[0].1)
    &&& fields@[1].0@ == "target"@
    &&& opt_i32_wire(x.target, fields@[1].1)
    &&& fields@[2].0@ == "alias"@
    &&& opt_str_wire(x.alias, fields@[2].1)
}

/// Decode a tag request from a wire record.
pub open spec fn parse_tag_request(v: WireValue) -> Option<TagRequestView> {
    match v {
        WireValue::Obj(fields) => match (
            parse_str_arr_field(lookup(fields@, "tags"@)),
            parse_opt_i32_field(lookup(fields@, "target"@)),
            parse_opt_str_field(lookup(fields@, "alias"@)),
        ) {
            (Some(tags), Some(target), Some(alias)) => Some(
                TagRequestView { tags, target, alias },
            ),
            _ => None,
        },
        _ => None,
    }
}

/// Round trip: a tag request serialized to its wire form decodes back
/// field for field.
pub proof fn lemma_tag_request_round_trip(x: TagRequestView, v: WireValue)
    requires
        tag_request_wire(x, v),
    ensures
        parse_tag_request(v) == Some(x),
{
    reveal_strlit("tags");
    reveal_strlit("target");
    reveal_strlit("alias");
    let fields = v->Obj_0;
    assert("tags"@.len() == 4);
    assert("target"@.len() == 6);
    assert("alias"@.len() == 5);
    let fs = fields@;
    assert(fs.skip(1)[0] == fs[1]);
    assert(fs.skip(1)[1] == fs[2]);
    assert(fs.skip(1).skip(1) =~= fs.skip(2));
    assert(fs.skip(2)[0] == fs[2]);
    assert(lookup(fs, "target"@) == lookup(fs.skip(1), "target"@));
    assert(lookup(fs.skip(1), "target"@) == Some(fs[1].1));
    assert(lookup(fs, "alias"@) == lookup(fs.skip(1), "alias"@));
    assert(lookup(fs.skip(1), "alias"@) == lookup(fs.skip(2), "alias"@));
    assert(lookup(fs.skip(2), "alias"@) == Some(fs[2].1));
}

impl TagRequest {
    /// Serialize to the wire form.
    pub fn to_wire(&self) -> (r: WireValue)
        ensures
            tag_request_wire(self@, r),
            parse_tag_request(r) == Some(self@),
    {
        let mut items: Vec<WireValue> = Vec::new();
        let mut i: usize = 0;
        while i < self.tags.len()
            invariant
                i <= self.tags@.len(),
                items@.len() == i,
                forall|j: int| 0 <= j < i ==> (
                    items@[j] is Str && str_view_of(items@[j]) == self.tags@[j]@
                ),
            decreases self.tags@.len() - i,
        {
            items.push(WireValue::Str(self.tags[i].clone()));
            i = i + 1;
        }
        proof {
            assert(string_views(items@) =~= self.tags@.map_values(|s: String| s@));
        }
        let target_value = match self.target {
            Some(n) => WireValue::Int(n as i64),
            None => WireValue::Null,
        };
        let alias_value = match &self.alias {
            Some(a) => WireValue::Str(a.clone()),
            None => WireValue::Null,
        };
        let mut fields: Vec<(String, WireValue)> = Vec::new();
        fields.push(("tags".to_owned(), WireValue::Arr(items)));
        fields.push(("target".to_owned(), target_value));
        fields.push(("alias".to_owned(), alias_value));
        let r = WireValue::Obj(fields);
        proof {
            lemma_tag_request_round_trip(self@, r);
        }
        r
    }

    /// Decode from a wire record; `None` when the schema is not met.
    pub fn from_wire(v: &WireValue) -> (r: Option<TagRequest>)
        ensures
            (match r {
                Some(x) => parse_tag_request(*v) == Some(x@),
                None => parse_tag_request(*v) is None,
            }),
    {
        match v {
            WireValue::Obj(fields) => {
                let tags_key = "tags".to_owned();
                let arr = match obj_get(fields, &tags_key) {
                    Some(w) => match w {
                        WireValue::Arr(items) => items,
                        _ => {
                            return None;
                        },
                    },
                    None => {
                        return None;
                    },
                };
                let mut tags: Vec<String> = Vec::new();
                let mut i: usize = 0;
                while i < arr.len()
                    invariant
                        *v matches WireValue::Obj(fs) && lookup(
                            fs@,
                            "tags"@,
                        ) == Some(WireValue::Arr(*arr)),
                        i <= arr@.len(),
                        tags@.len() == i,
                        forall|j: int| 0 <= j < i ==> (
                            arr@[j] is Str && tags@[j]@ == str_view_of(arr@[j])
                        ),
                    decreases arr@.len() - i,
                {
                    match &arr[i] {
                        WireValue::Str(s) => tags.push(s.clone()),
                        _ => {
                            return None;
                        },
                    }
                    i = i + 1;
                }
                let target_key = "target".to_owned();
                let target = match get_opt_i32(fields, &target_key) {
                    Some(o) => o,
                    None => {
                        return None;
                    },
                };
                let alias_key = "alias".to_owned();
                let alias = match get_opt_str(fields, &alias_key) {
                    Some(o) => o,
                    None => {
                        return None;
                    },
                };
                proof {
                    assert(tags@.map_values(|s: String| s@) =~= string_views(arr@));
                }
                Some(TagRequest { tags, target, alias })
            },
            _ => None,
        }
    }
}

// ---------------------------------------------------------------------
// PushNotification
// ---------------------------------------------------------------------

/// An optional structured value on the wire: the value itself when
/// present, null when absent.
pub open spec fn opt_value_wire(o: Option<WireValue>, v: WireValue) -> bool {
    match o {
        Some(w) => v == w,
        None => v is Null,
    }
}

/// An optional structured field: absent or null is `None`; any other
/// value is kept as it is.
pub open spec fn parse_opt_value_field(o: Option<WireValue>) -> Option<WireValue> {
    match o {
        None => None,
        Some(WireValue::Null) => None,
        Some(w) => Some(w),
    }
}

/// A push message delivered to the host: its kind, the displayed title
/// and content, and optional structured extras carried through opaquely.
#[derive(Debug, PartialEq)]
pub struct PushNotification {
    pub kind: String,
    pub title: String,
    pub content: String,
    pub extras: Option<WireValue>,
}

/// The mathematical content of a [`PushNotification`]. The extras are
/// an opaque structured value, kept whole.
#[verifier::ext_equal]
pub struct PushNotificationView {
    pub kind: Seq<char>,
    pub title: Seq<char>,
    pub content: Seq<char>,
    pub extras: Option<WireValue>,
}

impl PushNotificationView {
    /// Well-formed extras never hold an explicit null: on the wire an
    /// explicit null is indistinguishable from no extras at all.
    pub open spec fn wf(self) -> bool {
        match self.extras {
            Some(w) => !(w is Null),
            None => true,
        }
    }
}

impl View for PushNotification {
    type V = PushNotificationView;

    open spec fn view(&self) -> PushNotificationView {
        PushNotificationView {
            kind: self.kind@,
            title: self.title@,
            content: self.content@,
            extras: self.extras,
        }
    }
}

/// The exact wire form of a push message: `type`, `title`, `content`,
/// `extras`.
pub open spec fn push_notification_wire(x: PushNotificationView, v: WireValue) -> bool {
    &&& v matches WireValue::Obj(fields)
    &&& fields@.len() == 4
    &&& fields@[0].0@ == "type"@
    &&& (fields@[0].1 matches WireValue::Str(s) && s@ == x.kind)
    &&& fields@[1].0@ == "title"@
    &&& (fields@[1].1 matches WireValue::Str(s) && s@ == x.title)
    &&& fields@[2].0@ == "content"@
    &&& (fields@[2].1 matches WireValue::Str(s) && s@ == x.content)
    &&& fields@[3].0@ == "extras"@
    &&& opt_value_wire(x.extras, fields@[3].1)
}

/// Decode a push message from a wire record.
pub open spec fn parse_push_notification(v: WireValue) -> Option<PushNotificationView> {
    match v {
        WireValue::Obj(fields) => match (
            parse_str_field(lookup(fields@, "type"@)),
            parse_str_field(lookup(fields@, "title"@)),
            parse_str_field(lookup(fields@, "content"@)),
        ) {
            (Some(kind), Some(title), Some(content)) => Some(
                PushNotificationView {
                    kind,
                    title,
                    content,
                    extras: parse_opt_value_field(lookup(fields@, "extras"@)),
                },
            ),
            _ => None,
        },
        _ => None,
    }
}

/// Round trip: a well-formed push message serialized to its wire form
/// decodes back field for field. Extras holding an explicit null are
/// not well-formed: the wire cannot tell them from absent extras.
pub proof fn lemma_push_notification_round_trip(x: PushNotificationView, v: WireValue)
    requires
        push_notification_wire(x, v),
        x.wf(),
    ensures
        parse_push_notification(v) == Some(x),
{
    reveal_strlit("type");
    reveal_strlit("title");
    reveal_strlit("content");
    reveal_strlit("extras");
    let fields = v->Obj_0;
    assert("type"@.len() == 4);
    assert("title"@.len() == 5);
    assert("content"@.len() == 7);
    assert("extras"@.len() == 6);
    let fs = fields@;
    assert(fs.skip(1)[0] == fs[1]);
    assert(fs.skip(1).skip(1) =~= fs.skip(2));
    assert(fs.skip(2)[0] == fs[2]);
    assert(fs.skip(2).skip(1) =~= fs.skip(3));
    assert(fs.skip(3)[0] == fs[3]);
    assert(lookup(fs, "title"@) == lookup(fs.skip(1), "title"@));
    assert(lookup(fs.skip(1), "title"@) == Some(fs[1].1));
    assert(lookup(fs, "content"@) == lookup(fs.skip(1), "content"@));
    assert(lookup(fs.skip(1), "content"@) == lookup(fs.skip(2), "content"@));
    assert(lookup(fs.skip(2), "content"@) == Some(fs[2].1));
    assert(lookup(fs, "extras"@) == lookup(fs.skip(1), "extras"@));
    assert(lookup(fs.skip(1), "extras"@) == lookup(fs.skip(2), "extras"@));
    assert(lookup(fs.skip(2), "extras"@) == lookup(fs.skip(3), "extras"@));
    assert(lookup(fs.skip(3), "extras"@) == Some(fs[3].1));
}

impl PushNotification {
    /// Serialize to the wire form, consuming the message so the opaque
    /// extras move onto the wire unchanged.
    pub fn to_wire(self) -> (r: WireValue)
        ensures
            push_notification_wire(self@, r),
            self@.wf() ==> parse_push_notification(r) == Some(self@),
    {
        let ghost x = self@;
        let extras_value = match self.extras {
            Some(w) => w,
            None => WireValue::Null,
        };
        let mut fields: Vec<(String, WireValue)> = Vec::new();
        fields.push(("type".to_owned(), WireValue::Str(self.kind)));
        fields.push(("title".to_owned(), WireValue::Str(self.title)));
        fields.push(("content".to_owned(), WireValue::Str(self.content)));
        fields.push(("extras".to_owned(), extras_value));
        let r = WireValue::Obj(fields);
        proof {
            if x.wf() {
                lemma_push_notification_round_trip(x, r);
            }
        }
        r
    }

    /// Decode from a wire record, consuming it so the opaque extras
    /// move out unchanged; `None` when the schema is not met.
    pub fn from_wire(v: WireValue) -> (r: Option<PushNotification>)
        ensures
            (match r {
                Some(x) => parse_push_notification(v) == Some(x@),
                None => parse_push_notification(v) is None,
            }),
    {
        match v {
            WireValue::Obj(mut fields) => {
                let kind_key = "type".to_owned();
                let kind = match get_str(&fields, &kind_key) {
                    Some(s) => s,
                    None => {
                        return None;
                    },
                };
                let title_key = "title".to_owned();
                let title = match get_str(&fields, &title_key) {
                    Some(s) => s,
                    None => {
                        return None;
                    },
                };
                let content_key = "content".to_owned();
                let content = match get_str(&fields, &content_key) {
                    Some(s) => s,
                    None => {
                        return None;
                    },
                };
                let extras_key = "extras".to_owned();
                let extras = match obj_find_index(&fields, &extras_key) {
                    Some(i) => {
                        let pair = fields.remove(i);
                        match pair.1 {
                            WireValue::Null => None,
                            w => Some(w),
                        }
                    },
                    None => None,
                };
                Some(PushNotification { kind, title, content, extras })
            },
            _ => None,
        }
    }
}

} // verus!
