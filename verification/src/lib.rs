//! Verified dispatch core of a push-notification plugin bridge.
//!
//! The bridge exposes a fixed surface of named operations (device
//! registration, account/tag/alias binding, channel control, permission
//! requests). Each operation is routed to exactly one backend chosen at
//! setup time: on mobile platforms a native push SDK reached through a
//! plugin handle, elsewhere a stub that uniformly reports the platform as
//! unsupported. This crate holds the verified logic of that routing: the
//! wire representation of every request and response, the schema-validated
//! encoding and decoding, the stub behaviour, and the unified error
//! taxonomy. The host glue that actually performs native calls lives
//! outside the verified library and drives it through plain values.

pub mod bridge;
pub mod error;
pub mod models;
pub mod surface;
pub mod wire;

pub use bridge::AliyunPush;
pub use bridge::BackendKind;
pub use bridge::NativeCall;
pub use bridge::NativeReply;
pub use error::Error;
pub use models::AccountRequest;
pub use models::AliasRequest;
pub use models::ChannelStatusResponse;
pub use models::DeviceIdResponse;
pub use models::OperationResponse;
pub use models::PushNotification;
pub use models::TagListResponse;
pub use models::TagRequest;
pub use wire::WireValue;
