//! The unified error channel of the bridge.
//!
//! Every failure an operation can produce is one of three kinds:
//! the platform has no native backend, the native call itself failed
//! (or its response could not be decoded), or the caller's payload did
//! not satisfy the operation schema. All three surface to the caller
//! verbatim; none is retried or recovered internally.

use vstd::prelude::*;

verus! {

/// A failed operation, carrying a human-readable detail message.
#[derive(Debug, PartialEq)]
pub enum Error {
    /// The operation was invoked on a platform where no native push
    /// backend exists. Always deterministic, never retried.
    PlatformUnsupported(String),
    /// The native call failed, or its response did not have the shape
    /// the schema requires. The native detail is attached opaquely.
    Bridge(String),
    /// The caller-supplied payload failed to satisfy the operation
    /// schema; the request was rejected before any backend was reached.
    Malformed(String),
}

impl Error {
    /// The detail message of the error, whatever its kind.
    pub open spec fn message_view(self) -> Seq<char> {
        match self {
            Error::PlatformUnsupported(m) => m@,
            Error::Bridge(m) => m@,
            Error::Malformed(m) => m@,
        }
    }

    /// Read the detail message.
    pub fn message(&self) -> (m: &str)
        ensures
            m@ == self.message_view(),
    {
        match self {
            Error::PlatformUnsupported(m) => m.as_str(),
            Error::Bridge(m) => m.as_str(),
            Error::Malformed(m) => m.as_str(),
        }
    }
}

/// The fixed message of every stub-backend failure.
pub open spec fn stub_message() -> Seq<char> {
    "Aliyun Push is only available on mobile platforms"@
}

/// Build the stub backend's uniform failure.
pub fn platform_unsupported() -> (e: Error)
    ensures
        (e matches Error::PlatformUnsupported(m) && m@ == stub_message()),
{
    Error::PlatformUnsupported("Aliyun Push is only available on mobile platforms".to_owned())
}

/// The fixed message of a native response that did not match the
/// schema of the expected response shape.
pub open spec fn decode_failure_message() -> Seq<char> {
    "invalid response from native plugin"@
}

/// Build the failure of a native response that could not be decoded.
pub fn bridge_decode_failure() -> (e: Error)
    ensures
        (e matches Error::Bridge(m) && m@ == decode_failure_message()),
{
    Error::Bridge("invalid response from native plugin".to_owned())
}

/// The fixed message of a caller payload that did not satisfy the
/// operation schema.
pub open spec fn malformed_message() -> Seq<char> {
    "malformed request payload"@
}

/// Build the failure of a caller payload rejected by the schema.
pub fn malformed_request() -> (e: Error)
    ensures
        (e matches Error::Malformed(m) && m@ == malformed_message()),
{
    Error::Malformed("malformed request payload".to_owned())
}

} // verus!
