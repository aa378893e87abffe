//! Verified core of a foreign-function boundary server.
//!
//! A native media/session engine is exposed to a caller in a different
//! runtime through a flat entry point: the caller passes raw request bytes
//! and opaque 64-bit handles, never typed objects.  This crate holds the
//! boundary-management logic and proves its contracts:
//!
//! * a handle registry mapping opaque ids to owned, type-erased resources,
//! * a buffer store publishing immutable response bytes under fresh handles,
//! * a request router decoding, dispatching and encoding envelopes,
//! * a callback bridge queueing engine events and deferred results for
//!   delivery through the caller's registered function.
//!
//! The raw-pointer adapter around these operations is ordinary unverified
//! code outside this crate; it hands the library plain byte slices and ids.

use vstd::prelude::*;

pub mod audio_frame;
pub mod audio_source;
pub mod proto;
pub mod requests;
pub mod server;

verus! {

/// Opaque identifier handed across the foreign boundary in place of a
/// resource.  Carries no type information to the foreign caller.
pub type FfiHandleId = u64;

/// Reserved sentinel meaning "invalid/absent"; never assigned to a live
/// resource.
pub const INVALID_HANDLE: FfiHandleId = 0;

/// Failures reported by the boundary server to its immediate caller.
///
/// Engine-side failures inside a successfully dispatched request travel as
/// data inside the response payload instead, so the caller always receives
/// a well-formed, decodable response on logical failure.
#[derive(Clone, Copy, Debug, PartialEq, Eq, Structural)]
pub enum FfiError {
    /// A request needing engine access arrived before configuration.
    NotConfigured,
    /// A second configuration attempt; the first registration stays.
    AlreadyInitialized,
    /// The underlying session engine reported a failure.
    Room,
    /// The request referred to an absent or wrongly-typed handle.
    InvalidRequest,
}

impl FfiError {
    /// A short human-readable description of the failure.
    pub fn message(&self) -> (r: &'static str)
        ensures
            r@ == match self {
                FfiError::NotConfigured => "the server is not configured"@,
                FfiError::AlreadyInitialized => "the server is already initialized"@,
                FfiError::Room => "room error"@,
                FfiError::InvalidRequest => "invalid request"@,
            },
    {
        match self {
            FfiError::NotConfigured => "the server is not configured",
            FfiError::AlreadyInitialized => "the server is already initialized",
            FfiError::Room => "room error",
            FfiError::InvalidRequest => "invalid request",
        }
    }
}

/// Outcome type of fallible boundary operations.
pub type FfiResult<T> = Result<T, FfiError>;

} // verus!
