//! Mobile broadcast bridging: the native broadcast extensions answer the
//! same four verbs (start, stop, get-frame, get-status) but in differing
//! response shapes. This module holds the pure normalization of those
//! responses into the canonical status record; the calls into the opaque
//! native handlers are platform code outside this library.

use vstd::prelude::*;

verus! {

/// The canonical broadcast status record, as normalized from a native
/// response.
pub struct BroadcastStatusResponse {
    /// Whether the native extension is capturing.
    pub is_active: bool,
    /// Whether the native extension reports its newest frame stale.
    pub is_stale: bool,
    /// The newest frame's base64 JPEG text, if the extension retains one.
    pub frame: Option<String>,
    /// The newest frame's capture time, in milliseconds since the epoch.
    pub timestamp_ms: Option<u64>,
    /// Frames produced by the native extension so far.
    pub frame_count: u64,
}

/// Normalize a start response: one platform answers a bare boolean, another
/// wraps it as an optional value; an absent value means capture did not
/// start.
pub fn normalize_start_response(value: Option<bool>) -> (r: bool)
    ensures
        r == (value == Some(true)),
{
    match value {
        Some(b) => b,
        None => false,
    }
}

/// Normalize a native status response: pass a delivered record through
/// unchanged; when the native layer has none to give, report an idle
/// session with no frame, so that a poller always gets a well-formed
/// record.
pub fn normalize_broadcast_status(native: Option<BroadcastStatusResponse>) -> (r:
    BroadcastStatusResponse)
    ensures
        match native {
            Some(st) => r == st,
            None => !r.is_active && !r.is_stale && r.frame is None && r.timestamp_ms is None
                && r.frame_count == 0,
        },
{
    match native {
        Some(st) => st,
        None => BroadcastStatusResponse {
            is_active: false,
            is_stale: false,
            frame: None,
            timestamp_ms: None,
            frame_count: 0,
        },
    }
}

} // verus!
