//! Torn-frame-safe snapshot acceptance.
//!
//! The producer writes each feed under a header pair
//! `(version_update_begin, version_update_end)`: it bumps `begin`, writes
//! the body, then bumps `end`.  A copy taken from the live mapping is valid
//! only if the two fields match after the copy; a mismatch means the copy
//! straddled a write and is discarded, to be retried on a later poll.

use vstd::prelude::*;

verus! {

/// The version pair at the head of every shared-memory feed.
#[derive(PartialEq, Eq, Structural, Clone, Copy, Debug)]
pub struct FrameHeader {
    pub version_update_begin: u32,
    pub version_update_end: u32,
}

/// A copied frame is consistent when its header pair matches; only such a
/// copy may be accepted.
pub open spec fn consistent(h: FrameHeader) -> bool {
    h.version_update_begin == h.version_update_end
}

/// Whether a copied frame's header pair matches, i.e. the copy did not
/// straddle a producer write.
pub fn frame_consistent(h: &FrameHeader) -> (r: bool)
    ensures
        r == consistent(*h),
{
    h.version_update_begin == h.version_update_end
}

/// Whether a feed has moved past the last accepted version, so a poll
/// should copy it at all.  Equality of the counters means "no news";
/// any difference — including a counter that wrapped or went backwards
/// after a game restart — means "copy and validate".
pub fn feed_advanced(last_version: u32, live_begin: u32) -> (r: bool)
    ensures
        r == (last_version != live_begin),
{
    last_version != live_begin
}

/// Accept or reject one copied frame: the copy's version is returned
/// exactly when its header pair matches, and a torn copy yields `None`.
pub fn accept_frame(h: &FrameHeader) -> (r: Option<u32>)
    ensures
        consistent(*h) ==> r == Some(h.version_update_begin),
        !consistent(*h) ==> r is None,
{
    if frame_consistent(h) {
        Some(h.version_update_begin)
    } else {
        None
    }
}

} // verus!
