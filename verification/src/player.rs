//! What the editing logic asks of the video player, and small integer
//! helpers shared by the editor and the channel surfer.
use vstd::prelude::*;

verus! {

/// A request to the video player that the caller carries out.
#[derive(Clone, Copy, Debug, PartialEq, Eq, Structural)]
pub enum PlayerCommand {
    /// Seek to a frame (the caller turns it into a fraction of the
    /// duration, clamped to `0.0..=1.0`, and refreshes the player state).
    Seek { frame: u64 },
    /// Start (or resume) playback.
    Start,
    /// Pause playback.
    Pause,
    /// Set the audio volume: 0 when muted, full otherwise.
    SetMuted { muted: bool },
}

/// `a + b`, or `u64::MAX` when that does not fit.
pub open spec fn sat_add(a: u64, b: u64) -> u64 {
    if a + b > u64::MAX {
        u64::MAX
    } else {
        (a + b) as u64
    }
}

/// `a - b`, or 0 when `b` is larger.
pub open spec fn sat_sub(a: u64, b: u64) -> u64 {
    if a >= b {
        (a - b) as u64
    } else {
        0
    }
}

/// Milliseconds from `since` to `now`, 0 if `now` is earlier.
pub open spec fn elapsed_ms(now: u64, since: u64) -> u64 {
    sat_sub(now, since)
}

/// Whole seconds from `since` to `now`.
pub open spec fn elapsed_secs(now: u64, since: u64) -> u64 {
    elapsed_ms(now, since) / 1000
}

/// Whole seconds from `since` to `now`, computed.
pub fn seconds_between(now: u64, since: u64) -> (s: u64)
    ensures
        s == elapsed_secs(now, since),
{
    now.saturating_sub(since) / 1000
}

} // verus!
