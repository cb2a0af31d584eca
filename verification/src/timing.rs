//! Position estimator: converts the player-reported elapsed position plus a
//! user-configured millisecond skew into the absolute instant at which the
//! current track started, the anchor for lyric scroll timing.
//!
//! Instants are modelled as unsigned milliseconds since an arbitrary epoch;
//! offsets are signed milliseconds.

use vstd::prelude::*;

verus! {

/// Why a lyric start instant could not be computed for a tick.
#[derive(Clone, Copy, Debug, PartialEq, Eq, Structural)]
pub enum EstimateError {
    /// The reported playback position lies after the current time, so the
    /// track would have had to start in the future.
    PositionExceedsNow,
    /// Applying the configured offset to the start instant left the
    /// representable range.
    OffsetOverflow,
}

/// The ideal start instant as a mathematical integer: current time minus
/// elapsed position, shifted by the signed offset.
pub open spec fn start_instant(now_ms: int, position_ms: int, offset_ms: int) -> int {
    now_ms - position_ms + offset_ms
}

/// Law: a non-negative offset shifts the anchor later by the offset, and a
/// negative offset shifts it earlier by the offset's magnitude.
pub proof fn lemma_offset_direction(now_ms: int, position_ms: int, offset_ms: int)
    ensures
        offset_ms >= 0 ==> start_instant(now_ms, position_ms, offset_ms) == now_ms - position_ms
            + offset_ms,
        offset_ms < 0 ==> start_instant(now_ms, position_ms, offset_ms) == now_ms - position_ms - (
        -offset_ms),
{
}

/// Computes the absolute instant corresponding to elapsed-position zero.
///
/// A negative offset shifts the anchor earlier (delaying lyric lines); a
/// non-negative offset shifts it later.  Both adjustments are checked: an
/// impossible position or an offset leaving the representable range is
/// reported as an error, never a panic or a silent clamp.
pub fn estimate(now_ms: u64, position_ms: u64, offset_ms: i64) -> (r: Result<u64, EstimateError>)
    ensures
        position_ms > now_ms ==> r == Err::<u64, EstimateError>(EstimateError::PositionExceedsNow),
        position_ms <= now_ms ==> {
            let s = start_instant(now_ms as int, position_ms as int, offset_ms as int);
            if 0 <= s <= u64::MAX as int {
                r == Ok::<u64, EstimateError>(s as u64)
            } else {
                r == Err::<u64, EstimateError>(EstimateError::OffsetOverflow)
            }
        },
{
    if position_ms > now_ms {
        return Err(EstimateError::PositionExceedsNow);
    }
    let start = now_ms - position_ms;
    match start.checked_add_signed(offset_ms) {
        Some(anchored) => Ok(anchored),
        None => Err(EstimateError::OffsetOverflow),
    }
}

}
