//! The closed taxonomy of per-tick player conditions.
//!
//! Every failure of a player query is classified into exactly one of these
//! outcomes at the boundary of the sync path; no raw error ever escapes into
//! the loop.

use vstd::prelude::*;

verus! {

/// Which capability query failed while the player itself was present.
#[derive(Clone, Copy, Debug, PartialEq, Eq, Structural)]
pub enum UnsupportedReason {
    /// The progress tracker could not be constructed.
    CannotFetchProgress,
    /// The metadata query failed.
    CannotGetMetadata,
    /// The playback-position query failed.
    CannotGetPosition,
    /// The reported position lies after the current time, so no start
    /// instant exists.
    PositionExceedsNow,
    /// Applying the configured offset to the start instant left the
    /// representable range.
    OffsetOverflow,
}

/// Terminal-per-tick player condition.  `Missing` and `Paused` are ordinary
/// states, not errors; `Unsupported` means the player is present but a
/// required query failed, recoverable only by waiting for the next tick.
#[derive(Clone, Copy, Debug, PartialEq, Eq, Structural)]
pub enum PlayerStatus {
    /// No usable player is bound, or the bound player's process is gone.
    Missing,
    /// The player is bound and valid but not actively playing.
    Paused,
    /// The player exists but a required query failed.
    Unsupported(UnsupportedReason),
}

impl UnsupportedReason {
    /// The log text for this condition.
    pub fn message(&self) -> (r: String)
        ensures
            *self == UnsupportedReason::CannotFetchProgress ==> r@ == "cannot fetch progress"@,
            *self == UnsupportedReason::CannotGetMetadata ==> r@
                == "cannot get metadata of track playing"@,
            *self == UnsupportedReason::CannotGetPosition ==> r@
                == "cannot get playback position"@,
            *self == UnsupportedReason::PositionExceedsNow ==> r@
                == "position is greater than the current time"@,
            *self == UnsupportedReason::OffsetOverflow ==> r@
                == "applying the lyric offset overflowed"@,
    {
        match self {
            UnsupportedReason::CannotFetchProgress => "cannot fetch progress".to_owned(),
            UnsupportedReason::CannotGetMetadata => "cannot get metadata of track playing"
                .to_owned(),
            UnsupportedReason::CannotGetPosition => "cannot get playback position".to_owned(),
            UnsupportedReason::PositionExceedsNow => "position is greater than the current time"
                .to_owned(),
            UnsupportedReason::OffsetOverflow => "applying the lyric offset overflowed".to_owned(),
        }
    }
}

/// The status-label text shown when the player lacks a required capability.
pub fn unsupported_player_label() -> (r: String)
    ensures
        r@ == "Unsupported Player"@,
{
    "Unsupported Player".to_owned()
}

}
