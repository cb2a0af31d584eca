//! The sync engine: per-tick classification and the state transitions of the
//! recovery branches.
//!
//! One tick works on a snapshot of what the host observed from the player.
//! The classifier turns the snapshot into exactly one outcome — a playing
//! track with its lyric anchor, a metadata parse failure, or a player status
//! — and the handlers say precisely how each outcome changes the shared
//! state and the registry.  The host performs the queries and UI effects
//! around these calls.

use crate::state::{PlayerHandle, PlayerRegistry, TrackState};
use crate::status::{PlayerStatus, UnsupportedReason};
use crate::timing;
use crate::timing::EstimateError;
use crate::track::{changed, changed_spec, parsed_meta, RawMetadata, TrackMeta};
use vstd::prelude::*;

verus! {

/// What one tick observed of the bound player.  Absent where no player is
/// bound; a `None` in a field means that query failed.
#[derive(Clone, Debug)]
pub struct PlayerSnapshot {
    /// The player's process or service is still reachable.
    pub running: bool,
    /// The progress tracker could be constructed.
    pub progress_ok: bool,
    /// The playback status was "playing" (meaningful only when
    /// `progress_ok`).
    pub playing: bool,
    /// Raw track metadata, absent when the metadata query failed.
    pub metadata: Option<RawMetadata>,
    /// Elapsed position in milliseconds, absent when the position query
    /// failed.
    pub position_ms: Option<u64>,
}

/// Outcome of classifying one tick: exactly one of a playing track with its
/// lyric anchor, a terminal metadata parse failure (logged, state cleared,
/// not escalated), or a player status.
#[derive(Clone, Debug, PartialEq)]
pub enum TickClass {
    /// The player is playing a parseable track; `lyric_start_ms` is the
    /// absolute instant of elapsed-position zero, offset applied.
    Playing { meta: TrackMeta, lyric_start_ms: u64 },
    /// The metadata lacks the fields needed to identify the track.
    ParseFailure(crate::track::MetaParseError),
    /// The player is missing, paused, or lacks a required capability.
    Status(PlayerStatus),
}

/// The classification rules, in their order of evaluation: no player, player
/// gone, progress failure, not playing, metadata failure, position failure,
/// impossible position, offset overflow, unparseable metadata — else
/// playing.
pub open spec fn classify_spec(
    snapshot: Option<PlayerSnapshot>,
    now_ms: u64,
    offset_ms: i64,
) -> TickClass {
    match snapshot {
        None => TickClass::Status(PlayerStatus::Missing),
        Some(s) => if !s.running {
            TickClass::Status(PlayerStatus::Missing)
        } else if !s.progress_ok {
            TickClass::Status(PlayerStatus::Unsupported(UnsupportedReason::CannotFetchProgress))
        } else if !s.playing {
            TickClass::Status(PlayerStatus::Paused)
        } else if s.metadata is None {
            TickClass::Status(PlayerStatus::Unsupported(UnsupportedReason::CannotGetMetadata))
        } else if s.position_ms is None {
            TickClass::Status(PlayerStatus::Unsupported(UnsupportedReason::CannotGetPosition))
        } else if s.position_ms.unwrap() > now_ms {
            TickClass::Status(PlayerStatus::Unsupported(UnsupportedReason::PositionExceedsNow))
        } else if !(0 <= timing::start_instant(
            now_ms as int,
            s.position_ms.unwrap() as int,
            offset_ms as int,
        ) <= u64::MAX as int) {
            TickClass::Status(PlayerStatus::Unsupported(UnsupportedReason::OffsetOverflow))
        } else if s.metadata.unwrap().id is None {
            TickClass::ParseFailure(crate::track::MetaParseError::MissingIdentifier)
        } else if s.metadata.unwrap().title is None {
            TickClass::ParseFailure(crate::track::MetaParseError::MissingTitle)
        } else {
            TickClass::Playing {
                meta: parsed_meta(s.metadata.unwrap()),
                lyric_start_ms: timing::start_instant(
                    now_ms as int,
                    s.position_ms.unwrap() as int,
                    offset_ms as int,
                ) as u64,
            }
        },
    }
}

/// PlayerStatus Classifier plus Position Estimator for one tick: produces
/// exactly one outcome, never panics, and follows the rules of
/// [`classify_spec`] in order.
pub fn classify(snapshot: Option<PlayerSnapshot>, now_ms: u64, offset_ms: i64) -> (r: TickClass)
    ensures
        r == classify_spec(snapshot, now_ms, offset_ms),
{
    let s = match snapshot {
        None => {
            return TickClass::Status(PlayerStatus::Missing);
        },
        Some(s) => s,
    };
    if !s.running {
        return TickClass::Status(PlayerStatus::Missing);
    }
    if !s.progress_ok {
        return TickClass::Status(PlayerStatus::Unsupported(UnsupportedReason::CannotFetchProgress));
    }
    if !s.playing {
        return TickClass::Status(PlayerStatus::Paused);
    }
    let raw = match s.metadata {
        None => {
            return TickClass::Status(
                PlayerStatus::Unsupported(UnsupportedReason::CannotGetMetadata),
            );
        },
        Some(raw) => raw,
    };
    let position_ms = match s.position_ms {
        None => {
            return TickClass::Status(
                PlayerStatus::Unsupported(UnsupportedReason::CannotGetPosition),
            );
        },
        Some(p) => p,
    };
    let lyric_start_ms = match timing::estimate(now_ms, position_ms, offset_ms) {
        Ok(v) => v,
        Err(EstimateError::PositionExceedsNow) => {
            return TickClass::Status(
                PlayerStatus::Unsupported(UnsupportedReason::PositionExceedsNow),
            );
        },
        Err(EstimateError::OffsetOverflow) => {
            return TickClass::Status(PlayerStatus::Unsupported(UnsupportedReason::OffsetOverflow));
        },
    };
    match TrackMeta::try_from_raw(raw) {
        Ok(meta) => TickClass::Playing { meta, lyric_start_ms },
        Err(e) => TickClass::ParseFailure(e),
    }
}

/// The driver's control decision for one timer firing.
#[derive(Clone, Copy, Debug, PartialEq, Eq, Structural)]
pub enum LoopStep {
    /// The host application is gone: the loop ends.
    Stop,
    /// No UI surface exists: this tick is a no-op and the loop continues.
    Skip,
    /// Run the full sync path.
    Run,
}

/// The loop has no terminal state while the host is alive: it stops only
/// when the host application is gone, skips the tick when no UI surface is
/// available, and otherwise runs the full sync path.
pub fn loop_control(host_alive: bool, surface_available: bool) -> (r: LoopStep)
    ensures
        !host_alive ==> r == LoopStep::Stop,
        host_alive && !surface_available ==> r == LoopStep::Skip,
        host_alive && surface_available ==> r == LoopStep::Run,
{
    if !host_alive {
        LoopStep::Stop
    } else if !surface_available {
        LoopStep::Skip
    } else {
        LoopStep::Run
    }
}

/// Track-change check as one tick runs it: true exactly when the stored
/// track (length ignored) differs from the one playing, in which case the
/// caller must schedule a lyric fetch and record the new track.
pub fn need_fetch_lyric(state: &TrackState, meta: &TrackMeta) -> (r: bool)
    ensures
        r == changed_spec(state.metainfo, *meta),
{
    changed(&state.metainfo, meta)
}

/// Staleness guard for fetch completions: a finished lyric fetch may be
/// applied only while the track it was fetched for is still the one playing
/// (length ignored), so a result overtaken by a later track change is
/// dropped.
pub fn fetch_result_applies(state: &TrackState, fetched_for: &TrackMeta) -> (r: bool)
    ensures
        r == !changed_spec(state.metainfo, *fetched_for),
{
    !changed(&state.metainfo, fetched_for)
}

/// Records a genuinely new track: overwrites the stored metadata and cache
/// key, touching nothing else.
pub fn record_new_track(state: &mut TrackState, meta: TrackMeta, cache_path: Option<String>)
    ensures
        final(state).metainfo == Some(meta),
        final(state).cache_path == cache_path,
        final(state).paused == old(state).paused,
{
    state.metainfo = Some(meta);
    state.cache_path = cache_path;
}

/// Recovery from a missing player: the track state is fully cleared and the
/// registry slot holds exactly what the finder produced — a newly found
/// player, or nothing.
pub fn handle_missing(
    state: &mut TrackState,
    registry: &mut PlayerRegistry,
    found: Option<PlayerHandle>,
)
    ensures
        final(state).is_cleared(),
        final(registry).player == found,
{
    state.clear();
    registry.rebind(found);
}

/// A paused player freezes the display: the paused flag is set while the
/// stored metadata and cache key stay untouched, so resuming playback needs
/// no refetch.
pub fn handle_paused(state: &mut TrackState)
    ensures
        final(state).paused,
        final(state).metainfo == old(state).metainfo,
        final(state).cache_path == old(state).cache_path,
{
    state.paused = true;
}

/// A terminal metadata parse failure clears the track state; the condition
/// is logged by the caller and not escalated.
pub fn handle_parse_failure(state: &mut TrackState)
    ensures
        final(state).is_cleared(),
{
    state.clear();
}

/// Law: whatever the snapshot, a tick that cannot compute a start instant —
/// a failed position query, a position after the current time, or an offset
/// leaving the representable range — classifies as `Unsupported`; it never
/// yields a playing track with a bad anchor.
pub proof fn lemma_bad_position_is_unsupported(
    snapshot: Option<PlayerSnapshot>,
    now_ms: u64,
    offset_ms: i64,
)
    requires
        snapshot matches Some(s) && s.running && s.progress_ok && s.playing && s.metadata is Some
            && (s.position_ms is None || s.position_ms.unwrap() > now_ms || !(0
            <= timing::start_instant(
            now_ms as int,
            s.position_ms.unwrap() as int,
            offset_ms as int,
        ) <= u64::MAX as int)),
    ensures
        classify_spec(snapshot, now_ms, offset_ms) matches TickClass::Status(status)
            && status matches PlayerStatus::Unsupported(reason)
            && (reason == UnsupportedReason::CannotGetPosition || reason
            == UnsupportedReason::PositionExceedsNow || reason == UnsupportedReason::OffsetOverflow
        ),
{
}

}
