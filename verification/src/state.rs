//! Shared playback state and the player registry.
//!
//! Both are owned by the sync loop: the loop and its recovery branches are
//! the only writers, while the UI and action handlers read them.

use crate::track::TrackMeta;
use vstd::prelude::*;

verus! {

/// What the engine currently knows about playback: the track playing, a
/// paused flag, and the on-disk cache key derived from the track identity.
#[derive(Clone, Debug, PartialEq)]
pub struct TrackState {
    pub metainfo: Option<TrackMeta>,
    pub paused: bool,
    pub cache_path: Option<String>,
}

impl TrackState {
    /// Nothing playing, not paused, no cache key.
    pub open spec fn is_cleared(self) -> bool {
        &&& self.metainfo is None
        &&& !self.paused
        &&& self.cache_path is None
    }

    /// Fresh, cleared state.
    pub fn new() -> (r: Self)
        ensures
            r.is_cleared(),
    {
        TrackState { metainfo: None, paused: false, cache_path: None }
    }

    /// Discards everything, as when the bound player disappears or reports
    /// an unparseable track.
    pub fn clear(&mut self)
        ensures
            final(self).is_cleared(),
    {
        self.metainfo = None;
        self.paused = false;
        self.cache_path = None;
    }
}

impl Default for TrackState {
    /// Same as [`TrackState::new`]: cleared state.
    fn default() -> (r: Self)
        ensures
            r.is_cleared(),
    {
        TrackState::new()
    }
}

/// The bound player as far as the engine's decisions read it: its advertised
/// identity.
#[derive(Clone, Debug, PartialEq)]
pub struct PlayerHandle {
    pub identity: String,
}

/// Registry slot holding the currently bound player.  Binding is
/// replace-only; unbinding clears the slot.  The registry is consulted only
/// while recovering from a missing player.
#[derive(Clone, Debug, PartialEq)]
pub struct PlayerRegistry {
    pub player: Option<PlayerHandle>,
}

impl PlayerRegistry {
    /// Fresh registry with nothing bound.
    pub fn new() -> (r: Self)
        ensures
            r.player is None,
    {
        PlayerRegistry { player: None }
    }

    /// Replace-only binding: stores exactly what the finder produced,
    /// clearing the slot when the finder found nothing.
    pub fn rebind(&mut self, found: Option<PlayerHandle>)
        ensures
            final(self).player == found,
    {
        self.player = found;
    }

    /// Clears the slot.
    pub fn unbind(&mut self)
        ensures
            final(self).player is None,
    {
        self.player = None;
    }
}

}
