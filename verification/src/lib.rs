//! Synchronization engine for a lyric display driven by an external media
//! player.
//!
//! The engine decides, once per timer tick, what the player is doing
//! (missing, paused, unsupported, or playing a track), whether the track
//! changed since the last tick, and at which absolute instant the lyric
//! scroll must anchor.  All decisions are pure functions over plain values;
//! the host application performs the player queries and UI updates and hands
//! their results in.

pub mod engine;
pub mod state;
pub mod status;
pub mod timing;
pub mod track;
