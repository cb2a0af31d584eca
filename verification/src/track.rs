//! Track identity: the metadata the engine keeps about the playing track and
//! the deliberately relaxed comparison that decides whether the track
//! changed.
//!
//! Some players report a track's total duration with small variance between
//! ticks even though it is the same track, so the comparison ignores the
//! length on both sides; full equality would cause spurious refetches and
//! scroll resets.

use vstd::prelude::*;

verus! {

/// Metadata as reported by the player: every field may be absent.
#[derive(Clone, Debug, PartialEq)]
pub struct RawMetadata {
    pub id: Option<String>,
    pub title: Option<String>,
    pub album: Option<String>,
    pub artists: Option<Vec<String>>,
    pub length_ms: Option<u64>,
}

/// Identity of a playable item.  Constructible only from raw metadata that
/// carries at least an identifier and a title.
#[derive(Clone, Debug, PartialEq)]
pub struct TrackMeta {
    pub id: String,
    pub title: Option<String>,
    pub album: Option<String>,
    pub artists: Option<Vec<String>>,
    pub length_ms: Option<u64>,
}

/// Raw metadata lacks the minimum fields needed to identify a track.
#[derive(Clone, Copy, Debug, PartialEq, Eq, Structural)]
pub enum MetaParseError {
    MissingIdentifier,
    MissingTitle,
}

/// Equality of two optional texts, by their character sequences.
pub open spec fn opt_text_eq(a: Option<String>, b: Option<String>) -> bool {
    match (a, b) {
        (None, None) => true,
        (Some(x), Some(y)) => x@ == y@,
        _ => false,
    }
}

/// Equality of two optional artist lists: both absent, or element-wise equal
/// character sequences.
pub open spec fn artist_lists_eq(a: Option<Vec<String>>, b: Option<Vec<String>>) -> bool {
    match (a, b) {
        (None, None) => true,
        (Some(x), Some(y)) => x@.len() == y@.len() && (forall|i: int|
            0 <= i < x@.len() ==> x@[i]@ == y@[i]@),
        _ => false,
    }
}

/// Relaxed track identity: every field equal except the length, which is
/// ignored on both sides.
pub open spec fn same_track(a: TrackMeta, b: TrackMeta) -> bool {
    &&& a.id@ == b.id@
    &&& opt_text_eq(a.title, b.title)
    &&& opt_text_eq(a.album, b.album)
    &&& artist_lists_eq(a.artists, b.artists)
}

/// Whether `current` counts as a different track than the previously
/// observed one.  No previous track always counts as a change.
pub open spec fn changed_spec(previous: Option<TrackMeta>, current: TrackMeta) -> bool {
    match previous {
        Some(p) => !same_track(p, current),
        None => true,
    }
}

/// The track built from raw metadata that carries an identifier.
pub open spec fn parsed_meta(raw: RawMetadata) -> TrackMeta {
    TrackMeta {
        id: raw.id.unwrap(),
        title: raw.title,
        album: raw.album,
        artists: raw.artists,
        length_ms: raw.length_ms,
    }
}

impl TrackMeta {
    /// A well-formed track always carries a title: construction fails
    /// without one.
    pub open spec fn wf(self) -> bool {
        self.title is Some
    }

    /// Builds the track identity from raw metadata, failing unless both an
    /// identifier and a title are present.
    pub fn try_from_raw(raw: RawMetadata) -> (r: Result<TrackMeta, MetaParseError>)
        ensures
            raw.id is None ==> r == Err::<TrackMeta, MetaParseError>(
                MetaParseError::MissingIdentifier,
            ),
            raw.id is Some && raw.title is None ==> r == Err::<TrackMeta, MetaParseError>(
                MetaParseError::MissingTitle,
            ),
            raw.id is Some && raw.title is Some ==> r == Ok::<TrackMeta, MetaParseError>(
                parsed_meta(raw),
            ),
            r matches Ok(m) ==> m.wf(),
    {
        let RawMetadata { id, title, album, artists, length_ms } = raw;
        let id = match id {
            Some(id) => id,
            None => {
                return Err(MetaParseError::MissingIdentifier);
            },
        };
        if title.is_none() {
            return Err(MetaParseError::MissingTitle);
        }
        Ok(TrackMeta { id, title, album, artists, length_ms })
    }
}

/// Compares two optional texts; true exactly on equal character sequences.
fn opt_text_matches(a: &Option<String>, b: &Option<String>) -> (r: bool)
    ensures
        r == opt_text_eq(*a, *b),
{
    match (a, b) {
        (None, None) => true,
        (Some(x), Some(y)) => *x == *y,
        _ => false,
    }
}

/// Compares two optional artist lists element by element.
fn artist_lists_match(a: &Option<Vec<String>>, b: &Option<Vec<String>>) -> (r: bool)
    ensures
        r == artist_lists_eq(*a, *b),
{
    match (a, b) {
        (None, None) => true,
        (Some(x), Some(y)) => {
            if x.len() != y.len() {
                return false;
            }
            let mut i: usize = 0;
            while i < x.len()
                invariant
                    *a == Some(*x),
                    *b == Some(*y),
                    0 <= i <= x@.len(),
                    x@.len() == y@.len(),
                    forall|j: int| 0 <= j < i ==> x@[j]@ == y@[j]@,
                decreases x@.len() - i,
            {
                if !(x[i] == y[i]) {
                    assert(!artist_lists_eq(*a, *b)) by {
                        assert(x@[i as int]@ != y@[i as int]@);
                    }
                    return false;
                }
                i = i + 1;
            }
            true
        },
        _ => false,
    }
}

/// Relaxed equality check between two tracks, ignoring the length field.
pub fn is_same_track(a: &TrackMeta, b: &TrackMeta) -> (r: bool)
    ensures
        r == same_track(*a, *b),
{
    a.id == b.id && opt_text_matches(&a.title, &b.title) && opt_text_matches(&a.album, &b.album)
        && artist_lists_match(&a.artists, &b.artists)
}

/// Track Identity Comparator: decides whether the currently playing track
/// differs from the previously observed one, ignoring the reported length so
/// that metadata jitter never looks like a track change.
pub fn changed(previous: &Option<TrackMeta>, current: &TrackMeta) -> (r: bool)
    ensures
        r == changed_spec(*previous, *current),
{
    match previous {
        None => true,
        Some(p) => !is_same_track(p, current),
    }
}

/// Law: two metadata values that agree on every field but the length compare
/// as the same track, so a length-only difference is never reported as a
/// change.
pub proof fn lemma_length_only_difference_is_no_change(a: TrackMeta, b: TrackMeta)
    requires
        a.id@ == b.id@,
        opt_text_eq(a.title, b.title),
        opt_text_eq(a.album, b.album),
        artist_lists_eq(a.artists, b.artists),
    ensures
        !changed_spec(Some(a), b),
{
}

/// Law: a difference in any field other than the length is always reported
/// as a change.
pub proof fn lemma_other_difference_is_change(a: TrackMeta, b: TrackMeta)
    requires
        !(a.id@ == b.id@ && opt_text_eq(a.title, b.title) && opt_text_eq(a.album, b.album)
            && artist_lists_eq(a.artists, b.artists)),
    ensures
        changed_spec(Some(a), b),
{
}

}
