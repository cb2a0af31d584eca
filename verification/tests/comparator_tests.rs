//! Tests for the track identity comparator and metadata parsing.

use lyric_sync::track::{changed, is_same_track, MetaParseError, RawMetadata, TrackMeta};

fn meta(
    id: &str,
    title: Option<&str>,
    album: Option<&str>,
    artists: Option<Vec<&str>>,
    length_ms: Option<u64>,
) -> TrackMeta {
    TrackMeta {
        id: id.to_string(),
        title: title.map(str::to_string),
        album: album.map(str::to_string),
        artists: artists.map(|v| v.into_iter().map(str::to_string).collect()),
        length_ms,
    }
}

#[test]
fn length_only_difference_is_no_change() {
    let a = meta("t1", Some("Song"), Some("Album"), Some(vec!["A", "B"]), Some(180_000));
    let b = meta("t1", Some("Song"), Some("Album"), Some(vec!["A", "B"]), Some(181_000));
    assert!(is_same_track(&a, &b));
    assert!(!changed(&Some(a), &b));
}

#[test]
fn length_absent_on_one_side_is_no_change() {
    let a = meta("t1", Some("Song"), None, None, Some(180_000));
    let b = meta("t1", Some("Song"), None, None, None);
    assert!(!changed(&Some(a), &b));
}

#[test]
fn title_difference_is_change() {
    let a = meta("t1", Some("Song"), None, None, Some(180_000));
    let b = meta("t1", Some("Other"), None, None, Some(180_000));
    assert!(!is_same_track(&a, &b));
    assert!(changed(&Some(a), &b));
}

#[test]
fn id_difference_is_change() {
    let a = meta("t1", Some("Song"), None, None, None);
    let b = meta("t2", Some("Song"), None, None, None);
    assert!(changed(&Some(a), &b));
}

#[test]
fn album_difference_is_change() {
    let a = meta("t1", Some("Song"), Some("Album"), None, None);
    let b = meta("t1", Some("Song"), None, None, None);
    assert!(changed(&Some(a), &b));
}

#[test]
fn artist_difference_is_change() {
    let a = meta("t1", Some("Song"), None, Some(vec!["A", "B"]), None);
    let b = meta("t1", Some("Song"), None, Some(vec!["A", "C"]), None);
    assert!(changed(&Some(a), &b));
    let c = meta("t1", Some("Song"), None, Some(vec!["A"]), None);
    let d = meta("t1", Some("Song"), None, Some(vec!["A", "B"]), None);
    assert!(changed(&Some(c), &d));
}

#[test]
fn no_previous_track_is_change() {
    let b = meta("t1", Some("Song"), None, None, None);
    assert!(changed(&None, &b));
}

#[test]
fn parse_needs_identifier() {
    let raw = RawMetadata {
        id: None,
        title: Some("Song".to_string()),
        album: None,
        artists: None,
        length_ms: None,
    };
    assert_eq!(TrackMeta::try_from_raw(raw), Err(MetaParseError::MissingIdentifier));
}

#[test]
fn parse_needs_title() {
    let raw = RawMetadata {
        id: Some("t1".to_string()),
        title: None,
        album: None,
        artists: None,
        length_ms: Some(1),
    };
    assert_eq!(TrackMeta::try_from_raw(raw), Err(MetaParseError::MissingTitle));
}

#[test]
fn parse_carries_all_fields_over() {
    let raw = RawMetadata {
        id: Some("t1".to_string()),
        title: Some("Song".to_string()),
        album: Some("Album".to_string()),
        artists: Some(vec!["A".to_string(), "B".to_string()]),
        length_ms: Some(180_000),
    };
    let m = TrackMeta::try_from_raw(raw).unwrap();
    assert_eq!(m.id, "t1");
    assert_eq!(m.title.as_deref(), Some("Song"));
    assert_eq!(m.album.as_deref(), Some("Album"));
    assert_eq!(m.artists, Some(vec!["A".to_string(), "B".to_string()]));
    assert_eq!(m.length_ms, Some(180_000));
}
