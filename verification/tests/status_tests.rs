//! Tests for the status taxonomy's user-visible texts.

use lyric_sync::status::{unsupported_player_label, UnsupportedReason};

#[test]
fn messages_name_the_failed_capability() {
    assert_eq!(UnsupportedReason::CannotFetchProgress.message(), "cannot fetch progress");
    assert_eq!(
        UnsupportedReason::CannotGetMetadata.message(),
        "cannot get metadata of track playing"
    );
    assert_eq!(UnsupportedReason::CannotGetPosition.message(), "cannot get playback position");
    assert_eq!(
        UnsupportedReason::PositionExceedsNow.message(),
        "position is greater than the current time"
    );
    assert_eq!(
        UnsupportedReason::OffsetOverflow.message(),
        "applying the lyric offset overflowed"
    );
}

#[test]
fn unsupported_label_text() {
    assert_eq!(unsupported_player_label(), "Unsupported Player");
}
