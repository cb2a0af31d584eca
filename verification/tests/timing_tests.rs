//! Tests for the position estimator.

use lyric_sync::timing::{estimate, EstimateError};

#[test]
fn zero_offset_anchors_at_now_minus_position() {
    assert_eq!(estimate(900_000, 10_000, 0), Ok(890_000));
}

#[test]
fn positive_offset_shifts_anchor_later() {
    assert_eq!(estimate(900_000, 10_000, 250), Ok(890_250));
}

#[test]
fn negative_offset_shifts_anchor_earlier() {
    // offset = -500 ms, position = 5000 ms: the anchor is now - 5500 ms.
    assert_eq!(estimate(900_000, 5_000, -500), Ok(894_500));
}

#[test]
fn position_after_now_is_an_error_not_a_panic() {
    assert_eq!(estimate(5_000, 10_000, 0), Err(EstimateError::PositionExceedsNow));
}

#[test]
fn offset_underflow_is_reported() {
    // now - position = 100, shifting earlier by 101 ms leaves the range.
    assert_eq!(estimate(1_100, 1_000, -101), Err(EstimateError::OffsetOverflow));
    assert_eq!(estimate(1_000, 0, i64::MIN), Err(EstimateError::OffsetOverflow));
}

#[test]
fn offset_overflow_is_reported() {
    assert_eq!(estimate(u64::MAX, 0, 1), Err(EstimateError::OffsetOverflow));
}

#[test]
fn boundary_offsets_stay_in_range() {
    assert_eq!(estimate(1_100, 1_000, -100), Ok(0));
    assert_eq!(estimate(u64::MAX, 0, 0), Ok(u64::MAX));
    assert_eq!(estimate(0, 0, 0), Ok(0));
}
