use binlens::scrollbar::{line_for_scroll, scroll_for_line, SCROLL_MAX};

#[test]
fn line_zero_sits_at_top_of_track() {
    assert_eq!(scroll_for_line(0, 0), SCROLL_MAX);
    assert_eq!(scroll_for_line(0, 1), SCROLL_MAX);
    assert_eq!(scroll_for_line(0, 1_000_000), SCROLL_MAX);
}

#[test]
fn last_line_sits_at_bottom_of_track() {
    assert_eq!(scroll_for_line(1, 1), 0);
    assert_eq!(scroll_for_line(1_000_000, 1_000_000), 0);
}

#[test]
fn top_of_track_picks_line_zero() {
    assert_eq!(line_for_scroll(SCROLL_MAX, 0), 0);
    assert_eq!(line_for_scroll(SCROLL_MAX, 1), 0);
    assert_eq!(line_for_scroll(SCROLL_MAX, 1_000_000), 0);
}

#[test]
fn bottom_of_track_picks_last_line() {
    assert_eq!(line_for_scroll(0, 0), 0);
    assert_eq!(line_for_scroll(0, 1), 1);
    assert_eq!(line_for_scroll(0, 1_000_000), 1_000_000);
}

#[test]
fn empty_file_always_picks_line_zero() {
    for v in [0u32, 1, 12345, SCROLL_MAX / 2, SCROLL_MAX] {
        assert_eq!(line_for_scroll(v, 0), 0);
    }
}

#[test]
fn midpoint_rounds_to_middle_line() {
    // Half way down a 2-line file is line 1.
    assert_eq!(line_for_scroll(SCROLL_MAX / 2, 2), 1);
}

#[test]
fn round_trip_recovers_line_within_one() {
    for total in [0u64, 1, 1_000_000] {
        let lines = [
            0u64,
            1,
            2,
            total / 3,
            total / 2,
            total.saturating_sub(1),
            total,
        ];
        for &line in lines.iter() {
            if line > total {
                continue;
            }
            let v = scroll_for_line(line, total);
            let back = line_for_scroll(v, total);
            let diff = if back > line { back - line } else { line - back };
            assert!(
                diff <= 1,
                "line {} total {} came back as {}",
                line,
                total,
                back
            );
        }
    }
}
