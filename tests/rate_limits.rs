use smugmug::rate_limit::RateLimitTracker;
use smugmug::rate_limit::RateLimitWindow;

#[test]
fn tracker_is_empty_before_any_call() {
    let tracker = RateLimitTracker::new();
    assert!(tracker.last_window().is_none());
}

#[test]
fn snapshot_after_remaining_and_reset() {
    let mut tracker = RateLimitTracker::new();
    let w = RateLimitWindow::from_header_values(1_700_000_000, None, Some("5"), Some("1700000600"));
    tracker.record(w);
    let snap = tracker.last_window().unwrap();
    assert!(snap.is_valid());
    assert_eq!(snap.num_remaining_requests(), Some(5));
    assert_eq!(snap.window_reset_datetime(), Some(1_700_000_600));
    assert_eq!(snap.retry_after_seconds(), None);
    assert_eq!(snap.timestamp(), 1_700_000_000);
    assert_eq!(snap.resume_after(), None);
}

#[test]
fn window_without_counts_is_not_handed_out() {
    let mut tracker = RateLimitTracker::new();
    tracker.record(RateLimitWindow::from_header_values(10, None, None, Some("20")));
    assert!(tracker.last_window().is_none());
    tracker.record(RateLimitWindow::from_header_values(10, Some("7"), None, None));
    assert_eq!(tracker.last_window().unwrap().retry_after_seconds(), Some(7));
}

#[test]
fn header_values_parse_as_integers() {
    let w = RateLimitWindow::from_header_values(0, Some("+30"), Some("abc"), Some("-5"));
    assert_eq!(w.retry_after_seconds(), Some(30));
    assert_eq!(w.num_remaining_requests(), None);
    assert_eq!(w.window_reset_datetime(), Some(-5));
    let w = RateLimitWindow::from_header_values(0, Some("18446744073709551616"), Some(""), Some("x"));
    assert_eq!(w.retry_after_seconds(), None);
    assert_eq!(w.num_remaining_requests(), None);
    assert_eq!(w.window_reset_datetime(), None);
    assert!(!w.is_valid());
}

#[test]
fn reset_outside_calendar_range_is_dropped() {
    let w = RateLimitWindow::from_header_values(0, None, Some("1"), Some("9223372036854775807"));
    assert_eq!(w.window_reset_datetime(), None);
}

#[test]
fn resume_after_adds_retry_delay() {
    let w = RateLimitWindow::from_header_values(1000, Some("30"), None, None);
    assert_eq!(w.resume_after(), Some(1030));
    let far = RateLimitWindow::from_header_values(i64::MAX - 1, Some("5"), None, None);
    assert_eq!(far.resume_after(), None);
    let early = RateLimitWindow::from_header_values(-20, Some("9223372036854775810"), None, None);
    assert_eq!(early.resume_after(), Some(i64::MAX - 17));
    assert!(RateLimitWindow::empty(3).resume_after().is_none());
}
