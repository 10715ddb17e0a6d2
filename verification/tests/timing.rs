use std::time::{Duration, Instant};

use mtcp_rs::{compute_remaining_time, set_up_timeout, TimeSpan, Timeout};

#[test]
fn time_span_parts() {
    let span = TimeSpan::new(3, 250);
    assert_eq!(span.as_secs(), 3);
    assert_eq!(span.subsec_nanos(), 250);
    assert!(!span.is_zero());
    assert!(TimeSpan::zero().is_zero());
}

#[test]
fn time_span_from_millis() {
    let span = TimeSpan::from_millis(2_345);
    assert_eq!(span.as_secs(), 2);
    assert_eq!(span.subsec_nanos(), 345_000_000);
    assert_eq!(TimeSpan::from_secs(7).as_secs(), 7);
    assert_eq!(TimeSpan::from_secs(7).subsec_nanos(), 0);
}

#[test]
fn time_span_saturating_sub_borrows() {
    let d = TimeSpan::new(3, 5).saturating_sub(&TimeSpan::new(1, 7));
    assert_eq!(d.as_secs(), 1);
    assert_eq!(d.subsec_nanos(), 999_999_998);
}

#[test]
fn time_span_saturating_sub_plain() {
    let d = TimeSpan::new(5, 900).saturating_sub(&TimeSpan::new(2, 100));
    assert_eq!(d, TimeSpan::new(3, 800));
}

#[test]
fn time_span_saturating_sub_floors_at_zero() {
    assert!(TimeSpan::new(1, 0).saturating_sub(&TimeSpan::new(2, 0)).is_zero());
    assert!(TimeSpan::new(1, 5).saturating_sub(&TimeSpan::new(1, 6)).is_zero());
    assert!(TimeSpan::new(4, 4).saturating_sub(&TimeSpan::new(4, 4)).is_zero());
}

#[test]
fn time_span_matches_std_duration() {
    let cases = [(0u64, 0u32, 0u64, 0u32), (10, 5, 3, 999_999_999), (2, 0, 2, 1), (9, 1, 0, 1)];
    for (s1, n1, s2, n2) in cases {
        let ours = TimeSpan::new(s1, n1).saturating_sub(&TimeSpan::new(s2, n2));
        let std = Duration::new(s1, n1).saturating_sub(Duration::new(s2, n2));
        assert_eq!(ours.as_secs(), std.as_secs());
        assert_eq!(ours.subsec_nanos(), std.subsec_nanos());
    }
}

#[test]
fn timeout_without_limit_never_runs_out() {
    let t = Timeout::start(None);
    assert!(t.remaining_time().is_none());
}

#[test]
fn timeout_remaining_never_exceeds_limit() {
    let limit = TimeSpan::from_secs(60);
    let t = Timeout::start(Some(limit));
    let remaining = t.remaining_time().unwrap();
    assert!(remaining.as_secs() <= 60);
    assert!(remaining.as_secs() >= 50);
}

#[test]
fn timeout_of_zero_is_spent_at_once() {
    let t = Timeout::start(Some(TimeSpan::zero()));
    assert!(t.remaining_time().unwrap().is_zero());
}

#[test]
fn set_up_timeout_keeps_the_limit() {
    assert!(set_up_timeout(None).is_none());
    let (_start, limit) = set_up_timeout(Some(TimeSpan::new(4, 2))).unwrap();
    assert_eq!(limit, TimeSpan::new(4, 2));
}

#[test]
fn remaining_time_counts_the_elapsed_time() {
    let started = Instant::now().checked_sub(Duration::from_secs(5)).unwrap();
    let spent = compute_remaining_time((started, TimeSpan::from_secs(3)));
    assert!(spent.is_zero());
    let started = Instant::now().checked_sub(Duration::from_secs(5)).unwrap();
    let left = compute_remaining_time((started, TimeSpan::from_secs(100)));
    assert!(left.as_secs() <= 95);
    assert!(left.as_secs() >= 85);
}
