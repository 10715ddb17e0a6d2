//! Spans of time and the time-outs of blocking operations.
use vstd::prelude::*;

verus! {

/// Nanoseconds in one second.
pub const NANOS_PER_SEC: u32 = 1_000_000_000;

/// A span of time with nanosecond precision: whole seconds and the
/// nanoseconds of the last, incomplete second.
#[derive(Clone, Copy, Debug, PartialEq, Eq, Structural)]
pub struct TimeSpan {
    secs: u64,
    nanos: u32,
}

impl TimeSpan {
    #[verifier::type_invariant]
    spec fn wf(self) -> bool {
        self.nanos < NANOS_PER_SEC
    }

    /// The length of the span in nanoseconds.
    pub closed spec fn total_nanos(self) -> nat {
        (self.secs as nat) * (NANOS_PER_SEC as nat) + (self.nanos as nat)
    }

    /// The whole seconds of the span.
    pub closed spec fn spec_secs(self) -> u64 {
        self.secs
    }

    /// The nanoseconds beyond the whole seconds.
    pub closed spec fn spec_subsec_nanos(self) -> u32 {
        self.nanos
    }

    /// Builds a span of `secs` seconds and `nanos` nanoseconds.
    pub fn new(secs: u64, nanos: u32) -> (span: TimeSpan)
        requires
            nanos < NANOS_PER_SEC,
        ensures
            span.spec_secs() == secs,
            span.spec_subsec_nanos() == nanos,
            span.total_nanos() == secs * (NANOS_PER_SEC as nat) + nanos,
    {
        TimeSpan { secs, nanos }
    }

    /// The empty span.
    pub fn zero() -> (span: TimeSpan)
        ensures
            span.total_nanos() == 0,
            span.spec_secs() == 0,
            span.spec_subsec_nanos() == 0,
    {
        TimeSpan { secs: 0, nanos: 0 }
    }

    /// A span of whole seconds.
    pub fn from_secs(secs: u64) -> (span: TimeSpan)
        ensures
            span.total_nanos() == secs * (NANOS_PER_SEC as nat),
            span.spec_secs() == secs,
            span.spec_subsec_nanos() == 0,
    {
        TimeSpan { secs, nanos: 0 }
    }

    /// A span of whole milliseconds.
    pub fn from_millis(millis: u64) -> (span: TimeSpan)
        ensures
            span.total_nanos() == millis * 1_000_000,
    {
        let secs: u64 = millis / 1000;
        let rest: u64 = millis % 1000;
        let nanos: u32 = (rest * 1_000_000) as u32;
        TimeSpan { secs, nanos }
    }

    /// The whole seconds of the span.
    pub fn as_secs(&self) -> (secs: u64)
        ensures
            secs == self.spec_secs(),
    {
        self.secs
    }

    /// The nanoseconds beyond the whole seconds, always less than one second.
    pub fn subsec_nanos(&self) -> (nanos: u32)
        ensures
            nanos == self.spec_subsec_nanos(),
            nanos < NANOS_PER_SEC,
    {
        proof {
            use_type_invariant(self);
        }
        self.nanos
    }

    /// Whether the span is empty.
    pub fn is_zero(&self) -> (zero: bool)
        ensures
            zero == (self.total_nanos() == 0),
    {
        self.secs == 0 && self.nanos == 0
    }

    /// `self - other`, or the empty span where `other` is the longer one.
    pub fn saturating_sub(&self, other: &TimeSpan) -> (diff: TimeSpan)
        ensures
            self.total_nanos() >= other.total_nanos() ==> diff.total_nanos() == self.total_nanos()
                - other.total_nanos(),
            self.total_nanos() < other.total_nanos() ==> diff.total_nanos() == 0,
    {
        proof {
            use_type_invariant(self);
            use_type_invariant(other);
        }
        if self.secs < other.secs {
            TimeSpan { secs: 0, nanos: 0 }
        } else if self.nanos >= other.nanos {
            TimeSpan { secs: self.secs - other.secs, nanos: self.nanos - other.nanos }
        } else if self.secs > other.secs {
            TimeSpan {
                secs: self.secs - other.secs - 1,
                nanos: (NANOS_PER_SEC - other.nanos) + self.nanos,
            }
        } else {
            TimeSpan { secs: 0, nanos: 0 }
        }
    }
}

/// An instant of the monotonic clock.
#[verifier::external_type_specification]
#[verifier::external_body]
pub struct ExInstant(std::time::Instant);

/// Reads the monotonic clock (`std::time::Instant::now`). Nothing is promised
/// of the instant that comes back.
#[verifier::external_body]
fn instant_now() -> (now: std::time::Instant) {
    std::time::Instant::now()
}

/// The time that has passed since `start` (`std::time::Instant::elapsed`).
/// Nothing is promised: the value depends on the clock.
#[verifier::external_body]
fn instant_elapsed(start: &std::time::Instant) -> (elapsed: std::time::Duration) {
    start.elapsed()
}

/// The whole seconds of a duration (`std::time::Duration::as_secs`). The
/// duration is opaque here, so nothing is promised of the number.
#[verifier::external_body]
fn duration_secs(duration: &std::time::Duration) -> (secs: u64) {
    duration.as_secs()
}

/// The nanoseconds of a duration beyond its whole seconds
/// (`std::time::Duration::subsec_nanos`), which std documents as always
/// less than one second.
#[verifier::external_body]
fn duration_subsec_nanos(duration: &std::time::Duration) -> (nanos: u32)
    ensures
        nanos < NANOS_PER_SEC,
{
    duration.subsec_nanos()
}

/// The time that has passed since `start`.
fn elapsed_since(start: &std::time::Instant) -> TimeSpan {
    let elapsed = instant_elapsed(start);
    TimeSpan { secs: duration_secs(&elapsed), nanos: duration_subsec_nanos(&elapsed) }
}

/// The time-out of one blocking operation: when it started, and how long it
/// may take. No limit at all where the operation may wait for ever.
pub struct Timeout {
    timeout: Option<(std::time::Instant, TimeSpan)>,
}

impl Timeout {
    /// The limit that the time-out was started with.
    pub closed spec fn limit(self) -> Option<TimeSpan> {
        match self.timeout {
            Some((_, d)) => Some(d),
            None => None,
        }
    }

    /// Starts a time-out of `timeout` now; `None` never runs out.
    pub fn start(timeout: Option<TimeSpan>) -> (t: Timeout)
        ensures
            t.limit() == timeout,
    {
        match timeout {
            Some(duration) => Timeout { timeout: Some((instant_now(), duration)) },
            None => Timeout { timeout: None },
        }
    }

    /// The time that is left: the limit less the time that has passed since
    /// the start, or nothing where there is no limit. What is left is never
    /// more than the limit, and is empty once the limit has passed.
    pub fn remaining_time(&self) -> (remaining: Option<TimeSpan>)
        ensures
            remaining is None <==> self.limit() is None,
            remaining matches Some(r) ==> r.total_nanos() <= self.limit()->0.total_nanos(),
    {
        match &self.timeout {
            Some((start, duration)) => {
                let elapsed = elapsed_since(start);
                Some(duration.saturating_sub(&elapsed))
            },
            None => None,
        }
    }
}

/// Notes the current instant beside the time-out, where there is one.
pub fn set_up_timeout(timeout: Option<TimeSpan>) -> (t: Option<(std::time::Instant, TimeSpan)>)
    ensures
        t is None <==> timeout is None,
        t matches Some(p) ==> timeout == Some(p.1),
{
    match timeout {
        Some(value) => Some((instant_now(), value)),
        None => None,
    }
}

/// The time that is left of a time-out set up by [`set_up_timeout`]: never
/// more than its limit.
pub fn compute_remaining_time(timeout: (std::time::Instant, TimeSpan)) -> (remaining: TimeSpan)
    ensures
        remaining.total_nanos() <= timeout.1.total_nanos(),
{
    let elapsed = elapsed_since(&timeout.0);
    timeout.1.saturating_sub(&elapsed)
}

} // verus!
