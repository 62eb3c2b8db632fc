use vstd::prelude::*;

verus! {

/// A point on the caller's monotonic clock, in milliseconds, or a point
/// that never arrives (used for deadlines that are not configured).
#[derive(Clone, Copy, PartialEq, Eq, Structural, Debug)]
pub enum Instant {
    At(u64),
    NotHappening,
}

/// A span of time in milliseconds, or an unbounded span (the time until
/// a deadline that never arrives).
#[derive(Clone, Copy, PartialEq, Eq, Structural, Debug)]
pub enum Duration {
    Exact(u64),
    NotHappening,
}

/// Identifies which deadline expired, or which phase a pending deadline
/// belongs to.
#[derive(Clone, Copy, PartialEq, Eq, Structural, Debug)]
pub enum TimeoutReason {
    Global,
    Resolver,
    OpenConnection,
    SendRequest,
    SendBody,
    Await100,
    RecvResponse,
    RecvBody,
}

/// The next deadline the caller must enforce: how long it may wait, and
/// which phase the deadline belongs to.
#[derive(Clone, Copy, PartialEq, Eq, Structural, Debug)]
pub struct NextTimeout {
    pub after: Duration,
    pub reason: TimeoutReason,
}

impl Instant {
    /// `self` is no later than `other`; a time that never arrives is
    /// later than every actual time.
    pub open spec fn spec_le(self, other: Instant) -> bool {
        match (self, other) {
            (Instant::At(a), Instant::At(b)) => a <= b,
            (Instant::At(_), Instant::NotHappening) => true,
            (Instant::NotHappening, Instant::NotHappening) => true,
            (Instant::NotHappening, Instant::At(_)) => false,
        }
    }

    /// The instant `d` milliseconds after `self`; an overflowing sum is
    /// treated as a deadline that never arrives.
    pub open spec fn spec_add_millis(self, d: u64) -> Instant {
        match self {
            Instant::At(t) => if t + d <= u64::MAX {
                Instant::At((t + d) as u64)
            } else {
                Instant::NotHappening
            },
            Instant::NotHappening => Instant::NotHappening,
        }
    }

    /// Time remaining from `earlier` until `self`, saturating at zero.
    pub open spec fn spec_duration_since(self, earlier: Instant) -> Duration {
        match (self, earlier) {
            (Instant::At(t), Instant::At(e)) => if t >= e {
                Duration::Exact((t - e) as u64)
            } else {
                Duration::Exact(0)
            },
            (Instant::NotHappening, _) => Duration::NotHappening,
            (Instant::At(_), Instant::NotHappening) => Duration::Exact(0),
        }
    }

    pub fn add_millis(self, d: u64) -> (r: Instant)
        ensures
            r == self.spec_add_millis(d),
    {
        match self {
            Instant::At(t) => {
                match t.checked_add(d) {
                    Some(s) => Instant::At(s),
                    None => Instant::NotHappening,
                }
            },
            Instant::NotHappening => Instant::NotHappening,
        }
    }

    pub fn duration_since(self, earlier: Instant) -> (r: Duration)
        ensures
            r == self.spec_duration_since(earlier),
    {
        match (self, earlier) {
            (Instant::At(t), Instant::At(e)) => {
                if t >= e {
                    Duration::Exact(t - e)
                } else {
                    Duration::Exact(0)
                }
            },
            (Instant::NotHappening, _) => Duration::NotHappening,
            (Instant::At(_), Instant::NotHappening) => Duration::Exact(0),
        }
    }
}

impl Duration {
    pub open spec fn spec_is_zero(self) -> bool {
        self == Duration::Exact(0u64)
    }

    /// The smaller of two spans; an unbounded span is larger than every
    /// exact one.
    pub open spec fn spec_min(self, other: Duration) -> Duration {
        match (self, other) {
            (Duration::Exact(a), Duration::Exact(b)) => if a <= b {
                Duration::Exact(a)
            } else {
                Duration::Exact(b)
            },
            (Duration::Exact(a), Duration::NotHappening) => Duration::Exact(a),
            (Duration::NotHappening, d) => d,
        }
    }

    pub fn is_zero(self) -> (r: bool)
        ensures
            r == self.spec_is_zero(),
    {
        match self {
            Duration::Exact(d) => d == 0,
            Duration::NotHappening => false,
        }
    }

    pub fn min(self, other: Duration) -> (r: Duration)
        ensures
            r == self.spec_min(other),
    {
        match (self, other) {
            (Duration::Exact(a), Duration::Exact(b)) => {
                if a <= b {
                    Duration::Exact(a)
                } else {
                    Duration::Exact(b)
                }
            },
            (Duration::Exact(a), Duration::NotHappening) => Duration::Exact(a),
            (Duration::NotHappening, d) => d,
        }
    }
}

} // verus!
