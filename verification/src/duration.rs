//! Points in time and spans between them, counted in whole seconds.

use vstd::prelude::*;

verus! {

/// Bound on the seconds since the Unix epoch of any instant a journey can
/// hold: every instant within it, moved by less than a day either way, is
/// one the calendar library can represent (its range reaches about
/// 8.2 * 10^12 seconds on either side of the epoch).
pub const MAX_INSTANT: i64 = 8_000_000_000_000;

/// Bound on the length of a span in seconds (the largest span of whole
/// milliseconds that fits in 64 bits).
pub const MAX_SPAN: i64 = 9_223_372_036_854_775;

/// Whether `t` (seconds since the Unix epoch) is a representable instant.
pub open spec fn valid_instant(t: int) -> bool {
    -MAX_INSTANT <= t <= MAX_INSTANT
}

/// Whether an optional instant is representable.
pub open spec fn valid_opt_instant(t: Option<i64>) -> bool {
    match t {
        Some(t) => valid_instant(t as int),
        None => true,
    }
}

/// Division rounding toward zero, as integer division on machine integers.
pub open spec fn trunc_div(a: int, b: int) -> int
    recommends
        b > 0,
{
    if a >= 0 {
        a / b
    } else {
        -((-a) / b)
    }
}

/// A signed span of time.
#[derive(Debug, Clone, Copy, PartialEq, Eq, Structural)]
pub struct Duration {
    seconds: i64,
}

impl Duration {
    #[verifier::type_invariant]
    spec fn bounded(self) -> bool {
        -MAX_SPAN <= self.seconds <= MAX_SPAN
    }

    /// The length in seconds.
    pub closed spec fn secs(self) -> int {
        self.seconds as int
    }

    /// Every span lies within the bound.
    pub fn note_bounded(&self)
        ensures
            -MAX_SPAN <= self.secs() <= MAX_SPAN,
    {
        proof {
            use_type_invariant(self);
        }
    }

    /// The empty span.
    pub fn zero() -> (r: Duration)
        ensures
            r.secs() == 0,
    {
        Duration { seconds: 0 }
    }

    /// A span of `n` seconds, if it is within the bound.
    pub fn try_seconds(n: i64) -> (r: Option<Duration>)
        ensures
            r matches Some(d) ==> d.secs() == n,
            r is Some <==> -MAX_SPAN <= n <= MAX_SPAN,
    {
        if -MAX_SPAN <= n && n <= MAX_SPAN {
            Some(Duration { seconds: n })
        } else {
            None
        }
    }

    /// A span of `n` seconds.
    pub fn seconds(n: i64) -> (r: Duration)
        requires
            -MAX_SPAN <= n <= MAX_SPAN,
        ensures
            r.secs() == n,
    {
        Duration { seconds: n }
    }

    /// A span of `n` minutes.
    pub fn minutes(n: i64) -> (r: Duration)
        requires
            -MAX_SPAN <= n * 60 <= MAX_SPAN,
        ensures
            r.secs() == n * 60,
    {
        Duration { seconds: n * 60 }
    }

    /// A span of `n` hours.
    pub fn hours(n: i64) -> (r: Duration)
        requires
            -MAX_SPAN <= n * 3600 <= MAX_SPAN,
        ensures
            r.secs() == n * 3600,
    {
        Duration { seconds: n * 3600 }
    }

    /// A span of `n` days.
    pub fn days(n: i64) -> (r: Duration)
        requires
            -MAX_SPAN <= n * 86400 <= MAX_SPAN,
        ensures
            r.secs() == n * 86400,
    {
        Duration { seconds: n * 86400 }
    }

    /// The span from instant `from` to instant `to`.
    pub fn between(from: i64, to: i64) -> (r: Duration)
        requires
            valid_instant(from as int),
            valid_instant(to as int),
        ensures
            r.secs() == to - from,
    {
        Duration { seconds: to - from }
    }

    /// The length in seconds.
    pub fn num_seconds(&self) -> (r: i64)
        ensures
            r == self.secs(),
    {
        self.seconds
    }

    /// The number of whole minutes, rounded toward zero.
    pub fn num_minutes(&self) -> (r: i64)
        ensures
            r == trunc_div(self.secs(), 60),
    {
        proof {
            use_type_invariant(self);
        }
        if self.seconds >= 0 {
            self.seconds / 60
        } else {
            -((-self.seconds) / 60)
        }
    }

    /// The number of whole hours, rounded toward zero.
    pub fn num_hours(&self) -> (r: i64)
        ensures
            r == trunc_div(self.secs(), 3600),
    {
        proof {
            use_type_invariant(self);
        }
        if self.seconds >= 0 {
            self.seconds / 3600
        } else {
            -((-self.seconds) / 3600)
        }
    }

    /// The number of whole days, rounded toward zero.
    pub fn num_days(&self) -> (r: i64)
        ensures
            r == trunc_div(self.secs(), 86400),
    {
        proof {
            use_type_invariant(self);
        }
        if self.seconds >= 0 {
            self.seconds / 86400
        } else {
            -((-self.seconds) / 86400)
        }
    }

    /// Whether this span is shorter than `other`.
    pub fn shorter_than(&self, other: &Duration) -> (r: bool)
        ensures
            r == (self.secs() < other.secs()),
    {
        self.seconds < other.seconds
    }
}

} // verus!
