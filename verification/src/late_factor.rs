//! How late a leg or a journey is.

use std::cmp::Ordering;

use vstd::prelude::*;
use vstd::std_specs::convert::FromSpecImpl;
use vstd::std_specs::cmp::PartialOrdSpec;
use vstd::std_specs::cmp::PartialOrdSpecImpl;

use crate::duration::{trunc_div, Duration};

verus! {

/// How late something is, from on time to more than an hour late.
#[derive(Debug, Clone, Copy, PartialEq, Eq, Structural, Hash, Ord)]
pub enum LateFactor {
    /// At most zero minutes late.
    OnTime,
    /// One to four minutes late.
    LittleLate,
    /// Five to fourteen minutes late.
    Late,
    /// Fifteen to fifty-nine minutes late.
    VeryLate,
    /// An hour or more late.
    ExtremelyLate,
}

impl LateFactor {
    /// Position in the order from on time to extremely late.
    pub open spec fn rank(self) -> int {
        match self {
            LateFactor::OnTime => 0,
            LateFactor::LittleLate => 1,
            LateFactor::Late => 2,
            LateFactor::VeryLate => 3,
            LateFactor::ExtremelyLate => 4,
        }
    }

    /// The factor for a delay of `minutes` whole minutes.
    pub open spec fn of_minutes(minutes: int) -> LateFactor {
        if minutes <= 0 {
            LateFactor::OnTime
        } else if minutes < 5 {
            LateFactor::LittleLate
        } else if minutes < 15 {
            LateFactor::Late
        } else if minutes < 60 {
            LateFactor::VeryLate
        } else {
            LateFactor::ExtremelyLate
        }
    }

    /// The factor for a delay, counted in whole minutes rounded toward zero.
    pub open spec fn of_delay(delay: Duration) -> LateFactor {
        LateFactor::of_minutes(trunc_div(delay.secs(), 60))
    }

    /// The position of this factor in the order.
    pub fn level(&self) -> (r: u8)
        ensures
            r == self.rank(),
    {
        match self {
            LateFactor::OnTime => 0,
            LateFactor::LittleLate => 1,
            LateFactor::Late => 2,
            LateFactor::VeryLate => 3,
            LateFactor::ExtremelyLate => 4,
        }
    }

    /// The later of two factors.
    pub fn max_of(a: LateFactor, b: LateFactor) -> (r: LateFactor)
        ensures
            r.rank() == if a.rank() >= b.rank() { a.rank() } else { b.rank() },
            r == a || r == b,
    {
        if a.level() >= b.level() {
            a
        } else {
            b
        }
    }
}

impl Default for LateFactor {
    fn default() -> (r: Self)
        ensures
            r == LateFactor::OnTime,
    {
        LateFactor::OnTime
    }
}

impl From<Duration> for LateFactor {
    fn from(value: Duration) -> (r: Self) {
        let minutes = value.num_minutes();
        if minutes <= 0 {
            LateFactor::OnTime
        } else if minutes < 5 {
            LateFactor::LittleLate
        } else if minutes < 15 {
            LateFactor::Late
        } else if minutes < 60 {
            LateFactor::VeryLate
        } else {
            LateFactor::ExtremelyLate
        }
    }
}

impl FromSpecImpl<Duration> for LateFactor {
    open spec fn obeys_from_spec() -> bool {
        true
    }

    open spec fn from_spec(v: Duration) -> LateFactor {
        LateFactor::of_delay(v)
    }
}

impl PartialOrd for LateFactor {
    fn partial_cmp(&self, other: &Self) -> (r: Option<Ordering>) {
        let a = self.level();
        let b = other.level();
        if a < b {
            Some(Ordering::Less)
        } else if a == b {
            Some(Ordering::Equal)
        } else {
            Some(Ordering::Greater)
        }
    }
}

impl PartialOrdSpecImpl for LateFactor {
    open spec fn obeys_partial_cmp_spec() -> bool {
        true
    }

    open spec fn partial_cmp_spec(&self, other: &Self) -> Option<Ordering> {
        if self.rank() < other.rank() {
            Some(Ordering::Less)
        } else if self.rank() == other.rank() {
            Some(Ordering::Equal)
        } else {
            Some(Ordering::Greater)
        }
    }
}

/// The order of late factors is total: any two are comparable, and they
/// compare equal exactly when they are the same factor.
pub proof fn lemma_late_order_total(a: LateFactor, b: LateFactor)
    ensures
        PartialOrdSpec::partial_cmp_spec(&a, &b) is Some,
        (PartialOrdSpec::partial_cmp_spec(&a, &b) == Some(Ordering::Equal)) <==> (a == b),
        (PartialOrdSpec::partial_cmp_spec(&a, &b) == Some(Ordering::Less)) <==> (PartialOrdSpec::partial_cmp_spec(&b, &a) == Some(
            Ordering::Greater,
        )),
{
}

/// The order of late factors is transitive.
pub proof fn lemma_late_order_transitive(a: LateFactor, b: LateFactor, c: LateFactor)
    requires
        PartialOrdSpec::partial_cmp_spec(&a, &b) == Some(Ordering::Less),
        PartialOrdSpec::partial_cmp_spec(&b, &c) == Some(Ordering::Less),
    ensures
        PartialOrdSpec::partial_cmp_spec(&a, &c) == Some(Ordering::Less),
{
}

/// A longer delay never gives a smaller late factor.
pub proof fn lemma_late_factor_monotone(d1: Duration, d2: Duration)
    requires
        d1.secs() <= d2.secs(),
    ensures
        LateFactor::of_delay(d1).rank() <= LateFactor::of_delay(d2).rank(),
{
    let a = d1.secs();
    let b = d2.secs();
    if a >= 0 {
        assert(a / 60 <= b / 60) by (nonlinear_arith)
            requires
                0 <= a <= b,
        ;
    } else if b >= 0 {
        assert(-((-a) / 60) <= 0) by (nonlinear_arith)
            requires
                a < 0,
        ;
    } else {
        assert((-b) / 60 <= (-a) / 60) by (nonlinear_arith)
            requires
                0 < -b <= -a,
        ;
    }
}

} // verus!
