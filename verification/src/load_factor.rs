//! How crowded a leg or a journey is.

use std::cmp::Ordering;

use vstd::prelude::*;
use vstd::std_specs::convert::FromSpecImpl;
use vstd::std_specs::cmp::PartialOrdSpec;
use vstd::std_specs::cmp::PartialOrdSpecImpl;

verus! {

/// The load a transit provider reports for a leg.
#[derive(Debug, Clone, Copy, PartialEq, Eq, Structural, Hash)]
pub enum ReportedLoad {
    /// Not full.
    LowToMedium,
    /// Full.
    High,
    /// Very full.
    VeryHigh,
    /// Extremely full.
    ExceptionallyHigh,
}

/// How crowded something is, from unknown to exceptionally high.
#[derive(Debug, Clone, Copy, PartialEq, Eq, Structural, Hash, Ord)]
pub enum LoadFactor {
    /// No load was reported.
    Unknown,
    /// Not full.
    LowToMedium,
    /// Full.
    High,
    /// Very full.
    VeryHigh,
    /// Extremely full.
    ExceptionallyHigh,
}

impl LoadFactor {
    /// Position in the order from unknown to exceptionally high.
    pub open spec fn rank(self) -> int {
        match self {
            LoadFactor::Unknown => 0,
            LoadFactor::LowToMedium => 1,
            LoadFactor::High => 2,
            LoadFactor::VeryHigh => 3,
            LoadFactor::ExceptionallyHigh => 4,
        }
    }

    /// The factor for a reported load, if any.
    pub open spec fn of_report(value: Option<ReportedLoad>) -> LoadFactor {
        match value {
            Some(ReportedLoad::LowToMedium) => LoadFactor::LowToMedium,
            Some(ReportedLoad::High) => LoadFactor::High,
            Some(ReportedLoad::VeryHigh) => LoadFactor::VeryHigh,
            Some(ReportedLoad::ExceptionallyHigh) => LoadFactor::ExceptionallyHigh,
            None => LoadFactor::Unknown,
        }
    }

    /// The position of this factor in the order.
    pub fn level(&self) -> (r: u8)
        ensures
            r == self.rank(),
    {
        match self {
            LoadFactor::Unknown => 0,
            LoadFactor::LowToMedium => 1,
            LoadFactor::High => 2,
            LoadFactor::VeryHigh => 3,
            LoadFactor::ExceptionallyHigh => 4,
        }
    }

    /// The higher of two factors.
    pub fn max_of(a: LoadFactor, b: LoadFactor) -> (r: LoadFactor)
        ensures
            r.rank() == if a.rank() >= b.rank() { a.rank() } else { b.rank() },
            r == a || r == b,
    {
        if a.level() >= b.level() {
            a
        } else {
            b
        }
    }
}

impl Default for LoadFactor {
    fn default() -> (r: Self)
        ensures
            r == LoadFactor::Unknown,
    {
        LoadFactor::Unknown
    }
}

impl From<Option<ReportedLoad>> for LoadFactor {
    fn from(value: Option<ReportedLoad>) -> (r: Self) {
        match value {
            Some(ReportedLoad::LowToMedium) => LoadFactor::LowToMedium,
            Some(ReportedLoad::High) => LoadFactor::High,
            Some(ReportedLoad::VeryHigh) => LoadFactor::VeryHigh,
            Some(ReportedLoad::ExceptionallyHigh) => LoadFactor::ExceptionallyHigh,
            None => LoadFactor::Unknown,
        }
    }
}

impl FromSpecImpl<Option<ReportedLoad>> for LoadFactor {
    open spec fn obeys_from_spec() -> bool {
        true
    }

    open spec fn from_spec(v: Option<ReportedLoad>) -> LoadFactor {
        LoadFactor::of_report(v)
    }
}

impl PartialOrd for LoadFactor {
    fn partial_cmp(&self, other: &Self) -> (r: Option<Ordering>) {
        let a = self.level();
        let b = other.level();
        if a < b {
            Some(Ordering::Less)
        } else if a == b {
            Some(Ordering::Equal)
        } else {
            Some(Ordering::Greater)
        }
    }
}

impl PartialOrdSpecImpl for LoadFactor {
    open spec fn obeys_partial_cmp_spec() -> bool {
        true
    }

    open spec fn partial_cmp_spec(&self, other: &Self) -> Option<Ordering> {
        if self.rank() < other.rank() {
            Some(Ordering::Less)
        } else if self.rank() == other.rank() {
            Some(Ordering::Equal)
        } else {
            Some(Ordering::Greater)
        }
    }
}

/// The order of load factors is total: any two are comparable, and they
/// compare equal exactly when they are the same factor.
pub proof fn lemma_load_order_total(a: LoadFactor, b: LoadFactor)
    ensures
        PartialOrdSpec::partial_cmp_spec(&a, &b) is Some,
        (PartialOrdSpec::partial_cmp_spec(&a, &b) == Some(Ordering::Equal)) <==> (a == b),
        (PartialOrdSpec::partial_cmp_spec(&a, &b) == Some(Ordering::Less)) <==> (PartialOrdSpec::partial_cmp_spec(&b, &a) == Some(
            Ordering::Greater,
        )),
{
}

/// The order of load factors is transitive.
pub proof fn lemma_load_order_transitive(a: LoadFactor, b: LoadFactor, c: LoadFactor)
    requires
        PartialOrdSpec::partial_cmp_spec(&a, &b) == Some(Ordering::Less),
        PartialOrdSpec::partial_cmp_spec(&b, &c) == Some(Ordering::Less),
    ensures
        PartialOrdSpec::partial_cmp_spec(&a, &c) == Some(Ordering::Less),
{
}

/// A reported load always ranks above an unknown one.
pub proof fn lemma_reported_above_unknown(l: ReportedLoad)
    ensures
        LoadFactor::of_report(Some(l)).rank() > LoadFactor::of_report(None).rank(),
{
}

} // verus!
