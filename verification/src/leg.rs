//! A leg of a journey: one ride, or one walk, from an origin to a destination.

use vstd::prelude::*;

use crate::duration::{trunc_div, valid_opt_instant, Duration};
use crate::i18n::{gettext, translation_of};
use crate::intermediate_location::IntermediateLocation;
use crate::late_factor::LateFactor;
use crate::load_factor::{LoadFactor, ReportedLoad};
use crate::place::Place;
use crate::remark::Remark;
use crate::text::{opt_view, same_text};
use crate::utility::{local_time_shown, Utility};

verus! {

/// The line serving a leg.
#[derive(Debug, Clone)]
pub struct Line {
    /// The name of the line, such as "ICE 123".
    pub name: Option<String>,
    /// The name of the product as the provider gives it.
    pub product_name: Option<String>,
    /// The name of the kind of product, used when no product name is given.
    pub product: String,
}

/// How often the same line runs.
#[derive(Debug, Clone)]
pub struct Frequency {
    /// The shortest time between two runs.
    pub minimum: Option<Duration>,
    /// The longest time between two runs.
    pub maximum: Option<Duration>,
    /// How often the run repeats.
    pub iterations: Option<u64>,
}

/// A leg of a journey.  Instants are seconds since the Unix epoch.
#[derive(Debug, Clone)]
pub struct Leg {
    /// An id of the leg built from what does not change when it is refreshed.
    pub id: String,
    /// Where the leg starts.
    pub origin: Place,
    /// Where the leg ends.
    pub destination: Place,
    /// Real-time departure.
    pub departure: Option<i64>,
    /// Scheduled departure.
    pub planned_departure: Option<i64>,
    /// Real-time arrival.
    pub arrival: Option<i64>,
    /// Scheduled arrival.
    pub planned_arrival: Option<i64>,
    /// Day of the year of the real-time departure, in the departure's time zone.
    pub departure_day: Option<u32>,
    /// Whether the leg can still be reached from the previous one.
    pub reachable: bool,
    /// The line, if the leg is not a walk.
    pub line: Option<Line>,
    /// Where the line is heading.
    pub direction: Option<String>,
    /// Real-time arrival platform.
    pub arrival_platform: Option<String>,
    /// Scheduled arrival platform.
    pub planned_arrival_platform: Option<String>,
    /// Real-time departure platform.
    pub departure_platform: Option<String>,
    /// Scheduled departure platform.
    pub planned_departure_platform: Option<String>,
    /// How often the line runs.
    pub frequency: Option<Frequency>,
    /// Whether the leg is cancelled.
    pub cancelled: bool,
    /// The stops and tracks passed, including origin and destination.
    pub intermediate_locations: Vec<IntermediateLocation>,
    /// The reported load.
    pub load_factor: Option<ReportedLoad>,
    /// Remarks on the leg.
    pub remarks: Vec<Remark>,
    /// Whether the leg is walked.
    pub walking: bool,
}

/// The late factor of a real-time instant against its schedule; on time when
/// either is unknown.
pub open spec fn delay_factor(actual: Option<i64>, planned: Option<i64>) -> LateFactor {
    match (actual, planned) {
        (Some(r), Some(p)) => LateFactor::of_minutes(trunc_div(r - p, 60)),
        _ => LateFactor::OnTime,
    }
}

/// The later of two late factors.
pub open spec fn later(a: LateFactor, b: LateFactor) -> LateFactor {
    if a.rank() >= b.rank() {
        a
    } else {
        b
    }
}

fn delay_factor_of(actual: Option<i64>, planned: Option<i64>) -> (r: LateFactor)
    requires
        valid_opt_instant(actual),
        valid_opt_instant(planned),
    ensures
        r == delay_factor(actual, planned),
{
    match (actual, planned) {
        (Some(r), Some(p)) => {
            let d = Duration::between(p, r);
            LateFactor::from(d)
        },
        _ => LateFactor::default(),
    }
}

impl Leg {
    /// Whether the instants are representable and the places can be named.
    pub open spec fn wf(&self) -> bool {
        &&& valid_opt_instant(self.departure)
        &&& valid_opt_instant(self.planned_departure)
        &&& valid_opt_instant(self.arrival)
        &&& valid_opt_instant(self.planned_arrival)
        &&& self.origin.named()
        &&& self.destination.named()
        &&& self.departure_day matches Some(d) ==> d <= 366
    }

    /// How late the leg is: the later of its arrival and departure delays.
    pub open spec fn late_factor_spec(&self) -> LateFactor {
        later(
            delay_factor(self.arrival, self.planned_arrival),
            delay_factor(self.departure, self.planned_departure),
        )
    }

    /// Whether a platform differs from its schedule.
    pub open spec fn change_platform_spec(&self) -> bool {
        opt_view(self.departure_platform) != opt_view(self.planned_departure_platform) || opt_view(
            self.arrival_platform,
        ) != opt_view(self.planned_arrival_platform)
    }

    /// The name of the line, if the leg has one with a name.
    pub open spec fn line_name(&self) -> Option<Seq<char>> {
        match self.line {
            Some(l) => opt_view(l.name),
            None => None,
        }
    }

    /// The product shown for the leg: the product name, or the name of the
    /// kind of product; nothing for a leg without a line.
    pub open spec fn product_label(&self) -> Option<Seq<char>> {
        match self.line {
            Some(l) => match l.product_name {
                Some(p) => Some(p@),
                None => Some(l.product@),
            },
            None => None,
        }
    }

    /// How late the leg is.
    pub fn late_factor(&self) -> (r: LateFactor)
        requires
            self.wf(),
        ensures
            r == self.late_factor_spec(),
    {
        let a = delay_factor_of(self.arrival, self.planned_arrival);
        let d = delay_factor_of(self.departure, self.planned_departure);
        LateFactor::max_of(a, d)
    }

    /// How crowded the leg is.
    pub fn load(&self) -> (r: LoadFactor)
        ensures
            r == LoadFactor::of_report(self.load_factor),
    {
        LoadFactor::from(self.load_factor)
    }

    /// Whether a platform differs from its schedule.
    pub fn change_platform(&self) -> (r: bool)
        ensures
            r == self.change_platform_spec(),
    {
        !same_text(&self.departure_platform, &self.planned_departure_platform) || !same_text(
            &self.arrival_platform,
            &self.planned_arrival_platform,
        )
    }

    /// Whether the leg can no longer be reached.
    pub fn is_unreachable(&self) -> (r: bool)
        ensures
            r == !self.reachable,
    {
        !self.reachable
    }

    /// Whether the leg is cancelled.
    pub fn is_cancelled(&self) -> (r: bool)
        ensures
            r == self.cancelled,
    {
        self.cancelled
    }

    /// The time shown for an instant of the leg: its time of day in the
    /// machine's time zone, as hours and minutes; none when unknown.
    fn time_shown(t: Option<i64>) -> (r: Option<String>)
        requires
            valid_opt_instant(t),
        ensures
            r is Some <==> t is Some,
            r matches Some(s) ==> local_time_shown(s@),
    {
        match t {
            Some(x) => Some(Utility::format_local_time(x)),
            None => None,
        }
    }

    /// The departure time shown, as hours and minutes.
    pub fn departure_time(&self) -> (r: Option<String>)
        requires
            self.wf(),
        ensures
            r is Some <==> self.departure is Some,
            r matches Some(s) ==> local_time_shown(s@),
    {
        Leg::time_shown(self.departure)
    }

    /// The arrival time shown, as hours and minutes.
    pub fn arrival_time(&self) -> (r: Option<String>)
        requires
            self.wf(),
        ensures
            r is Some <==> self.arrival is Some,
            r matches Some(s) ==> local_time_shown(s@),
    {
        Leg::time_shown(self.arrival)
    }

    /// The planned departure time shown, as hours and minutes.
    pub fn planned_departure_time(&self) -> (r: Option<String>)
        requires
            self.wf(),
        ensures
            r is Some <==> self.planned_departure is Some,
            r matches Some(s) ==> local_time_shown(s@),
    {
        Leg::time_shown(self.planned_departure)
    }

    /// The planned arrival time shown, as hours and minutes.
    pub fn planned_arrival_time(&self) -> (r: Option<String>)
        requires
            self.wf(),
        ensures
            r is Some <==> self.planned_arrival is Some,
            r matches Some(s) ==> local_time_shown(s@),
    {
        Leg::time_shown(self.planned_arrival)
    }

    /// The name of the leg: the line's name, or the translation of "Walk".
    pub fn name(&self) -> (r: String)
        ensures
            self.line_name() matches Some(n) ==> r@ == n,
            self.line_name() is None ==> translation_of("Walk"@, r@),
    {
        match &self.line {
            Some(l) => match &l.name {
                Some(n) => n.clone(),
                None => gettext("Walk"),
            },
            None => gettext("Walk"),
        }
    }

    /// Where the leg is heading: the direction of the line, or else the name
    /// of the destination.
    pub fn direction(&self) -> (r: String)
        requires
            self.wf(),
        ensures
            r@ == match self.direction {
                Some(d) => d@,
                None => self.destination.name_view(),
            },
    {
        match &self.direction {
            Some(d) => d.clone(),
            None => match self.destination.name() {
                Some(n) => n,
                None => String::new(),
            },
        }
    }

    /// The product shown for the leg.
    pub fn product(&self) -> (r: Option<String>)
        ensures
            opt_view(r) == self.product_label(),
    {
        match &self.line {
            Some(l) => match &l.product_name {
                Some(p) => Some(p.clone()),
                None => Some(l.product.clone()),
            },
            None => None,
        }
    }

    /// The departure, real-time if known, else scheduled.
    pub open spec fn departure_or_planned(&self) -> Option<i64> {
        match self.departure {
            Some(d) => Some(d),
            None => self.planned_departure,
        }
    }

    /// The arrival, real-time if known, else scheduled.
    pub open spec fn arrival_or_planned(&self) -> Option<i64> {
        match self.arrival {
            Some(a) => Some(a),
            None => self.planned_arrival,
        }
    }

    /// Number of stops between origin and destination, and number of all
    /// places between them (stops and passed tracks), as listed in a leg's
    /// details.  The list of places includes the origin and the destination.
    pub fn count_intermediate(&self) -> (r: (usize, usize))
        requires
            self.intermediate_locations@.len() >= 2,
            stop_count(self.intermediate_locations@) >= 2,
        ensures
            r.0 == stop_count(self.intermediate_locations@) - 2,
            r.1 == self.intermediate_locations@.len() - 2,
    {
        let n = self.intermediate_locations.len();
        let mut stops: usize = 0;
        let mut i: usize = 0;
        while i < n
            invariant
                n == self.intermediate_locations@.len(),
                i <= n,
                stops == stop_count(self.intermediate_locations@.subrange(0, i as int)),
                stops <= i,
            decreases n - i,
        {
            assert(self.intermediate_locations@.subrange(0, i + 1).drop_last()
                =~= self.intermediate_locations@.subrange(0, i as int));
            if self.intermediate_locations[i].is_stop() {
                stops = stops + 1;
            }
            i += 1;
        }
        assert(self.intermediate_locations@.subrange(0, n as int) =~= self.intermediate_locations@);
        (stops - 2, n - 2)
    }
}

/// The number of stops in a list of places.
pub open spec fn stop_count(s: Seq<IntermediateLocation>) -> nat
    decreases s.len(),
{
    if s.len() == 0 {
        0
    } else {
        stop_count(s.drop_last()) + if s.last() is Stop {
            1nat
        } else {
            0nat
        }
    }
}

} // verus!
