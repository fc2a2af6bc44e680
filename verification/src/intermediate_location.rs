//! The stops and passed-through places between the ends of a leg.

use vstd::prelude::*;

use crate::duration::valid_opt_instant;
use crate::i18n::{gettext, translation_of};
use crate::place::Place;
use crate::remark::Remark;
use crate::text::{opt_view, replace_all, replaced};
use crate::utility::{local_time_shown, Utility};

verus! {

/// A place where the train stops to let passengers in and out.
#[derive(Debug, Clone)]
pub struct Stop {
    /// Where the stop is.
    pub place: Place,
    /// Real-time departure, in seconds since the Unix epoch.
    pub departure: Option<i64>,
    /// Scheduled departure.
    pub planned_departure: Option<i64>,
    /// Real-time arrival.
    pub arrival: Option<i64>,
    /// Scheduled arrival.
    pub planned_arrival: Option<i64>,
    /// Real-time arrival platform.
    pub arrival_platform: Option<String>,
    /// Scheduled arrival platform.
    pub planned_arrival_platform: Option<String>,
    /// Real-time departure platform.
    pub departure_platform: Option<String>,
    /// Scheduled departure platform.
    pub planned_departure_platform: Option<String>,
    /// Whether the stop is cancelled.
    pub cancelled: bool,
    /// Remarks on the stop.
    pub remarks: Vec<Remark>,
}

/// A place a leg passes between its origin and its destination.
#[derive(Debug, Clone)]
pub enum IntermediateLocation {
    /// A stop.
    Stop(Stop),
    /// A named railway track passed over.
    Railway(Place),
}

impl IntermediateLocation {
    /// Whether the times are representable and the place can be named.
    pub open spec fn wf(&self) -> bool {
        match self {
            IntermediateLocation::Stop(s) => {
                &&& s.place.named()
                &&& valid_opt_instant(s.departure)
                &&& valid_opt_instant(s.planned_departure)
                &&& valid_opt_instant(s.arrival)
                &&& valid_opt_instant(s.planned_arrival)
            },
            IntermediateLocation::Railway(p) => p.named(),
        }
    }

    /// The place of the location.
    pub open spec fn place_of(&self) -> &Place {
        match self {
            IntermediateLocation::Stop(s) => &s.place,
            IntermediateLocation::Railway(p) => p,
        }
    }

    /// The place of the location.
    pub fn place(&self) -> (r: &Place)
        ensures
            r == self.place_of(),
    {
        match self {
            IntermediateLocation::Stop(s) => &s.place,
            IntermediateLocation::Railway(p) => p,
        }
    }

    /// Whether the location is a stop rather than a passed track.
    pub fn is_stop(&self) -> (r: bool)
        ensures
            r == (self is Stop),
    {
        match self {
            IntermediateLocation::Stop(_) => true,
            IntermediateLocation::Railway(_) => false,
        }
    }

    /// The time shown for an instant of a stop: its time of day in the
    /// machine's time zone, as hours and minutes; none when unknown.
    fn time_shown(t: Option<i64>) -> (r: Option<String>)
        requires
            valid_opt_instant(t),
        ensures
            r is Some <==> t is Some,
            r matches Some(s) ==> local_time_shown(s@),
    {
        match t {
            Some(x) => Some(Utility::format_local_time(x)),
            None => None,
        }
    }

    /// The real-time departure time shown, as hours and minutes; a passed
    /// track has none.
    pub fn departure_time(&self) -> (r: Option<String>)
        requires
            self.wf(),
        ensures
            r is Some <==> (self matches IntermediateLocation::Stop(s) && s.departure is Some),
            r matches Some(t) ==> local_time_shown(t@),
    {
        match self {
            IntermediateLocation::Stop(s) => IntermediateLocation::time_shown(s.departure),
            IntermediateLocation::Railway(_) => None,
        }
    }

    /// The real-time arrival time shown, as hours and minutes; a passed track
    /// has none.
    pub fn arrival_time(&self) -> (r: Option<String>)
        requires
            self.wf(),
        ensures
            r is Some <==> (self matches IntermediateLocation::Stop(s) && s.arrival is Some),
            r matches Some(t) ==> local_time_shown(t@),
    {
        match self {
            IntermediateLocation::Stop(s) => IntermediateLocation::time_shown(s.arrival),
            IntermediateLocation::Railway(_) => None,
        }
    }

    /// The scheduled departure time shown, as hours and minutes; a passed
    /// track has none.
    pub fn planned_departure_time(&self) -> (r: Option<String>)
        requires
            self.wf(),
        ensures
            r is Some <==> (self matches IntermediateLocation::Stop(s) && s.planned_departure is Some),
            r matches Some(t) ==> local_time_shown(t@),
    {
        match self {
            IntermediateLocation::Stop(s) => IntermediateLocation::time_shown(s.planned_departure),
            IntermediateLocation::Railway(_) => None,
        }
    }

    /// The scheduled arrival time shown, as hours and minutes; a passed track
    /// has none.
    pub fn planned_arrival_time(&self) -> (r: Option<String>)
        requires
            self.wf(),
        ensures
            r is Some <==> (self matches IntermediateLocation::Stop(s) && s.planned_arrival is Some),
            r matches Some(t) ==> local_time_shown(t@),
    {
        match self {
            IntermediateLocation::Stop(s) => IntermediateLocation::time_shown(s.planned_arrival),
            IntermediateLocation::Railway(_) => None,
        }
    }

    /// The real-time arrival platform; a passed track has none.
    pub fn arrival_platform(&self) -> (r: Option<String>)
        ensures
            opt_view(r) == match self {
                IntermediateLocation::Stop(s) => opt_view(s.arrival_platform),
                IntermediateLocation::Railway(_) => None,
            },
    {
        match self {
            IntermediateLocation::Stop(s) => s.arrival_platform.clone(),
            IntermediateLocation::Railway(_) => None,
        }
    }

    /// The scheduled arrival platform; a passed track has none.
    pub fn planned_arrival_platform(&self) -> (r: Option<String>)
        ensures
            opt_view(r) == match self {
                IntermediateLocation::Stop(s) => opt_view(s.planned_arrival_platform),
                IntermediateLocation::Railway(_) => None,
            },
    {
        match self {
            IntermediateLocation::Stop(s) => s.planned_arrival_platform.clone(),
            IntermediateLocation::Railway(_) => None,
        }
    }

    /// The real-time departure platform; a passed track has none.
    pub fn departure_platform(&self) -> (r: Option<String>)
        ensures
            opt_view(r) == match self {
                IntermediateLocation::Stop(s) => opt_view(s.departure_platform),
                IntermediateLocation::Railway(_) => None,
            },
    {
        match self {
            IntermediateLocation::Stop(s) => s.departure_platform.clone(),
            IntermediateLocation::Railway(_) => None,
        }
    }

    /// The scheduled departure platform; a passed track has none.
    pub fn planned_departure_platform(&self) -> (r: Option<String>)
        ensures
            opt_view(r) == match self {
                IntermediateLocation::Stop(s) => opt_view(s.planned_departure_platform),
                IntermediateLocation::Railway(_) => None,
            },
    {
        match self {
            IntermediateLocation::Stop(s) => s.planned_departure_platform.clone(),
            IntermediateLocation::Railway(_) => None,
        }
    }
}

/// The description read out for an intermediate location, from the
/// translated templates with and without a platform.
pub open spec fn location_description(
    full: Seq<char>,
    no_platform: Seq<char>,
    stop: Seq<char>,
    arrival: Option<Seq<char>>,
    platform: Option<Seq<char>>,
) -> Seq<char> {
    match (arrival, platform) {
        (Some(a), Some(p)) => replaced(
            replaced(replaced(full, "{stop}"@, stop), "{arrival}"@, a),
            "{platform}"@,
            p,
        ),
        (Some(a), None) => replaced(replaced(no_platform, "{stop}"@, stop), "{arrival}"@, a),
        _ => stop,
    }
}

/// Fills the description of an intermediate location into the given
/// templates: the stop, its arrival time and platform when known.
pub fn fill_location_description(
    full: &str,
    no_platform: &str,
    stop: &str,
    arrival: &Option<String>,
    platform: &Option<String>,
) -> (r: String)
    ensures
        r@ == location_description(full@, no_platform@, stop@, opt_view(*arrival), opt_view(*platform)),
{
    proof {
        reveal_strlit("{stop}");
        reveal_strlit("{arrival}");
        reveal_strlit("{platform}");
    }
    match (arrival, platform) {
        (Some(a), Some(p)) => {
            let s1 = replace_all(full, "{stop}", stop);
            let s2 = replace_all(s1.as_str(), "{arrival}", a.as_str());
            replace_all(s2.as_str(), "{platform}", p.as_str())
        },
        (Some(a), None) => {
            let s1 = replace_all(no_platform, "{stop}", stop);
            replace_all(s1.as_str(), "{arrival}", a.as_str())
        },
        _ => String::from_str(stop),
    }
}

/// The description read out for an intermediate location: the stop, and its
/// arrival time and platform when known, in the user's language.
pub fn format_intermediate_location_description(
    stop: &str,
    arrival: &Option<String>,
    platform: &Option<String>,
) -> (r: String)
    ensures
        exists|full: Seq<char>, no_platform: Seq<char>|
            translation_of("{stop} at {arrival} on platform {platform}"@, full) && translation_of(
                "{stop} at {arrival}"@,
                no_platform,
            ) && r@ == location_description(
                full,
                no_platform,
                stop@,
                opt_view(*arrival),
                opt_view(*platform),
            ),
{
    let full = gettext("{stop} at {arrival} on platform {platform}");
    let no_platform = gettext("{stop} at {arrival}");
    let r = fill_location_description(full.as_str(), no_platform.as_str(), stop, arrival, platform);
    assert(r@ == location_description(
        full@,
        no_platform@,
        stop@,
        opt_view(*arrival),
        opt_view(*platform),
    ));
    r
}

} // verus!
