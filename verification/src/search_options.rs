//! The search settings: the summary shown on the options button, the
//! request a search makes from them, and the state of the search button.

use vstd::prelude::*;

use crate::duration::Duration;
use crate::i18n::{gettext, translation_of};
use crate::journeys_result::TimeType;
use crate::text::{join, joined, views};

verus! {

/// The settings a search is made with.
#[derive(Clone, Copy)]
pub struct SearchSettings {
    /// Whether to travel first class.
    pub first_class: bool,
    /// The discount card, by its number; zero for none.
    pub bahncard: u32,
    /// Whether national express trains are included.
    pub include_national_express: bool,
    /// Whether national trains are included.
    pub include_national: bool,
    /// Whether regional express trains are included.
    pub include_regional_express: bool,
    /// Whether regional trains are included.
    pub include_regional: bool,
    /// Whether suburban trains are included.
    pub include_suburban: bool,
    /// Whether buses are included.
    pub include_bus: bool,
    /// Whether ferries are included.
    pub include_ferry: bool,
    /// Whether underground trains are included.
    pub include_subway: bool,
    /// Whether trams are included.
    pub include_tram: bool,
    /// Whether taxis are included.
    pub include_taxi: bool,
    /// Whether bikes must be allowed.
    pub bike_accessible: bool,
    /// Whether only connections without changes are searched.
    pub direct_only: bool,
    /// The least time for a change, in minutes.
    pub transfer_time: i32,
}

/// The message id of the name of a discount card, by its number.
pub open spec fn bahncard_msgid_spec(n: u32) -> Seq<char> {
    if n == 0 {
        "None"@
    } else if n == 1 {
        "BahnCard 25, 1st class"@
    } else if n == 2 {
        "BahnCard 25, 2nd class"@
    } else if n == 3 {
        "BahnCard 50, 1st class"@
    } else if n == 4 {
        "BahnCard 50, 2nd class"@
    } else if n == 9 {
        "A - VORTEILScard (with RAILPLUS)"@
    } else if n == 10 {
        "CH - HalbtaxAbo (with RAILPLUS)"@
    } else if n == 11 {
        "CH - HalbtaxAbo (without RAILPLUS)"@
    } else if n == 12 {
        "NL - Voordeelurenabo (with RAILPLUS)"@
    } else if n == 13 {
        "NL - Voordeelurenabo (without RAILPLUS)"@
    } else if n == 14 {
        "SH-Card"@
    } else if n == 15 {
        "CH - General-Abonnement"@
    } else {
        "Unknown"@
    }
}

/// The message id of the name of a discount card, by its number; "Unknown"
/// for a number without a card.
pub fn bahncard_msgid(n: u32) -> (r: &'static str)
    ensures
        r@ == bahncard_msgid_spec(n),
{
    if n == 0 {
        "None"
    } else if n == 1 {
        "BahnCard 25, 1st class"
    } else if n == 2 {
        "BahnCard 25, 2nd class"
    } else if n == 3 {
        "BahnCard 50, 1st class"
    } else if n == 4 {
        "BahnCard 50, 2nd class"
    } else if n == 9 {
        "A - VORTEILScard (with RAILPLUS)"
    } else if n == 10 {
        "CH - HalbtaxAbo (with RAILPLUS)"
    } else if n == 11 {
        "CH - HalbtaxAbo (without RAILPLUS)"
    } else if n == 12 {
        "NL - Voordeelurenabo (with RAILPLUS)"
    } else if n == 13 {
        "NL - Voordeelurenabo (without RAILPLUS)"
    } else if n == 14 {
        "SH-Card"
    } else if n == 15 {
        "CH - General-Abonnement"
    } else {
        "Unknown"
    }
}

/// Whether every local kind of transport is included.
pub open spec fn all_regional(s: SearchSettings) -> bool {
    s.include_regional_express && s.include_regional && s.include_suburban && s.include_bus
        && s.include_ferry && s.include_subway && s.include_tram && s.include_taxi
}

/// The message ids of the parts of the summary of the settings, in order:
/// the class; the discount card, if any; the kinds of transport unless all
/// are included ("Regional only" when all local and no long-distance ones
/// are, "Custom selection" otherwise); bikes; direct connections.
pub open spec fn summary_parts(s: SearchSettings) -> Seq<Seq<char>> {
    seq![if s.first_class {
        "1st class"@
    } else {
        "2nd class"@
    }] + (if s.bahncard == 0 {
        Seq::empty()
    } else {
        seq![bahncard_msgid_spec(s.bahncard)]
    }) + (if all_regional(s) && s.include_national_express && s.include_national {
        Seq::empty()
    } else if all_regional(s) && !s.include_national_express && !s.include_national {
        seq!["Regional only"@]
    } else {
        seq!["Custom selection"@]
    }) + (if s.bike_accessible {
        seq!["Bike accessible"@]
    } else {
        Seq::empty()
    }) + (if s.direct_only {
        seq!["Direct connection"@]
    } else {
        Seq::empty()
    })
}

/// The message ids of the parts of the summary of the settings.
pub fn summary_msgids(s: &SearchSettings) -> (r: Vec<&'static str>)
    ensures
        r@.map_values(|m: &'static str| m@) == summary_parts(*s),
{
    let mut r: Vec<&'static str> = Vec::new();
    r.push(if s.first_class {
        "1st class"
    } else {
        "2nd class"
    });
    if s.bahncard != 0 {
        r.push(bahncard_msgid(s.bahncard));
    }
    let regional = s.include_regional_express && s.include_regional && s.include_suburban
        && s.include_bus && s.include_ferry && s.include_subway && s.include_tram && s.include_taxi;
    if regional && s.include_national_express && s.include_national {
    } else if regional && !s.include_national_express && !s.include_national {
        r.push("Regional only");
    } else {
        r.push("Custom selection");
    }
    if s.bike_accessible {
        r.push("Bike accessible");
    }
    if s.direct_only {
        r.push("Direct connection");
    }
    assert(r@.map_values(|m: &'static str| m@) =~= summary_parts(*s));
    r
}

/// The separator of the parts of the summary: a non-breaking space, a
/// centred dot and a space.
pub open spec fn summary_separator() -> Seq<char> {
    seq!['\u{00A0}', '\u{00B7}', ' ']
}

/// The summary of the settings shown on the options button: the translated
/// parts, separated.  The translations depend on the locale; whatever they
/// are, there is one for each part.
pub fn summary(s: &SearchSettings) -> (r: String)
    ensures
        exists|ts: Seq<Seq<char>>|
            #![trigger joined(ts, summary_separator())]
            ts.len() == summary_parts(*s).len() && (forall|k: int|
                0 <= k < ts.len() ==> translation_of(summary_parts(*s)[k], #[trigger] ts[k])) && r@
                == joined(ts, summary_separator()),
{
    let ids = summary_msgids(s);
    let mut parts: Vec<String> = Vec::new();
    let n = ids.len();
    let mut i: usize = 0;
    while i < n
        invariant
            n == ids@.len(),
            i <= n,
            parts@.len() == i,
            ids@.map_values(|m: &'static str| m@) == summary_parts(*s),
            forall|k: int| 0 <= k < i ==> translation_of(summary_parts(*s)[k], #[trigger] parts@[k]@),
        decreases n - i,
    {
        assert(ids@.map_values(|m: &'static str| m@)[i as int] == ids@[i as int]@);
        parts.push(gettext(ids[i]));
        i += 1;
    }
    let sep = "\u{00A0}\u{00B7} ";
    proof {
        reveal_strlit("\u{00A0}\u{00B7} ");
        assert(sep@ =~= summary_separator());
    }
    let r = join(&parts, sep);
    assert(views(parts@).len() == summary_parts(*s).len());
    assert forall|k: int| 0 <= k < views(parts@).len() implies translation_of(
        summary_parts(*s)[k],
        #[trigger] views(parts@)[k],
    ) by {
        assert(views(parts@)[k] == parts@[k]@);
    }
    r
}

/// The request a search makes.
pub struct SearchRequest {
    /// The time to depart at, when searching by departure.
    pub departure: Option<i64>,
    /// The time to arrive by, when searching by arrival.
    pub arrival: Option<i64>,
    /// Whether stops on the way are asked for.
    pub stopovers: bool,
    /// The number of the discount card.
    pub loyalty_card: u8,
    /// Whether bikes must be allowed.
    pub bike_friendly: bool,
    /// The largest number of changes, if limited.
    pub max_transfers: Option<u32>,
    /// The least time for a change.
    pub transfer_time: Duration,
    /// Whether to travel first class.
    pub first_class: bool,
}

/// The request a search at `time` makes with the settings `s`: the time is
/// the departure or the arrival as `time_type` says, stops on the way are
/// asked for, direct connections limit changes to none.
pub fn search_request(s: &SearchSettings, time: i64, time_type: TimeType) -> (r: SearchRequest)
    requires
        s.bahncard <= 255,
    ensures
        r.departure == (if time_type == TimeType::Departure {
            Some(time)
        } else {
            None
        }),
        r.arrival == (if time_type == TimeType::Arrival {
            Some(time)
        } else {
            None
        }),
        r.stopovers,
        r.loyalty_card == s.bahncard,
        r.bike_friendly == s.bike_accessible,
        r.max_transfers == (if s.direct_only {
            Some(0u32)
        } else {
            None
        }),
        r.transfer_time.secs() == s.transfer_time * 60,
        r.first_class == s.first_class,
{
    let departure = match time_type {
        TimeType::Departure => Some(time),
        TimeType::Arrival => None,
    };
    let arrival = match time_type {
        TimeType::Arrival => Some(time),
        TimeType::Departure => None,
    };
    SearchRequest {
        departure,
        arrival,
        stopovers: true,
        loyalty_card: s.bahncard as u8,
        bike_friendly: s.bike_accessible,
        max_transfers: if s.direct_only {
            Some(0)
        } else {
            None
        },
        transfer_time: Duration::minutes(s.transfer_time as i64),
        first_class: s.first_class,
    }
}

/// The message id of the tooltip of the search button: what is missing, or
/// that a search is going on; none when a search can be started.
pub open spec fn search_tooltip_spec(from_set: bool, to_set: bool, searching: bool) -> Option<Seq<char>> {
    if !from_set && !to_set {
        Some("Start and destination are missing"@)
    } else if !from_set {
        Some("Start is missing"@)
    } else if !to_set {
        Some("Destination is missing"@)
    } else if searching {
        Some("Search ongoing"@)
    } else {
        None
    }
}

/// The message id of the tooltip of the search button.
pub fn search_tooltip(from_set: bool, to_set: bool, searching: bool) -> (r: Option<&'static str>)
    ensures
        match r {
            Some(m) => search_tooltip_spec(from_set, to_set, searching) == Some(m@),
            None => search_tooltip_spec(from_set, to_set, searching) is None,
        },
{
    if !from_set && !to_set {
        Some("Start and destination are missing")
    } else if !from_set {
        Some("Start is missing")
    } else if !to_set {
        Some("Destination is missing")
    } else if searching {
        Some("Search ongoing")
    } else {
        None
    }
}

/// What the search button shows: a spinner while searching, else its label.
pub fn search_button_child(searching: bool) -> (r: &'static str)
    ensures
        r@ == if searching {
            "spinner"@
        } else {
            "label"@
        },
{
    if searching {
        "spinner"
    } else {
        "label"
    }
}

} // verus!
