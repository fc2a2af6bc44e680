//! The texts read out or shown for journeys and legs: the description of a
//! trip, of a leg's route, of the direction of a train, of the number of
//! stops, and of a deletion time.  Each text is made from a translated
//! template; the functions that fill a given template say exactly what they
//! make of it, and the functions that look the template up say that their
//! result is such a filling.

use vstd::prelude::*;

use crate::i18n::{gettext, ngettext, plural_translation_of, translation_of};
use crate::text::{decimal, opt_view, replace_all, replaced, unsigned_decimal};
use crate::utility::{put_number, with_number};

verus! {

/// The description of a trip: when it departs and arrives, how long it
/// takes and how many changes it has (the count filled into its own
/// template first).
pub open spec fn trip_description(
    template: Seq<char>,
    changes_template: Seq<char>,
    departure: Seq<char>,
    arrival: Seq<char>,
    travel_time: Seq<char>,
    changes: u32,
) -> Seq<char> {
    let changes_text = replaced(changes_template, "{}"@, decimal(changes as int));
    replaced(
        replaced(
            replaced(replaced(template, "{departure}"@, departure), "{arrival}"@, arrival),
            "{travel_time}"@,
            travel_time,
        ),
        "{changes_text}"@,
        changes_text,
    )
}

/// Fills the description of a trip into the given templates.
pub fn fill_trip_description(
    template: &str,
    changes_template: &str,
    departure: &str,
    arrival: &str,
    travel_time: &str,
    changes: u32,
) -> (r: String)
    ensures
        r@ == trip_description(template@, changes_template@, departure@, arrival@, travel_time@, changes),
{
    proof {
        reveal_strlit("{}");
        reveal_strlit("{departure}");
        reveal_strlit("{arrival}");
        reveal_strlit("{travel_time}");
        reveal_strlit("{changes_text}");
    }
    let count = unsigned_decimal(changes as u64);
    let changes_text = replace_all(changes_template, "{}", count.as_str());
    let s1 = replace_all(template, "{departure}", departure);
    let s2 = replace_all(s1.as_str(), "{arrival}", arrival);
    let s3 = replace_all(s2.as_str(), "{travel_time}", travel_time);
    replace_all(s3.as_str(), "{changes_text}", changes_text.as_str())
}

/// The description of a trip, in the user's language.
pub fn format_trip_description(departure: &str, arrival: &str, travel_time: &str, changes: u32) -> (r: String)
    ensures
        exists|t: Seq<char>, c: Seq<char>|
            translation_of("From {departure} to {arrival} in {travel_time} with {changes_text}"@, t)
                && plural_translation_of("{} change"@, "{} changes"@, changes, c) && r@
                == trip_description(t, c, departure@, arrival@, travel_time@, changes),
{
    let changes_template = ngettext("{} change", "{} changes", changes);
    let template = gettext("From {departure} to {arrival} in {travel_time} with {changes_text}");
    let r = fill_trip_description(
        template.as_str(),
        changes_template.as_str(),
        departure,
        arrival,
        travel_time,
        changes,
    );
    assert(r@ == trip_description(
        template@,
        changes_template@,
        departure@,
        arrival@,
        travel_time@,
        changes,
    ));
    r
}

/// The train and the direction it is going in.
pub open spec fn train_direction(template: Seq<char>, train: Seq<char>, destination: Seq<char>) -> Seq<char> {
    replaced(replaced(template, "{train}"@, train), "{destination}"@, destination)
}

/// Fills the train and its direction into a template.
pub fn fill_train_direction(template: &str, train: &str, destination: &str) -> (r: String)
    ensures
        r@ == train_direction(template@, train@, destination@),
{
    proof {
        reveal_strlit("{train}");
        reveal_strlit("{destination}");
    }
    let s = replace_all(template, "{train}", train);
    replace_all(s.as_str(), "{destination}", destination)
}

/// The train and the direction it is going in, in the user's language.
pub fn format_train_direction(train: &str, destination: &str) -> (r: String)
    ensures
        exists|t: Seq<char>|
            translation_of("{train} in the direction of {destination}"@, t) && r@ == train_direction(
                t,
                train@,
                destination@,
            ),
{
    let t = gettext("{train} in the direction of {destination}");
    let r = fill_train_direction(t.as_str(), train, destination);
    assert(r@ == train_direction(t@, train@, destination@));
    r
}

/// One half of the description of a leg's route: the place, the time and,
/// for a template that has one, the platform (empty when unknown).
pub open spec fn route_part(
    template: Seq<char>,
    place_key: Seq<char>,
    place: Seq<char>,
    time_key: Seq<char>,
    time: Seq<char>,
    platform: Option<Seq<char>>,
) -> Seq<char> {
    replaced(
        replaced(replaced(template, place_key, place), time_key, time),
        "{platform}"@,
        match platform {
            Some(p) => p,
            None => Seq::empty(),
        },
    )
}

/// The description of a leg's route: the departure, from the template with
/// a platform when one is known and else from the one without, then a
/// space, then the arrival, likewise.
pub open spec fn trip_segment_description(
    dep_platform_template: Seq<char>,
    dep_template: Seq<char>,
    arr_platform_template: Seq<char>,
    arr_template: Seq<char>,
    start: Seq<char>,
    departure: Seq<char>,
    platform_start: Option<Seq<char>>,
    destination: Seq<char>,
    arrival: Seq<char>,
    platform_destination: Option<Seq<char>>,
) -> Seq<char> {
    let dep = if platform_start is Some {
        dep_platform_template
    } else {
        dep_template
    };
    let arr = if platform_destination is Some {
        arr_platform_template
    } else {
        arr_template
    };
    route_part(dep, "{start}"@, start, "{departure}"@, departure, platform_start) + seq![' '] + route_part(
        arr,
        "{destination}"@,
        destination,
        "{arrival}"@,
        arrival,
        platform_destination,
    )
}

/// Fills one half of a route description.
fn fill_route_part(
    template: &str,
    place_key: &str,
    place: &str,
    time_key: &str,
    time: &str,
    platform: &Option<String>,
) -> (r: String)
    requires
        place_key@.len() > 0,
        time_key@.len() > 0,
    ensures
        r@ == route_part(template@, place_key@, place@, time_key@, time@, opt_view(*platform)),
{
    proof {
        reveal_strlit("{platform}");
    }
    let s1 = replace_all(template, place_key, place);
    let s2 = replace_all(s1.as_str(), time_key, time);
    match platform {
        Some(p) => replace_all(s2.as_str(), "{platform}", p.as_str()),
        None => {
            let r = replace_all(s2.as_str(), "{platform}", "");
            proof {
                reveal_strlit("");
                assert(""@ =~= Seq::<char>::empty());
            }
            r
        },
    }
}

/// Fills the description of a leg's route into the given templates.
pub fn fill_trip_segment_description(
    dep_platform_template: &str,
    dep_template: &str,
    arr_platform_template: &str,
    arr_template: &str,
    start: &str,
    departure: &str,
    platform_start: &Option<String>,
    destination: &str,
    arrival: &str,
    platform_destination: &Option<String>,
) -> (r: String)
    ensures
        r@ == trip_segment_description(
            dep_platform_template@,
            dep_template@,
            arr_platform_template@,
            arr_template@,
            start@,
            departure@,
            opt_view(*platform_start),
            destination@,
            arrival@,
            opt_view(*platform_destination),
        ),
{
    proof {
        reveal_strlit("{start}");
        reveal_strlit("{departure}");
        reveal_strlit("{destination}");
        reveal_strlit("{arrival}");
        reveal_strlit(" ");
    }
    let dep = match platform_start {
        Some(_) => dep_platform_template,
        None => dep_template,
    };
    let arr = match platform_destination {
        Some(_) => arr_platform_template,
        None => arr_template,
    };
    let mut r = fill_route_part(dep, "{start}", start, "{departure}", departure, platform_start);
    r.append(" ");
    let second = fill_route_part(arr, "{destination}", destination, "{arrival}", arrival, platform_destination);
    r.append(second.as_str());
    r
}

/// The description of a leg's route, in the user's language.
pub fn format_trip_segment_description(
    start: &str,
    departure: &str,
    platform_start: &Option<String>,
    destination: &str,
    arrival: &str,
    platform_destination: &Option<String>,
) -> (r: String)
    ensures
        exists|a: Seq<char>, b: Seq<char>, c: Seq<char>, d: Seq<char>|
            translation_of("Depart {start} from platform {platform} at {departure}."@, a)
                && translation_of("Depart {start} at {departure}."@, b) && translation_of(
                "Arrive at {destination} on platform {platform} at {arrival}."@,
                c,
            ) && translation_of("Arrive at {destination} at {arrival}."@, d) && r@ == trip_segment_description(
                a,
                b,
                c,
                d,
                start@,
                departure@,
                opt_view(*platform_start),
                destination@,
                arrival@,
                opt_view(*platform_destination),
            ),
{
    let a = gettext("Depart {start} from platform {platform} at {departure}.");
    let b = gettext("Depart {start} at {departure}.");
    let c = gettext("Arrive at {destination} on platform {platform} at {arrival}.");
    let d = gettext("Arrive at {destination} at {arrival}.");
    let r = fill_trip_segment_description(
        a.as_str(),
        b.as_str(),
        c.as_str(),
        d.as_str(),
        start,
        departure,
        platform_start,
        destination,
        arrival,
        platform_destination,
    );
    assert(r@ == trip_segment_description(
        a@,
        b@,
        c@,
        d@,
        start@,
        departure@,
        opt_view(*platform_start),
        destination@,
        arrival@,
        opt_view(*platform_destination),
    ));
    r
}

/// The number of stops of a leg, in the user's language.
pub fn format_stop_count(stops: u32) -> (r: String)
    ensures
        exists|t: Seq<char>|
            plural_translation_of("{} Stop"@, "{} Stops"@, stops, t) && r@ == with_number(t, stops as int),
{
    let t = ngettext("{} Stop", "{} Stops", stops);
    put_number(t.as_str(), stops as i64)
}

/// The deletion time in hours as shown in the preferences, in the user's
/// language.
pub fn format_deletion_time(hours: u32) -> (r: String)
    ensures
        exists|t: Seq<char>|
            plural_translation_of("{}\u{202F}h"@, "{}\u{202F}h"@, hours, t) && r@ == with_number(
                t,
                hours as int,
            ),
{
    let t = ngettext("{}\u{202F}h", "{}\u{202F}h", hours);
    put_number(t.as_str(), hours as i64)
}

} // verus!
