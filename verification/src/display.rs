//! Small decisions of the views: when a day divider is hidden, when two
//! times are shown as different, how often a line runs, and the texts of
//! the date and time picker and of the last refresh.

use vstd::prelude::*;

use crate::duration::{Duration, MAX_SPAN};
use crate::i18n::gettext;
use crate::leg::Frequency;
use crate::text::{digits, opt_view, replace_all, replaced, same_text, text_eq, unsigned_decimal};
use crate::i18n::translation_of;
use crate::utility::{chrono_date, date_or_empty, inline_text, Date, Utility};

verus! {

/// Whether the divider before a journey of a result list is hidden: it is
/// the first one, and either the list was extended or its day is the day
/// asked for.
pub fn divider_hidden(is_start: bool, is_initial: bool, label: &str, requested_day: &str) -> (r: bool)
    ensures
        r == (is_start && (!is_initial || label@ == requested_day@)),
{
    is_start && (!is_initial || text_eq(label, requested_day))
}

/// Whether a time and its alternative are shown as different: both are
/// known and they differ.
pub fn is_different(main: &Option<String>, alt: &Option<String>) -> (r: bool)
    ensures
        r == (main is Some && alt is Some && opt_view(*main) != opt_view(*alt)),
{
    main.is_some() && alt.is_some() && !same_text(main, alt)
}

/// The style classes of a time and its alternative: on time when they are
/// equal (both unknown counts as equal), late otherwise.
pub fn time_classes(main: &Option<String>, alt: &Option<String>) -> (r: (&'static str, &'static str))
    ensures
        opt_view(*main) == opt_view(*alt) ==> r.0@ == "main-label-on-time"@ && r.1@
            == "alt-label-on-time"@,
        opt_view(*main) != opt_view(*alt) ==> r.0@ == "main-label-late"@ && r.1@ == "alt-label-late"@,
{
    if same_text(main, alt) {
        ("main-label-on-time", "alt-label-on-time")
    } else {
        ("main-label-late", "alt-label-late")
    }
}

/// How often a line runs, in seconds: the mean of the shortest and longest
/// time between runs (rounded toward zero), or the one that is known.
pub open spec fn frequency_secs(min: Option<Duration>, max: Option<Duration>) -> Option<int> {
    match (min, max) {
        (Some(a), Some(b)) => Some(crate::duration::trunc_div(a.secs() + b.secs(), 2)),
        (Some(d), None) => Some(d.secs()),
        (None, Some(d)) => Some(d.secs()),
        (None, None) => None,
    }
}

/// How often a line runs.
pub fn frequency_duration(f: &Frequency) -> (r: Option<Duration>)
    ensures
        match r {
            Some(d) => frequency_secs(f.minimum, f.maximum) == Some(d.secs()),
            None => frequency_secs(f.minimum, f.maximum) is None,
        },
{
    match (f.minimum, f.maximum) {
        (Some(a), Some(b)) => {
            a.note_bounded();
            b.note_bounded();
            let sum = a.num_seconds() + b.num_seconds();
            let mean = sum / 2;
            Some(Duration::seconds(mean))
        },
        (Some(d), None) => Some(d),
        (None, Some(d)) => Some(d),
        (None, None) => None,
    }
}

/// The frequency label: the duration written inline into the template.
pub open spec fn frequency_text(template: Seq<char>, duration: Seq<char>) -> Seq<char> {
    replaced(template, "{}"@, duration)
}

/// The label telling how often a line runs, such as "every ~10 min", when
/// a time between runs is known.
pub fn frequency_label(f: &Option<Frequency>) -> (r: Option<String>)
    ensures
        r is Some <==> (f matches Some(q) && frequency_secs(q.minimum, q.maximum) is Some),
        r matches Some(s) ==> (f matches Some(q) && frequency_secs(q.minimum, q.maximum) matches Some(
            secs,
        ) && exists|t: Seq<char>, d: Seq<char>|
            translation_of("every ~{}"@, t) && s@ == frequency_text(t, d) && inline_text(d, secs)),
{
    match f {
        Some(q) => match frequency_duration(q) {
            Some(d) => {
                let text = Utility::format_duration_inline(d);
                let t = gettext("every ~{}");
                proof {
                    reveal_strlit("{}");
                }
                let r = replace_all(t.as_str(), "{}", text.as_str());
                assert(r@ == frequency_text(t@, text@));
                assert(inline_text(text@, d.secs()));
                Some(r)
            },
            None => None,
        },
        None => None,
    }
}

/// The label of the last refresh: the time filled into the template.
pub fn fill_last_refreshed(template: &str, time: &str) -> (r: String)
    ensures
        r@ == replaced(template@, "{}"@, time@),
{
    proof {
        reveal_strlit("{}");
    }
    replace_all(template, "{}", time)
}

/// A number of at most two digits, padded with a leading zero.
pub open spec fn two_digits(n: u32) -> Seq<char> {
    if n < 10 {
        seq!['0'] + digits(n as nat)
    } else {
        digits(n as nat)
    }
}

/// Writes a number with at least two digits.
pub fn pad_two(n: u32) -> (r: String)
    ensures
        r@ == two_digits(n),
{
    let d = unsigned_decimal(n as u64);
    if n < 10 {
        let mut r = String::from_str("0");
        proof {
            reveal_strlit("0");
        }
        r.append(d.as_str());
        r
    } else {
        d
    }
}

/// The time shown by the time picker: hours and minutes with two digits
/// each, separated by a colon.
pub fn picker_time_label(hour: u32, minute: u32) -> (r: String)
    ensures
        r@ == two_digits(hour) + seq![':'] + two_digits(minute),
{
    let mut r = pad_two(hour);
    r.append(":");
    proof {
        reveal_strlit(":");
    }
    let m = pad_two(minute);
    r.append(m.as_str());
    r
}

/// The date shown by the date picker: the translation of "Today" for the
/// current day, otherwise the day written with the translated pattern of a
/// weekday, month and day.
pub fn picker_date_label(today: Date, date: Date) -> (r: String)
    ensures
        today == date ==> translation_of("Today"@, r@),
        today != date ==> exists|f: Seq<char>|
            translation_of("%a %b %d"@, f) && r@ == date_or_empty(date.days_from_ce as int, f),
{
    if today.days_from_ce == date.days_from_ce {
        gettext("Today")
    } else {
        let f = gettext("%a %b %d");
        let r = match chrono_date(date.days_from_ce, f.as_str()) {
            Some(t) => t,
            None => String::new(),
        };
        assert(r@ == date_or_empty(date.days_from_ce as int, f@));
        r
    }
}

} // verus!
