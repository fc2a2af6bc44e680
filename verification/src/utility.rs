//! Formatting of durations, times and dates for the interface.

use std::fmt::Write;

use vstd::prelude::*;

use crate::calendar::{calendar_year, year_of};
use crate::display::two_digits;
use crate::duration::{trunc_div, valid_instant, Duration};
use crate::i18n::{gettext, ngettext, plural_translation_of, translation_of};
use crate::text::{decimal, opt_view, replace_all, replaced, signed_decimal};

verus! {

/// The text of the instant `secs` seconds after the midnight that starts
/// the day `year-month-day`, written by the calendar library with the
/// strftime-like pattern `fmt`; nothing when the day or the instant cannot be
/// represented or the pattern is not valid.
pub uninterp spec fn clock_text(year: int, month: int, day: int, secs: int, fmt: Seq<char>) -> Option<
    Seq<char>,
>;

/// The text of the time of day `hour:minute:second` written with the
/// pattern `fmt`; nothing when the time or the pattern is not valid.
pub uninterp spec fn time_text(hour: int, minute: int, second: int, fmt: Seq<char>) -> Option<
    Seq<char>,
>;

/// The text of the day numbered `days` (day one being January 1st of year
/// one) written with the pattern `fmt`; nothing when the day or the pattern
/// is not valid.
pub uninterp spec fn date_text(days: int, fmt: Seq<char>) -> Option<Seq<char>>;

/// Calls `chrono`: builds `NaiveDate::from_ymd_opt(year, month, day)` at
/// midnight, adds `secs` seconds with `checked_add_signed`, and writes the
/// result with `format(fmt)`.  The text is named `clock_text`; it is `None`
/// where chrono reports the date, the span or the sum out of range, or the
/// pattern as invalid.
#[verifier::external_body]
fn chrono_clock(year: i32, month: u32, day: u32, secs: i64, fmt: &str) -> (r: Option<String>)
    ensures
        opt_view(r) == clock_text(year as int, month as int, day as int, secs as int, fmt@),
{
    let start = chrono::NaiveDate::from_ymd_opt(year, month, day)?.and_hms_opt(0, 0, 0)?;
    let shifted = start.checked_add_signed(chrono::TimeDelta::try_seconds(secs)?)?;
    let mut out = String::new();
    write!(out, "{}", shifted.format(fmt)).ok()?;
    Some(out)
}

/// Calls `chrono::NaiveTime::from_hms_opt(hour, minute, second)` and writes
/// the time with `format(fmt)`.  The text is named `time_text`; it is `None`
/// where chrono rejects the time or the pattern.  For the pattern "%H:%M"
/// chrono's documentation gives the text: the hour and the minute, each
/// zero-padded to two digits, with a colon between them; `from_hms_opt`
/// accepts every hour below 24 and minute and second below 60.
#[verifier::external_body]
fn chrono_time(hour: u32, minute: u32, second: u32, fmt: &str) -> (r: Option<String>)
    ensures
        opt_view(r) == time_text(hour as int, minute as int, second as int, fmt@),
        fmt@ == "%H:%M"@ && hour < 24 && minute < 60 && second < 60 ==> opt_view(r) == Some(
            two_digits(hour) + seq![':'] + two_digits(minute),
        ),
{
    let time = chrono::NaiveTime::from_hms_opt(hour, minute, second)?;
    let mut out = String::new();
    write!(out, "{}", time.format(fmt)).ok()?;
    Some(out)
}

/// Calls `chrono::NaiveDate::from_num_days_from_ce_opt(days)` and writes the
/// date with `format(fmt)`.  The text is named `date_text`; it is `None`
/// where chrono rejects the day or the pattern.
#[verifier::external_body]
pub(crate) fn chrono_date(days: i32, fmt: &str) -> (r: Option<String>)
    ensures
        opt_view(r) == date_text(days as int, fmt@),
{
    let date = chrono::NaiveDate::from_num_days_from_ce_opt(days)?;
    let mut out = String::new();
    write!(out, "{}", date.format(fmt)).ok()?;
    Some(out)
}

/// Calls `chrono::DateTime::from_timestamp(instant, 0)` and takes the time
/// of day of the instant in the machine's time zone
/// (`with_timezone(&chrono::Local)`, then `hour()`, `minute()` and
/// `second()`).  Which time it is depends on the time zone the machine is set
/// to; what holds in every time zone is that it is a time of day.  For the
/// instants `requires` admits, `from_timestamp` gives an instant, so the
/// result is always there.  chrono panics on a time zone database that gives
/// an offset of a day or more or cannot be read, which no argument can rule
/// out.
#[verifier::external_body]
fn local_time(instant: i64) -> (r: Option<TimeOfDay>)
    requires
        valid_instant(instant as int),
    ensures
        r is Some,
        r matches Some(t) ==> t.hour < 24 && t.minute < 60 && t.second < 60,
{
    let t = chrono::DateTime::from_timestamp(instant, 0)?.with_timezone(&chrono::Local);
    Some(TimeOfDay {
        hour: chrono::Timelike::hour(&t),
        minute: chrono::Timelike::minute(&t),
        second: chrono::Timelike::second(&t),
    })
}

/// Whether `r` is a time of day written as hours and minutes of two digits
/// each, with a colon between ("%H:%M"), the time of day being one of the
/// machine's time zone.
pub open spec fn local_time_shown(r: Seq<char>) -> bool {
    exists|t: TimeOfDay|
        #![trigger two_digits(t.hour), two_digits(t.minute)]
        t.hour < 24 && t.minute < 60 && t.second < 60 && r == two_digits(t.hour) + seq![':'] + two_digits(
            t.minute,
        )
}

/// A day, numbered from January 1st of year one (day one).
#[derive(Debug, Clone, Copy, PartialEq, Eq, Structural)]
pub struct Date {
    /// The number of the day.
    pub days_from_ce: i32,
}

/// Bound on the day numbers handled, well inside what the calendar covers.
pub const MAX_DAY: i32 = 95_000_000;

/// A time of day.
#[derive(Debug, Clone, Copy, PartialEq, Eq, Structural)]
pub struct TimeOfDay {
    /// Hours, 0 to 23.
    pub hour: u32,
    /// Minutes, 0 to 59.
    pub minute: u32,
    /// Seconds, 0 to 59.
    pub second: u32,
}

/// How a duration is laid out.
#[derive(Debug, Clone, Copy, PartialEq, Eq, Structural)]
pub enum DurationLayout {
    /// In minutes only.
    Minutes(i64),
    /// In hours only.
    Hours(i64),
    /// In hours and minutes.
    HoursMinutes,
    /// In days, hours and minutes; the count picks the plural form.
    DaysHoursMinutes(u32),
}

/// The count used to choose a plural: the hours, or zero when they do not
/// fit an unsigned 32-bit number.
pub open spec fn plural_count(hours: int) -> u32 {
    if 0 <= hours <= u32::MAX {
        hours as u32
    } else {
        0
    }
}

/// The layout of a duration shown on its own: minutes under an hour, hours
/// and minutes under a day, days, hours and minutes beyond.
pub open spec fn tabular_layout(secs: int) -> DurationLayout {
    if trunc_div(secs, 3600) == 0 {
        DurationLayout::Minutes(trunc_div(secs, 60) as i64)
    } else if trunc_div(secs, 86400) == 0 {
        DurationLayout::HoursMinutes
    } else {
        DurationLayout::DaysHoursMinutes(plural_count(trunc_div(secs, 3600)))
    }
}

/// The layout of a duration within a sentence: minutes under two hours,
/// hours and minutes (or whole hours) under a day, days, hours and minutes
/// beyond.
pub open spec fn inline_layout(secs: int) -> DurationLayout {
    if trunc_div(secs, 3600) < 2 {
        DurationLayout::Minutes(trunc_div(secs, 60) as i64)
    } else if trunc_div(secs, 86400) == 0 {
        if trunc_div(secs, 60) == 0 {
            DurationLayout::Hours(trunc_div(secs, 3600) as i64)
        } else {
            DurationLayout::HoursMinutes
        }
    } else {
        DurationLayout::DaysHoursMinutes(plural_count(trunc_div(secs, 3600)))
    }
}

/// A number as `{}` replaced in a template.
pub open spec fn with_number(template: Seq<char>, n: int) -> Seq<char> {
    replaced(template, "{}"@, decimal(n))
}

/// What the calendar writes for a duration, or nothing.
pub open spec fn clock_or_empty(year: int, month: int, day: int, secs: int, fmt: Seq<char>) -> Seq<
    char,
> {
    match clock_text(year, month, day, secs, fmt) {
        Some(t) => t,
        None => Seq::empty(),
    }
}

/// What the calendar writes for a time of day, or nothing.
pub open spec fn time_or_empty(hour: int, minute: int, second: int, fmt: Seq<char>) -> Seq<char> {
    match time_text(hour, minute, second, fmt) {
        Some(t) => t,
        None => Seq::empty(),
    }
}

/// Whether `r` is the text of a duration shown on its own, for some
/// translation of its templates: the minutes or hours put in a template, or
/// the duration added to a reference midnight and written with a pattern.
/// Days start from December 31st, 2021, so that one day reads as one;
/// shorter durations start from January 1st, 2022.
pub open spec fn tabular_text(r: Seq<char>, secs: int) -> bool {
    match tabular_layout(secs) {
        DurationLayout::Minutes(m) => exists|t: Seq<char>|
            translation_of("{} min"@, t) && r == with_number(t, m as int),
        DurationLayout::Hours(h) => exists|t: Seq<char>|
            translation_of("{} hrs."@, t) && r == with_number(t, h as int),
        DurationLayout::HoursMinutes => exists|f: Seq<char>|
            translation_of("%_H h %_M min"@, f) && r == clock_or_empty(2022, 1, 1, secs, f),
        DurationLayout::DaysHoursMinutes(n) => exists|f: Seq<char>|
            plural_translation_of(" %_d day %_H h %_M min"@, "%_d days %_H h %_M min"@, n, f)
                && r == clock_or_empty(2021, 12, 31, secs, f),
    }
}

/// Whether `r` is the text of a duration within a sentence, for some
/// translation of its templates, laid out as for `tabular_text`.
pub open spec fn inline_text(r: Seq<char>, secs: int) -> bool {
    match inline_layout(secs) {
        DurationLayout::Minutes(m) => exists|t: Seq<char>|
            translation_of("{} min."@, t) && r == with_number(t, m as int),
        DurationLayout::Hours(h) => exists|t: Seq<char>|
            translation_of("{} hrs."@, t) && r == with_number(t, h as int),
        DurationLayout::HoursMinutes => exists|f: Seq<char>|
            translation_of("%-H hrs. %-M min."@, f) && r == clock_or_empty(2022, 1, 1, secs, f),
        DurationLayout::DaysHoursMinutes(n) => exists|f: Seq<char>|
            plural_translation_of("%-d day %-H hrs. %-M min."@, "%-d days %-H hrs. %-M min."@, n, f)
                && r == clock_or_empty(2021, 12, 31, secs, f),
    }
}

/// The text of a day written with a pattern, or nothing.
pub open spec fn date_or_empty(days: int, fmt: Seq<char>) -> Seq<char> {
    match date_text(days, fmt) {
        Some(t) => t,
        None => Seq::empty(),
    }
}

/// Whether `r` is the text of `date` for people on the day `today`, for
/// some translation of its texts and patterns: "Today", "Tomorrow" or
/// "Yesterday" translated, else the date written with the translated
/// pattern for a date of this year or of another year.
pub open spec fn date_human_text(today: Date, date: Date, r: Seq<char>) -> bool {
    match day_kind(
        today.days_from_ce as int,
        date.days_from_ce as int,
        calendar_year(today.days_from_ce as int),
        calendar_year(date.days_from_ce as int),
    ) {
        DayKind::Today => translation_of("Today"@, r),
        DayKind::Tomorrow => translation_of("Tomorrow"@, r),
        DayKind::Yesterday => translation_of("Yesterday"@, r),
        DayKind::ThisYear => exists|f: Seq<char>|
            translation_of("%a, %d. %B"@, f) && r == date_or_empty(date.days_from_ce as int, f),
        DayKind::OtherYear => exists|f: Seq<char>|
            translation_of("%Y-%m-%d"@, f) && r == date_or_empty(date.days_from_ce as int, f),
    }
}

/// How a day relates to today.
#[derive(Debug, Clone, Copy, PartialEq, Eq, Structural)]
pub enum DayKind {
    /// Today.
    Today,
    /// The day after today.
    Tomorrow,
    /// The day before today.
    Yesterday,
    /// Another day of this year.
    ThisYear,
    /// A day of another year.
    OtherYear,
}

/// How `date` relates to `today`, given the years of both.
pub open spec fn day_kind(today: int, date: int, today_year: Option<int>, date_year: Option<int>) -> DayKind {
    if today == date {
        DayKind::Today
    } else if today + 1 == date {
        DayKind::Tomorrow
    } else if today - 1 == date {
        DayKind::Yesterday
    } else if today_year == date_year {
        DayKind::ThisYear
    } else {
        DayKind::OtherYear
    }
}

/// Puts a number into a template in place of `{}`.
pub(crate) fn put_number(template: &str, n: i64) -> (r: String)
    ensures
        r@ == with_number(template@, n as int),
{
    proof {
        reveal_strlit("{}");
    }
    let digits = signed_decimal(n);
    replace_all(template, "{}", digits.as_str())
}

/// Writes a duration added to a reference midnight with a pattern.
fn clock(year: i32, month: u32, day: u32, secs: i64, fmt: &str) -> (r: String)
    ensures
        r@ == clock_or_empty(year as int, month as int, day as int, secs as int, fmt@),
{
    match chrono_clock(year, month, day, secs, fmt) {
        Some(t) => t,
        None => String::new(),
    }
}

/// The count used to choose a plural.
fn plural_of(hours: i64) -> (r: u32)
    ensures
        r == plural_count(hours as int),
{
    if 0 <= hours && hours <= 4294967295 {
        hours as u32
    } else {
        0
    }
}

/// Helpers shared by the interface.
pub struct Utility {}

impl Utility {
    /// Negation, as used by the interface templates.
    pub fn not(value: bool) -> (r: bool)
        ensures
            r == !value,
    {
        !value
    }

    /// Whether all values are true, as used by the interface templates.
    pub fn and(values: &Vec<bool>) -> (r: bool)
        ensures
            r == forall|i: int| 0 <= i < values@.len() ==> values@[i],
    {
        let n = values.len();
        let mut i: usize = 0;
        while i < n
            invariant
                n == values@.len(),
                i <= n,
                forall|j: int| 0 <= j < i ==> values@[j],
            decreases n - i,
        {
            if !values[i] {
                return false;
            }
            i += 1;
        }
        true
    }

    /// The layout of a duration shown on its own.
    pub fn tabular_layout(duration: Duration) -> (r: DurationLayout)
        ensures
            r == tabular_layout(duration.secs()),
    {
        if duration.num_hours() == 0 {
            DurationLayout::Minutes(duration.num_minutes())
        } else if duration.num_days() == 0 {
            DurationLayout::HoursMinutes
        } else {
            DurationLayout::DaysHoursMinutes(plural_of(duration.num_hours()))
        }
    }

    /// The layout of a duration within a sentence.
    pub fn inline_layout(duration: Duration) -> (r: DurationLayout)
        ensures
            r == inline_layout(duration.secs()),
    {
        if duration.num_hours() < 2 {
            DurationLayout::Minutes(duration.num_minutes())
        } else if duration.num_days() == 0 {
            if duration.num_minutes() == 0 {
                DurationLayout::Hours(duration.num_hours())
            } else {
                DurationLayout::HoursMinutes
            }
        } else {
            DurationLayout::DaysHoursMinutes(plural_of(duration.num_hours()))
        }
    }

    /// A duration shown on its own, such as "5 min" or "1 h 30 min".
    pub fn format_duration_tabular(duration: Duration) -> (r: String)
        ensures
            tabular_text(r@, duration.secs()),
    {
        match Utility::tabular_layout(duration) {
            DurationLayout::Minutes(m) => {
                let t = gettext("{} min");
                put_number(t.as_str(), m)
            },
            DurationLayout::Hours(h) => {
                let t = gettext("{} hrs.");
                put_number(t.as_str(), h)
            },
            DurationLayout::HoursMinutes => {
                let f = gettext("%_H h %_M min");
                clock(2022, 1, 1, duration.num_seconds(), f.as_str())
            },
            DurationLayout::DaysHoursMinutes(n) => {
                let f = ngettext(" %_d day %_H h %_M min", "%_d days %_H h %_M min", n);
                clock(2021, 12, 31, duration.num_seconds(), f.as_str())
            },
        }
    }

    /// A duration within a sentence, such as "5 min." or "3 hrs. 5 min.".
    pub fn format_duration_inline(duration: Duration) -> (r: String)
        ensures
            inline_text(r@, duration.secs()),
    {
        match Utility::inline_layout(duration) {
            DurationLayout::Minutes(m) => {
                let t = gettext("{} min.");
                put_number(t.as_str(), m)
            },
            DurationLayout::Hours(h) => {
                let t = gettext("{} hrs.");
                put_number(t.as_str(), h)
            },
            DurationLayout::HoursMinutes => {
                let f = gettext("%-H hrs. %-M min.");
                clock(2022, 1, 1, duration.num_seconds(), f.as_str())
            },
            DurationLayout::DaysHoursMinutes(n) => {
                let f = ngettext("%-d day %-H hrs. %-M min.", "%-d days %-H hrs. %-M min.", n);
                clock(2021, 12, 31, duration.num_seconds(), f.as_str())
            },
        }
    }

    /// A time of day for people, such as "14:05"; nothing when the time is
    /// invalid.
    pub fn format_time_human(time: &TimeOfDay) -> (r: String)
        ensures
            exists|f: Seq<char>|
                translation_of("%H:%M"@, f) && r@ == time_or_empty(
                    time.hour as int,
                    time.minute as int,
                    time.second as int,
                    f,
                ),
    {
        let f = gettext("%H:%M");
        let r = match chrono_time(time.hour, time.minute, time.second, f.as_str()) {
            Some(t) => t,
            None => String::new(),
        };
        assert(r@ == time_or_empty(time.hour as int, time.minute as int, time.second as int, f@));
        r
    }

    /// The time of day of an instant in the machine's time zone, as hours and
    /// minutes of two digits each ("%H:%M"), as shown for the times of legs
    /// and stops.
    pub fn format_local_time(instant: i64) -> (r: String)
        requires
            valid_instant(instant as int),
        ensures
            local_time_shown(r@),
    {
        let t = match local_time(instant) {
            Some(t) => t,
            None => TimeOfDay { hour: 0, minute: 0, second: 0 },
        };
        Utility::format_clock(&t)
    }

    /// A time of day as hours and minutes of two digits each, with a colon
    /// between ("%H:%M"), as the times of legs and stops are shown.
    pub fn format_clock(t: &TimeOfDay) -> (r: String)
        requires
            t.hour < 24,
            t.minute < 60,
            t.second < 60,
        ensures
            r@ == two_digits(t.hour) + seq![':'] + two_digits(t.minute),
    {
        match chrono_time(t.hour, t.minute, t.second, "%H:%M") {
            Some(x) => x,
            None => String::new(),
        }
    }

    /// How `date` relates to `today`.
    pub fn day_kind(today: Date, date: Date) -> (r: DayKind)
        requires
            -MAX_DAY <= today.days_from_ce <= MAX_DAY,
        ensures
            r == day_kind(
                today.days_from_ce as int,
                date.days_from_ce as int,
                calendar_year(today.days_from_ce as int),
                calendar_year(date.days_from_ce as int),
            ),
    {
        if today.days_from_ce == date.days_from_ce {
            DayKind::Today
        } else if today.days_from_ce + 1 == date.days_from_ce {
            DayKind::Tomorrow
        } else if today.days_from_ce - 1 == date.days_from_ce {
            DayKind::Yesterday
        } else {
            let a = year_of(today.days_from_ce);
            let b = year_of(date.days_from_ce);
            let same = match (a, b) {
                (Some(x), Some(y)) => x == y,
                (None, None) => true,
                _ => false,
            };
            if same {
                DayKind::ThisYear
            } else {
                DayKind::OtherYear
            }
        }
    }

    /// A date for people: "Today", "Tomorrow", "Yesterday", the weekday and
    /// day of a date this year, or the full date of another year.
    pub fn format_date_human(today: Date, date: Date) -> (r: String)
        requires
            -MAX_DAY <= today.days_from_ce <= MAX_DAY,
        ensures
            date_human_text(today, date, r@),
    {
        match Utility::day_kind(today, date) {
            DayKind::Today => gettext("Today"),
            DayKind::Tomorrow => gettext("Tomorrow"),
            DayKind::Yesterday => gettext("Yesterday"),
            DayKind::ThisYear => {
                let f = gettext("%a, %d. %B");
                let r = match chrono_date(date.days_from_ce, f.as_str()) {
                    Some(t) => t,
                    None => String::new(),
                };
                assert(r@ == date_or_empty(date.days_from_ce as int, f@));
                r
            },
            DayKind::OtherYear => {
                let f = gettext("%Y-%m-%d");
                let r = match chrono_date(date.days_from_ce, f.as_str()) {
                    Some(t) => t,
                    None => String::new(),
                };
                assert(r@ == date_or_empty(date.days_from_ce as int, f@));
                r
            },
        }
    }
}

} // verus!
