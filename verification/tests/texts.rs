use chrono::Datelike;

use railway::display::{
    divider_hidden, fill_last_refreshed, frequency_duration, frequency_label, is_different, pad_two,
    picker_date_label, picker_time_label, time_classes,
};
use railway::duration::Duration;
use railway::error::Error;
use railway::intermediate_location::{fill_location_description, format_intermediate_location_description};
use railway::journey::{fill_event, Event, EventSentence, JourneyData, Price};
use railway::labels::{
    fill_train_direction, fill_trip_description, fill_trip_segment_description, format_deletion_time,
    format_stop_count, format_train_direction, format_trip_description, format_trip_segment_description,
};
use railway::leg::{Frequency, Leg, Line};
use railway::place::Place;
use railway::price::format_msgid;
use railway::remark::{association_to_icon, Remark, RemarkAssociation};
use railway::text::{replace_all, signed_decimal, unsigned_decimal};
use railway::utility::{Date, DayKind, TimeOfDay, Utility};

fn day(y: i32, m: u32, d: u32) -> Date {
    Date { days_from_ce: chrono::NaiveDate::from_ymd_opt(y, m, d).unwrap().num_days_from_ce() }
}

#[test]
fn trip_description_is_filled() {
    let r = fill_trip_description("{departure}-{arrival} {travel_time} {changes_text}", "{} x", "08:00", "09:15", "1 h", 2);
    assert_eq!(r, "08:00-09:15 1 h 2 x");
    assert_eq!(
        format_trip_description("08:00", "09:15", "1 h 15 min", 1),
        "From 08:00 to 09:15 in 1 h 15 min with 1 change"
    );
    assert_eq!(
        format_trip_description("08:00", "09:15", "1 h 15 min", 3),
        "From 08:00 to 09:15 in 1 h 15 min with 3 changes"
    );
}

#[test]
fn train_direction_is_filled() {
    assert_eq!(fill_train_direction("{train} > {destination}", "ICE 1", "Hamburg"), "ICE 1 > Hamburg");
    assert_eq!(format_train_direction("ICE 1", "Hamburg"), "ICE 1 in the direction of Hamburg");
}

#[test]
fn trip_segment_description_picks_templates() {
    assert_eq!(
        format_trip_segment_description("A", "08:00", &Some("3".to_string()), "B", "09:00", &None),
        "Depart A from platform 3 at 08:00. Arrive at B at 09:00."
    );
    assert_eq!(
        format_trip_segment_description("A", "08:00", &None, "B", "09:00", &Some("7".to_string())),
        "Depart A at 08:00. Arrive at B on platform 7 at 09:00."
    );
    let r = fill_trip_segment_description("p{platform}", "{start}", "q", "{arrival}{platform}", "S", "T", &None, "D", "X", &None);
    assert_eq!(r, "S X");
}

#[test]
fn counts_are_written() {
    assert_eq!(format_stop_count(1), "1 Stop");
    assert_eq!(format_stop_count(4), "4 Stops");
    assert_eq!(format_deletion_time(12), "12\u{202F}h");
    assert_eq!(unsigned_decimal(1203), "1203");
    assert_eq!(signed_decimal(-45), "-45");
    assert_eq!(signed_decimal(i64::MIN), "-9223372036854775808");
}

#[test]
fn replace_all_matches_str_replace() {
    assert_eq!(replace_all("aaa", "aa", "b"), "aaa".replace("aa", "b"));
    assert_eq!(replace_all("{x}{x}", "{x}", "yy"), "yyyy");
    assert_eq!(replace_all("none", "{}", "1"), "none");
}

#[test]
fn prices_by_currency() {
    assert_eq!(format_msgid("EUR"), "€{amount}");
    assert_eq!(format_msgid("USD"), "${amount}");
    assert_eq!(format_msgid("CHF"), "{currency} {amount}");
    let p = Price { currency: "CHF".to_string(), amount: "3.20".to_string() };
    assert_eq!(p.formatted(), "CHF 3.20");
    assert_eq!(p.fill("{amount} ({currency})"), "3.20 (CHF)");
    let d = Price { currency: "USD".to_string(), amount: "1.00".to_string() };
    assert_eq!(d.formatted(), "$1.00");
    assert_eq!(d.fill("{currency}"), "{currency}");
}

#[test]
fn durations_are_written() {
    assert_eq!(Utility::format_duration_tabular(Duration::minutes(45)), "45 min");
    assert_eq!(Utility::format_duration_tabular(Duration::minutes(90)), " 1 h 30 min");
    assert_eq!(Utility::format_duration_inline(Duration::minutes(90)), "90 min.");
    assert_eq!(Utility::format_duration_inline(Duration::hours(3)), "3 hrs. 0 min.");
    assert_eq!(Utility::format_duration_tabular(Duration::days(2)), " 2 days  0 h  0 min");
}

#[test]
fn times_and_days_are_written() {
    assert_eq!(Utility::format_time_human(&TimeOfDay { hour: 9, minute: 5, second: 0 }), "09:05");
    let today = day(2024, 3, 10);
    assert_eq!(Utility::day_kind(today, day(2024, 3, 11)), DayKind::Tomorrow);
    assert_eq!(Utility::format_date_human(today, today), "Today");
    assert_eq!(Utility::format_date_human(today, day(2024, 3, 9)), "Yesterday");
    assert_eq!(Utility::format_date_human(today, day(2024, 5, 1)), "Wed, 01. May");
    assert_eq!(Utility::format_date_human(today, day(2023, 12, 24)), "2023-12-24");
    assert!(Utility::not(false));
    assert!(Utility::and(&vec![true, true]));
    assert!(!Utility::and(&vec![true, false]));
}

#[test]
fn error_messages() {
    assert_eq!(Error::Timeout.message(), "Timed Out");
    assert_eq!(Error::Hafas("boom".to_string()).message(), "Backend error: boom");
}

#[test]
fn location_descriptions() {
    assert_eq!(
        format_intermediate_location_description("Köln", &Some("10:00".to_string()), &Some("4".to_string())),
        "Köln at 10:00 on platform 4"
    );
    assert_eq!(format_intermediate_location_description("Köln", &None, &Some("4".to_string())), "Köln");
    assert_eq!(fill_location_description("a", "{stop}@{arrival}", "S", &Some("t".to_string()), &None), "S@t");
}

#[test]
fn remark_icons() {
    assert_eq!(association_to_icon(&RemarkAssociation::Bike), "cycling-symbolic");
    assert_eq!(association_to_icon(&RemarkAssociation::NotGiven), "dialog-information-symbolic");
    let r = Remark { code: "b".to_string(), text: "Bikes".to_string(), association: RemarkAssociation::WiFi };
    assert_eq!(r.icon_name(), "network-wireless-signal-excellent-symbolic");
}

#[test]
fn display_decisions() {
    assert!(divider_hidden(true, false, "Today", "Today"));
    assert!(divider_hidden(true, true, "Today", "Today"));
    assert!(!divider_hidden(true, true, "Tomorrow", "Today"));
    assert!(!divider_hidden(false, false, "x", "x"));
    assert!(is_different(&Some("10:00".to_string()), &Some("10:05".to_string())));
    assert!(!is_different(&Some("10:00".to_string()), &None));
    assert_eq!(time_classes(&None, &None), ("main-label-on-time", "alt-label-on-time"));
    assert_eq!(time_classes(&Some("a".to_string()), &None), ("main-label-late", "alt-label-late"));
    assert_eq!(pad_two(7), "07");
    assert_eq!(picker_time_label(9, 30), "09:30");
    assert_eq!(fill_last_refreshed("Last refreshed {}", "10:00"), "Last refreshed 10:00");
}

#[test]
fn frequency_is_the_mean() {
    let f = Frequency { minimum: Some(Duration::minutes(10)), maximum: Some(Duration::minutes(21)), iterations: None };
    assert_eq!(frequency_duration(&f).map(|d| d.num_seconds()), Some(930));
    assert_eq!(frequency_label(&Some(f)), Some("every ~15 min.".to_string()));
    let g = Frequency { minimum: None, maximum: Some(Duration::minutes(5)), iterations: Some(3) };
    assert_eq!(frequency_label(&Some(g)), Some("every ~5 min.".to_string()));
    let h = Frequency { minimum: None, maximum: None, iterations: None };
    assert_eq!(frequency_label(&Some(h)), None);
    assert_eq!(frequency_label(&None), None);
}

fn leg(from: &str, to: &str, dep: i64, arr: i64) -> Leg {
    Leg {
        id: format!("{}-{}", from, to),
        origin: Place::Station { id: from.to_string(), name: Some(from.to_string()) },
        destination: Place::Station { id: to.to_string(), name: Some(to.to_string()) },
        departure: Some(dep),
        planned_departure: Some(dep),
        arrival: Some(arr),
        planned_arrival: Some(arr),
        departure_day: None,
        reachable: true,
        line: None,
        direction: None,
        arrival_platform: None,
        planned_arrival_platform: None,
        departure_platform: Some("2".to_string()),
        planned_departure_platform: Some("2".to_string()),
        frequency: None,
        cancelled: false,
        intermediate_locations: Vec::new(),
        load_factor: None,
        remarks: Vec::new(),
        walking: false,
    }
}

#[test]
fn events_in_sentences() {
    let j = JourneyData { id: "j".to_string(), legs: vec![leg("A", "B", 600, 1200)], price: None };
    assert_eq!(Event::BeforeJourney(0).format_at_time(&j, 0), "Start at A in 10 min on platform 2");
    assert_eq!(Event::InLeg(0, None).format_at_time(&j, 900), "Arriving at B in 5 min");
    assert_eq!(Event::AfterJourney.format_at_time(&j, 2000), "The journey arrived at its destination");
}

#[test]
fn event_sentences_pick_templates() {
    let mut second = leg("C", "D", 1500, 2400);
    second.line = Some(Line { name: Some("RE 5".to_string()), product_name: None, product: "Regional".to_string() });
    second.departure_platform = None;
    let j = JourneyData { id: "j".to_string(), legs: vec![leg("A", "B", 600, 1200), second], price: None };
    assert_eq!(Event::BeforeJourney(0).sentence(&j), EventSentence::StartOnPlatform);
    assert_eq!(Event::InLeg(0, Some(1)).sentence(&j), EventSentence::Arriving);
    assert_eq!(Event::TransitionTo(1).sentence(&j), EventSentence::Transition);
    assert_eq!(Event::TransitionTo(1).format_at_time(&j, 1200), "Transition to RE 5 in 5 min");
    assert_eq!(Event::Cancelled.sentence(&j), EventSentence::Cancelled);
    assert_eq!(Event::Cancelled.format_at_time(&j, 0), "The journey was cancelled");
    assert_eq!(Event::Unreachable.format_at_time(&j, 0), "A connection is unreachable");
    assert_eq!(EventSentence::Start.msgid(), Some("Start at {next-origin} in {duration}"));
    assert_eq!(EventSentence::Nothing.msgid(), None);
}

#[test]
fn event_without_time_says_nothing() {
    let mut first = leg("A", "B", 600, 1200);
    first.departure = None;
    let j = JourneyData { id: "j".to_string(), legs: vec![first], price: None };
    assert_eq!(Event::BeforeJourney(0).sentence(&j), EventSentence::Nothing);
    assert_eq!(Event::BeforeJourney(0).format_at_time(&j, 0), "");
}

#[test]
fn event_placeholders_are_filled_in_order() {
    let t = "{duration}|{next-leg-name}|{next-platform}|{next-origin}|{current-destination}";
    assert_eq!(fill_event(t, "d", "n", "p", "o", "c"), "d|n|p|o|c");
    assert_eq!(fill_event("{next-origin}", "{next-origin}", "", "", "x", ""), "x");
}

#[test]
fn picker_date_is_today_or_written() {
    assert_eq!(picker_date_label(day(2024, 3, 5), day(2024, 3, 5)), "Today");
    assert_eq!(picker_date_label(day(2024, 3, 5), day(2024, 3, 6)), "Wed Mar 06");
}
