use chrono::Datelike;
use railway::detail_layout::{detail_layout, format_source_destination, DetailItem};
use railway::duration::Duration;
use railway::journey::{Alert, Event, Journey, JourneyData, Price};
use railway::journey_store::{is_over, DeletionSettings, JourneysStore, StoreChange, StoreMode};
use railway::journeys_result::{JourneysResult, TimeType};
use railway::late_factor::LateFactor;
use railway::leg::{Leg, Line};
use railway::live_update::{live_view, LivePage};
use railway::load_factor::{LoadFactor, ReportedLoad};
use railway::notify::Notice;
use railway::place::Place;

fn station(id: &str, name: &str) -> Place {
    Place::Station { id: id.to_string(), name: Some(name.to_string()) }
}

fn leg(id: &str, from: &str, to: &str, dep: i64, arr: i64) -> Leg {
    Leg {
        id: id.to_string(),
        origin: station(from, from),
        destination: station(to, to),
        departure: Some(dep),
        planned_departure: Some(dep),
        arrival: Some(arr),
        planned_arrival: Some(arr),
        departure_day: Some(10),
        reachable: true,
        line: Some(Line {
            name: Some(format!("RE {}", id)),
            product_name: Some("RE".to_string()),
            product: "Regional".to_string(),
        }),
        direction: None,
        arrival_platform: None,
        planned_arrival_platform: None,
        departure_platform: None,
        planned_departure_platform: None,
        frequency: None,
        cancelled: false,
        intermediate_locations: Vec::new(),
        load_factor: None,
        remarks: Vec::new(),
        walking: false,
    }
}

fn walk(id: &str, from: &str, to: &str, dep: i64, arr: i64) -> Leg {
    let mut l = leg(id, from, to, dep, arr);
    l.walking = true;
    l.line = None;
    l
}

fn journey(id: &str, legs: Vec<Leg>) -> JourneyData {
    JourneyData { id: id.to_string(), legs, price: None }
}

fn two_legs() -> JourneyData {
    journey("j1", vec![leg("a", "A", "B", 1000, 2000), leg("b", "B", "C", 2600, 4000)])
}

#[test]
fn event_follows_the_legs() {
    let j = two_legs();
    assert_eq!(j.event_at_time(0), Event::BeforeJourney(0));
    assert_eq!(j.event_at_time(1500), Event::InLeg(0, Some(1)));
    assert_eq!(j.event_at_time(2300), Event::TransitionTo(1));
    assert_eq!(j.event_at_time(3000), Event::InLeg(1, None));
    assert_eq!(j.event_at_time(5000), Event::AfterJourney);
}

#[test]
fn unreachable_and_cancelled_events() {
    let mut j = two_legs();
    j.legs[1].reachable = false;
    assert_eq!(j.event_at_time(0), Event::Unreachable);
    assert!(j.is_unreachable());
    let mut k = two_legs();
    k.legs[0].cancelled = true;
    assert_eq!(k.event_at_time(1500), Event::Cancelled);
    assert!(k.is_cancelled());
}

#[test]
fn alerts_of_a_late_leg() {
    let mut j = two_legs();
    j.legs[1].departure = Some(2900);
    j.legs[1].arrival = Some(4300);
    j.legs[1].departure_platform = Some("5".to_string());
    j.legs[1].planned_departure_platform = Some("4".to_string());
    let alerts = j.alerts(1500);
    assert_eq!(
        alerts,
        vec![
            Alert::DepartureDelayed(1),
            Alert::DeparturePlatformChange(1),
            Alert::ArrivalDelayed(1),
            Alert::ArrivalDelayed(1)
        ]
    );
    assert!(j.change_platform());
    assert_eq!(j.late_factor(), LateFactor::Late);
}

#[test]
fn journey_properties() {
    let mut j = two_legs();
    assert_eq!(j.transitions(), 1);
    assert_eq!(j.total_time().map(|d| d.num_seconds()), Some(3000));
    assert_eq!(j.types(), "RE • RE");
    assert_eq!(j.day_timestamp(), 10);
    j.legs[0].load_factor = Some(ReportedLoad::High);
    j.legs[1].load_factor = Some(ReportedLoad::LowToMedium);
    assert_eq!(j.load_factor(), LoadFactor::High);
}

#[test]
fn walks_do_not_count_as_transitions() {
    let j = journey(
        "j",
        vec![leg("a", "A", "B", 0, 600), walk("w", "B", "C", 600, 900), leg("b", "C", "D", 1000, 2000)],
    );
    assert_eq!(j.transitions(), 1);
    assert_eq!(j.event_at_time(700), Event::TransitionTo(2));
    assert_eq!(j.event_at_time(300), Event::InLeg(0, Some(2)));
}

#[test]
fn journey_notifies_once() {
    let mut j = Journey::new(two_legs());
    let first = j.background_tasks(0);
    assert_eq!(first, vec![Notice::StartsSoon(0)]);
    let again = j.background_tasks(10);
    assert!(again.is_empty());
    let riding = j.background_tasks(1800);
    assert_eq!(riding, vec![Notice::TransitionSoon(0, 1)]);
    assert!(j.background_tasks(1850).is_empty());
}

#[test]
fn journey_notifies_growing_delays() {
    let mut d = two_legs();
    d.legs[1].departure = Some(2600 + 600);
    d.legs[1].arrival = Some(4000 + 600);
    let mut j = Journey::new(d);
    let n = j.background_tasks(100);
    assert!(n.contains(&Notice::DepartureDelayed(1, 600)));
    assert!(n.contains(&Notice::ArrivalDelayed(1, 600)));
    assert!(j.background_tasks(200).is_empty());
}

#[test]
fn refresh_schedule() {
    let mut j = Journey::new(two_legs());
    assert!(j.should_refresh(0));
    j.refresh_started();
    assert!(j.refresh_in_progress());
    j.refresh_finished(Some(two_legs()), 0);
    assert!(!j.refresh_in_progress());
    assert_eq!(j.last_refreshed(), Some(0));
    assert!(!j.should_refresh(30));
    assert!(j.should_refresh(400));
    assert_eq!(j.next_background_tasks_in(500).num_seconds(), 300);
    let mut k = Journey::new(two_legs());
    assert_eq!(k.next_background_tasks_in(800).num_seconds(), 60);
}

#[test]
fn background_wait_grows_with_the_time_left() {
    let mut j = Journey::new(two_legs());
    assert_eq!(j.next_background_tasks_in(-100_000).num_seconds(), 86400);
    let mut k = Journey::new(two_legs());
    assert_eq!(k.next_background_tasks_in(-5000).num_seconds(), 3600);
    let mut m = Journey::new(two_legs());
    assert_eq!(m.next_background_tasks_in(-1000).num_seconds(), 900);
    let mut n = Journey::new(two_legs());
    assert_eq!(n.next_background_tasks_in(600).num_seconds(), 300);
}

#[test]
fn results_merge_without_duplicates() {
    let (mut r, changed) = JourneysResult::new(
        vec![two_legs()],
        Some("e".to_string()),
        Some("l".to_string()),
        station("A", "A"),
        station("C", "C"),
        Some(0),
        TimeType::Departure,
    );
    assert_eq!(changed.added, 1);
    let (later, _) = JourneysResult::new(
        vec![two_legs(), journey("j2", vec![leg("c", "A", "C", 5000, 6000)])],
        None,
        Some("l2".to_string()),
        station("A", "A"),
        station("C", "C"),
        Some(0),
        TimeType::Departure,
    );
    let c = r.merge_append(later);
    assert_eq!(c.added, 1);
    assert_eq!(r.n_items(), 2);
    assert_eq!(r.later_ref(), Some("l2".to_string()));
    assert_eq!(r.earlier_ref(), Some("e".to_string()));
    r.set_selected(Some("j2".to_string()));
    assert!(r.is_selected(1));
    assert!(!r.is_selected(0));
    let inside = r.selection_in_range(1, 1);
    assert_eq!((inside.start, inside.n_items, inside.added), (1, 1, Some(1)));
    assert_eq!(r.selection_in_range(0, 1).added, None);
    assert_eq!(r.selection_in_range(0, 2).added, Some(0));
    r.set_selected(None);
    assert_eq!(r.selection_in_range(0, 2).added, None);
}

#[test]
fn store_toggles_and_modes() {
    let mut s = JourneysStore::new();
    assert!(matches!(s.store(Journey::new(two_legs())), StoreChange::Added));
    assert_eq!(s.len(), 1);
    assert!(s.contains(&Journey::new(two_legs())));
    assert!(s.toggle_watch("j1".to_string()));
    assert!(s.is_watched("j1"));
    assert!(matches!(s.store_with_mode(Journey::new(two_legs()), StoreMode::Add), StoreChange::Unchanged));
    match s.store(Journey::new(two_legs())) {
        StoreChange::Removed(j) => assert_eq!(j.id(), "j1"),
        _ => panic!("expected a removal"),
    }
    assert_eq!(s.len(), 0);
    assert!(!s.is_watched("j1"));
    assert!(matches!(s.store_with_mode(Journey::new(two_legs()), StoreMode::Remove), StoreChange::Unchanged));
}

#[test]
fn store_twice_restores() {
    let mut s = JourneysStore::new();
    s.store(Journey::new(journey("x", vec![leg("x", "A", "B", 0, 10)])));
    s.store(Journey::new(two_legs()));
    s.store(Journey::new(two_legs()));
    assert_eq!(s.len(), 1);
    assert_eq!(s.journey_at(0).id(), "x");
}

#[test]
fn journeys_over_are_detected() {
    let j = two_legs();
    assert!(is_over(&j, 1, 4000 + 3601));
    assert!(!is_over(&j, 1, 4000 + 3600));
    let mut p = two_legs();
    p.legs[1].arrival = None;
    assert!(!is_over(&p, 0, 3999));
    assert!(is_over(&p, 0, 4001));
    assert!(is_over(&journey("e", Vec::new()), 5, 0));
}

#[test]
fn load_keeps_order_and_removes_old() {
    let settings = DeletionSettings { deletion_hours: 1, delete_old: false, purge_suggested: false };
    let mut s = JourneysStore::new();
    let old = journey("old", vec![leg("o", "A", "B", 0, 100)]);
    let new = journey("new", vec![leg("n", "A", "B", 100_000, 100_100)]);
    let out = s.load(vec![new, old], vec!["old".to_string()], settings, 50_000);
    assert!(out.some_deletable);
    assert!(!out.purge_suggested);
    assert!(out.watch_added);
    assert_eq!(s.len(), 2);
    assert_eq!(s.journey_at(0).id(), "new");
    assert_eq!(s.journey_at(1).id(), "old");
    assert!(s.is_watched("old"));

    let delete = DeletionSettings { deletion_hours: 1, delete_old: true, purge_suggested: false };
    let mut t = JourneysStore::new();
    let out = t.load(
        vec![journey("new", vec![leg("n", "A", "B", 100_000, 100_100)]), journey("old", vec![leg("o", "A", "B", 0, 100)])],
        Vec::new(),
        delete,
        50_000,
    );
    assert!(out.purge_suggested);
    assert!(!out.some_deletable);
    assert_eq!(t.len(), 1);
    assert_eq!(t.journey_at(0).id(), "new");
}

#[test]
fn flush_then_load_restores() {
    let mut s = JourneysStore::new();
    s.store(Journey::new(journey("a", vec![leg("a", "A", "B", 100_000, 100_100)])));
    s.store(Journey::new(journey("b", vec![leg("b", "A", "B", 200_000, 200_100)])));
    let (journeys, _watched) = s.flush();
    let data: Vec<JourneyData> = journeys
        .iter()
        .map(|j| JourneyData { id: j.journey().id.clone(), legs: j.journey().legs.clone(), price: None })
        .collect();
    let mut t = JourneysStore::new();
    let settings = DeletionSettings { deletion_hours: 1, delete_old: false, purge_suggested: true };
    t.load(data, Vec::new(), settings, 0);
    assert_eq!(t.len(), 2);
    assert_eq!(t.journey_at(0).id(), "b");
    assert_eq!(t.journey_at(1).id(), "a");
}

#[test]
fn minutely_runs_watched_journeys_only() {
    let mut s = JourneysStore::new();
    s.store(Journey::new(two_legs()));
    s.store(Journey::new(journey("j2", vec![leg("z", "A", "B", 1000, 2000)])));
    s.toggle_watch("j1".to_string());
    assert!(s.minutely_ready(0));
    let notices = s.on_minutely(0);
    assert_eq!(notices.len(), 2);
    assert!(notices[0].is_empty());
    assert_eq!(notices[1], vec![Notice::StartsSoon(0)]);
}

#[test]
fn minutely_needs_known_platforms() {
    let mut d = two_legs();
    d.legs[1].planned_departure_platform = Some("4".to_string());
    let mut s = JourneysStore::new();
    s.store(Journey::new(d));
    assert!(s.minutely_ready(0));
    s.toggle_watch("j1".to_string());
    assert!(!s.minutely_ready(0));
}

#[test]
fn detail_layout_groups_walks() {
    let j = journey(
        "j",
        vec![
            walk("w0", "Home", "A", 0, 300),
            leg("a", "A", "B", 400, 1000),
            walk("w1", "B", "C", 1000, 1200),
            leg("b", "C", "D", 1500, 2000),
            leg("c", "E", "F", 2100, 2500),
        ],
    );
    let items = detail_layout(&j);
    assert_eq!(items.len(), 6);
    match &items[0] {
        DetailItem::Transition { walking, waiting, has_walk, terminal, final_leg } => {
            assert_eq!(walking.map(|d| d.num_seconds()), Some(300));
            assert!(waiting.is_none());
            assert!(*has_walk);
            assert!(*terminal);
            assert!(final_leg.is_none());
        }
        _ => panic!("expected a transition"),
    }
    assert!(matches!(items[1], DetailItem::Ride(1)));
    match &items[2] {
        DetailItem::Transition { walking, waiting, has_walk, terminal, .. } => {
            assert_eq!(walking.map(|d| d.num_seconds()), Some(200));
            assert_eq!(waiting.map(|d| d.num_seconds()), Some(300));
            assert!(*has_walk);
            assert!(!*terminal);
        }
        _ => panic!("expected a transition"),
    }
    assert!(matches!(items[3], DetailItem::Ride(3)));
    match &items[4] {
        DetailItem::Transition { walking, waiting, has_walk, .. } => {
            assert!(walking.is_none());
            assert_eq!(waiting.map(|d| d.num_seconds()), Some(100));
            assert!(!*has_walk);
        }
        _ => panic!("expected a transition"),
    }
    assert!(matches!(items[5], DetailItem::Ride(4)));
}

#[test]
fn detail_layout_ends_with_a_walk() {
    let j = journey("j", vec![leg("a", "A", "B", 0, 100), walk("w", "B", "Home", 100, 400)]);
    let items = detail_layout(&j);
    assert_eq!(items.len(), 2);
    assert!(matches!(items[0], DetailItem::Ride(0)));
    match &items[1] {
        DetailItem::Transition { walking, waiting, terminal, final_leg, .. } => {
            assert_eq!(walking.map(|d| d.num_seconds()), Some(300));
            assert!(waiting.is_none());
            assert!(*terminal);
            assert_eq!(*final_leg, Some(1));
        }
        _ => panic!("expected a transition"),
    }
}

#[test]
fn detail_layout_same_station_has_no_walk() {
    let j = two_legs();
    let items = detail_layout(&j);
    assert_eq!(items.len(), 3);
    assert!(matches!(items[0], DetailItem::Ride(0)));
    match &items[1] {
        DetailItem::Transition { has_walk, waiting, .. } => {
            assert!(!*has_walk);
            assert_eq!(waiting.map(|d| d.num_seconds()), Some(600));
        }
        _ => panic!("expected a transition"),
    }
    assert_eq!(format_source_destination("A", "B"), "A → B");
}

#[test]
fn live_view_of_events() {
    let j = two_legs();
    let v = live_view(Some(Event::InLeg(0, Some(1))), &j, 1500);
    assert_eq!(v.page, LivePage::InLeg);
    assert_eq!(v.page.name(), "in-leg");
    assert_eq!(v.current, Some(0));
    assert_eq!(v.next, Some(1));
    assert_eq!(v.wait.map(|d| d.num_seconds()), Some(500));
    assert_eq!(v.in_leg_label(&j), Some("Arriving at B in 8 min".to_string()));
    let b = live_view(Some(Event::BeforeJourney(0)), &j, 400);
    assert_eq!(b.before_journey_label(&j), Some("Start at A in 10 min".to_string()));
    let mut p = two_legs();
    p.legs[1].departure_platform = Some("7".to_string());
    let t = live_view(Some(Event::TransitionTo(1)), &p, 2300);
    assert_eq!(t.transition_to_label(&p), Some("Transition to RE b on platform 7 in 5 min".to_string()));
    let none = live_view(None, &j, 0);
    assert_eq!(none.page, LivePage::BeforeJourney);
    assert!(none.before_journey_label(&j).is_none());
}

#[test]
fn price_is_kept() {
    let mut j = two_legs();
    j.price = Some(Price { currency: "EUR".to_string(), amount: "12.50".to_string() });
    assert_eq!(j.price.as_ref().map(|p| p.formatted()), Some("€12.50".to_string()));
    let _ = Duration::zero();
}

#[test]
fn next_action_lies_after_the_time() {
    let j = two_legs();
    for t in [0, 999, 1000, 1500, 2000, 2300, 2600, 3000, 3999, 4000, 5000] {
        let e = j.event_at_time(t);
        if let Some(a) = e.time_of_next_action(&j) {
            assert!(a > t);
        }
    }
    assert_eq!(j.event_at_time(4000), Event::AfterJourney);
}

#[test]
fn alerts_concern_coming_changes() {
    let mut j = two_legs();
    j.legs[1].departure = Some(2900);
    j.legs[1].arrival = Some(4300);
    assert_eq!(j.alerts(3000), vec![Alert::ArrivalDelayed(1)]);
    assert_eq!(j.alerts(5000), vec![]);
    assert_eq!(two_legs().alerts(0), vec![]);
}

#[test]
fn late_factor_is_the_latest_of_the_legs() {
    let mut j = two_legs();
    assert_eq!(j.late_factor(), LateFactor::OnTime);
    j.legs[0].arrival = Some(2000 + 3 * 60);
    assert_eq!(j.late_factor(), LateFactor::LittleLate);
    j.legs[1].departure = Some(2600 + 20 * 60);
    assert_eq!(j.late_factor(), LateFactor::VeryLate);
}

#[test]
fn background_twice_at_once_is_quiet() {
    let mut d = two_legs();
    d.legs[1].departure = Some(2600 + 600);
    d.legs[1].arrival = Some(4000 + 600);
    d.legs[1].departure_platform = Some("3".to_string());
    d.legs[1].planned_departure_platform = Some("1".to_string());
    let mut j = Journey::new(d);
    let first = j.background_tasks(500);
    assert_eq!(
        first,
        vec![
            Notice::StartsSoon(0),
            Notice::DepartureDelayed(1, 600),
            Notice::DeparturePlatformChanged(1),
            Notice::ArrivalDelayed(1, 600)
        ]
    );
    assert!(j.background_tasks(500).is_empty());
}

#[test]
fn departure_day_is_relative_to_today() {
    let t: i64 = 1_700_049_600;
    let local = chrono::DateTime::from_timestamp(t, 0).unwrap().with_timezone(&chrono::Local).date_naive();
    let today = railway::utility::Date { days_from_ce: local.num_days_from_ce() };
    let j = Journey::new(journey("d", vec![leg("a", "A", "B", t, t + 600)]));
    assert_eq!(j.departure_day(today), "Today");
    let k = Journey::new(journey("d", vec![leg("a", "A", "B", t + 86400, t + 87000)]));
    assert_eq!(k.departure_day(today), "Tomorrow");
    let mut unknown = journey("d", vec![leg("a", "A", "B", t, t + 600)]);
    unknown.legs[0].departure = None;
    assert_eq!(Journey::new(unknown).departure_day(today), "");
}

#[test]
fn notices_render_their_texts() {
    let j = two_legs();
    let hhmm = chrono::DateTime::from_timestamp(1000, 0).unwrap().with_timezone(&chrono::Local).format("%H:%M").to_string();
    assert_eq!(j.legs[0].departure_time(), Some(hhmm.clone()));
    let start = Notice::StartsSoon(0).render(&j);
    assert_eq!(start.id, "railway-journey-current-event-j1");
    assert_eq!(start.title, "Your trip to C starts soon");
    assert_eq!(start.body, Some(format!("Start in A at {}", hhmm)));
    let change = Notice::TransitionSoon(0, 1).render(&j);
    assert_eq!(change.title, "You need to transition in B soon");
    assert_eq!(change.body, Some("You have 10 min. for the transition".to_string()));
    let late = Notice::DepartureDelayed(1, 600).render(&j);
    assert_eq!(late.id, "railway-leg-departure-delayed-b");
    assert_eq!(late.title, "RE b departure is delayed by 10 min.");
    assert_eq!(late.body, None);
    let mut p = two_legs();
    p.legs[0].departure_platform = Some("4".to_string());
    let on_platform = Notice::StartsSoon(0).render(&p);
    assert_eq!(on_platform.body, Some(format!("Start in A on platform 4 at {}", hhmm)));
}

#[test]
fn leg_times_are_hours_and_minutes() {
    let l = leg("a", "A", "B", 1_700_049_600, 1_700_049_600 + 600);
    let t = l.departure_time().unwrap();
    let expected = chrono::DateTime::from_timestamp(1_700_049_600, 0).unwrap().with_timezone(&chrono::Local).format("%H:%M").to_string();
    assert_eq!(t, expected);
    assert_eq!(t.len(), 5);
    assert_eq!(&t[2..3], ":");
    let mut u = l.clone();
    u.planned_arrival = None;
    assert_eq!(u.planned_arrival_time(), None);
}

#[test]
fn alerts_only_disappear_as_time_passes() {
    let mut j = two_legs();
    j.legs[0].arrival = Some(2100);
    j.legs[1].departure = Some(2900);
    j.legs[1].arrival = Some(4300);
    let early = j.alerts(500);
    for t in [500, 1500, 2050, 2500, 3000, 4000, 5000] {
        for a in j.alerts(t) {
            assert!(early.contains(&a));
        }
    }
    assert!(j.alerts(5000).is_empty());
}
