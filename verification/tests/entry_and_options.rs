use railway::indicators::IndicatorIcons;
use railway::journeys_result::TimeType;
use railway::late_factor::LateFactor;
use railway::load_factor::{LoadFactor, ReportedLoad};
use railway::migrate_journey_store::{
    convert_line, convert_load_factor, convert_mode, convert_remark_type, Line, LoadFactor as OldLoad, Mode,
    Operator, Product, RemarkType,
};
use railway::place::Place;
use railway::search_options::{
    bahncard_msgid, search_button_child, search_request, search_tooltip, summary, summary_msgids,
    SearchSettings,
};
use railway::station_entry::{
    exact_match, fill_announcement, keep_with_id, key_nav, popover_visible, too_short, KeyNav, NavKey,
};
use railway::transport::{RemarkKind, TransportMode};

fn settings() -> SearchSettings {
    SearchSettings {
        first_class: false,
        bahncard: 0,
        include_national_express: true,
        include_national: true,
        include_regional_express: true,
        include_regional: true,
        include_suburban: true,
        include_bus: true,
        include_ferry: true,
        include_subway: true,
        include_tram: true,
        include_taxi: true,
        bike_accessible: false,
        direct_only: false,
        transfer_time: 5,
    }
}

#[test]
fn short_input_counts_bytes() {
    assert!(too_short("ab"));
    assert!(!too_short("abc"));
    assert!(!too_short("äb"));
    assert!(too_short("ä"));
    assert!(!too_short("日"));
    assert!(too_short(""));
}

#[test]
fn exact_match_by_name() {
    let places = vec![
        Place::Point { id: None, name: None },
        Place::Station { id: "1".to_string(), name: Some("Berlin".to_string()) },
        Place::Address { address: "Berlin".to_string() },
    ];
    assert_eq!(exact_match(&places, "Berlin"), Some(1));
    assert_eq!(exact_match(&places, "Bonn"), None);
    let kept = keep_with_id(places);
    assert_eq!(kept.len(), 1);
    assert!(matches!(&kept[0], Place::Station { id, .. } if id == "1"));
}

#[test]
fn arrow_keys_cycle() {
    assert_eq!(key_nav(true, NavKey::Down, None, 3), KeyNav::Proceed);
    assert_eq!(key_nav(false, NavKey::Other, None, 3), KeyNav::Proceed);
    assert_eq!(key_nav(false, NavKey::Down, None, 0), KeyNav::Stop);
    assert_eq!(key_nav(false, NavKey::Down, None, 3), KeyNav::Select(Some(0)));
    assert_eq!(key_nav(false, NavKey::Down, Some(2), 3), KeyNav::Select(None));
    assert_eq!(key_nav(false, NavKey::Up, None, 3), KeyNav::Select(Some(2)));
    assert_eq!(key_nav(false, NavKey::Up, Some(0), 3), KeyNav::Select(None));
    assert_eq!(key_nav(false, NavKey::Up, Some(2), 3), KeyNav::Select(Some(1)));
    assert_eq!(fill_announcement("Suggestion {} selected", "None", Some("Bonn")), "Suggestion Bonn selected");
    assert_eq!(fill_announcement("Suggestion {} selected", "None", None), "None");
    assert!(popover_visible(2, true, false));
    assert!(!popover_visible(2, true, true));
}

#[test]
fn options_summary() {
    let s = settings();
    assert_eq!(summary_msgids(&s), vec!["2nd class"]);
    let mut t = settings();
    t.first_class = true;
    t.bahncard = 3;
    t.include_national_express = false;
    t.include_national = false;
    t.bike_accessible = true;
    t.direct_only = true;
    assert_eq!(
        summary_msgids(&t),
        vec!["1st class", "BahnCard 50, 1st class", "Regional only", "Bike accessible", "Direct connection"]
    );
    assert_eq!(summary(&t), "1st class\u{00A0}\u{00B7} BahnCard 50, 1st class\u{00A0}\u{00B7} Regional only\u{00A0}\u{00B7} Bike accessible\u{00A0}\u{00B7} Direct connection");
    let mut u = settings();
    u.include_bus = false;
    assert_eq!(summary_msgids(&u), vec!["2nd class", "Custom selection"]);
    assert_eq!(bahncard_msgid(7), "Unknown");
    assert_eq!(bahncard_msgid(15), "CH - General-Abonnement");
}

#[test]
fn search_request_from_settings() {
    let mut s = settings();
    s.direct_only = true;
    s.bahncard = 2;
    let r = search_request(&s, 1000, TimeType::Arrival);
    assert_eq!(r.departure, None);
    assert_eq!(r.arrival, Some(1000));
    assert_eq!(r.max_transfers, Some(0));
    assert_eq!(r.loyalty_card, 2);
    assert_eq!(r.transfer_time.num_seconds(), 300);
    assert!(r.stopovers);
    assert!(!r.first_class);
    assert_eq!(search_tooltip(false, false, false), Some("Start and destination are missing"));
    assert_eq!(search_tooltip(true, false, true), Some("Destination is missing"));
    assert_eq!(search_tooltip(true, true, true), Some("Search ongoing"));
    assert_eq!(search_tooltip(true, true, false), None);
    assert_eq!(search_button_child(true), "spinner");
}

#[test]
fn indicator_icons() {
    let mut i = IndicatorIcons::new();
    assert!(!i.visible());
    assert_eq!(i.cancelled_icon().icon_name, "");
    assert_eq!(i.cancelled_icon().tooltip, None);
    assert!(i.late_icon().css_classes.is_empty());
    i.set_load_factor(LoadFactor::VeryHigh);
    assert!(i.visible());
    assert_eq!(i.load_icon().icon_name, "train-load-veryhigh-symbolic");
    assert_eq!(i.load_icon().tooltip, Some("Very High Load"));
    i.set_load_factor(LoadFactor::Unknown);
    assert!(!i.visible());
    i.set_late_factor(LateFactor::OnTime);
    assert!(!i.late_icon().visible);
    assert_eq!(i.late_icon().css_classes, vec!["late-on-time"]);
    i.set_cancelled(true);
    i.set_unreachable(true);
    assert!(!i.unreachable_icon().visible);
    i.set_cancelled(false);
    i.set_unreachable(true);
    assert!(i.unreachable_icon().visible);
    i.set_cancelled(true);
    assert!(!i.unreachable_icon().visible);
    assert!(i.cancelled_icon().visible);
    i.set_change_platform(false);
    assert!(i.change_platform_icon().css_classes.is_empty());
}

#[test]
fn old_store_data_converts() {
    assert_eq!(convert_mode(Mode::Train), TransportMode::RegionalTrain);
    assert_eq!(convert_mode(Mode::Gondola), TransportMode::Tram);
    assert_eq!(convert_mode(Mode::Walking), TransportMode::Unknown);
    assert_eq!(convert_load_factor(OldLoad::VeryHigh), ReportedLoad::VeryHigh);
    assert_eq!(convert_remark_type(RemarkType::Status), RemarkKind::Hint);
    let l = convert_line(Line {
        name: Some("S1".to_string()),
        fahrt_nr: None,
        mode: Mode::Watercraft,
        product: Product {
            id: "p".to_string(),
            mode: Mode::Bus,
            bitmasks: vec![1, 2],
            name: "Bus".to_string(),
            short: "B".to_string(),
        },
        operator: Some(Operator { id: "o".to_string(), name: "Op".to_string() }),
        product_name: None,
    });
    assert_eq!(l.mode, TransportMode::Ferry);
    assert_eq!(l.product.mode, TransportMode::Bus);
    assert_eq!(l.product.short, "B");
    assert_eq!(l.operator.map(|o| o.name), Some("Op".to_string()));
}

#[test]
fn arrow_keys_undo_and_restore() {
    for n in 1..5u32 {
        let mut starts: Vec<Option<u32>> = vec![None];
        starts.extend((0..n).map(Some));
        for s in starts {
            if let KeyNav::Select(up) = key_nav(false, NavKey::Up, s, n) {
                assert_eq!(key_nav(false, NavKey::Down, up, n), KeyNav::Select(s));
            }
            let mut cur = s;
            for _ in 0..=n {
                if let KeyNav::Select(next) = key_nav(false, NavKey::Down, cur, n) {
                    cur = next;
                }
            }
            assert_eq!(cur, s);
        }
    }
}
