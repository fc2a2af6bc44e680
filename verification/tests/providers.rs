use std::collections::HashSet;

use railway::discount_card::DiscountCard;
use railway::provider::{current_provider, providers, Provider, APP_ID};

#[test]
fn provider_list_complete() {
    let supported: HashSet<_> = railway_api::RailwayProviderType::variants()
        .iter()
        .map(|p| p.to_string().to_lowercase().replace(['-', '_'], ""))
        .collect();

    let used: HashSet<_> = providers()
        .into_iter()
        .map(|p| p.id.to_lowercase().replace(['-', '_'], ""))
        .collect();

    let extra: HashSet<_> = used.difference(&supported).collect();
    let missing: HashSet<_> = supported.difference(&used).collect();

    if !(extra.is_empty() && missing.is_empty()) {
        println!("Extra Providers: {:#?}", extra);
        println!("Missing Providers: {:#?}", missing);
        panic!("Mismatched used and available providers");
    }
}

#[test]
fn provider_icons_are_lower_case_ids() {
    let list = providers();
    assert_eq!(list.len(), 38);
    assert_eq!(list[0].id, "AVV");
    assert_eq!(list[0].icon_name, "avv");
    assert_eq!(list[0].short_name, "AVV");
    assert_eq!(list[0].name.as_deref(), Some("Aachener Verkehrsverbund"));
    assert_eq!(list[8].icon_name, "irish-rail");
    assert_eq!(list[37].id, "transitous");
    assert_eq!(list[37].regional_group, "");
}

#[test]
fn provider_without_icon_uses_the_app_icon() {
    let p = Provider::new("XY", "X", None, "Europe", false);
    assert_eq!(p.icon_name, APP_ID);
    assert!(p.name.is_none());
    let q = Provider::new("ÄBC", "A", Some("n"), "", true);
    assert_eq!(q.icon_name, "äbc");
}

#[test]
fn current_provider_by_id() {
    let p = current_provider("db").map(|p| p.id);
    assert_eq!(p, None);
    let q = current_provider("DB").map(|p| p.short_name);
    assert_eq!(q, Some("DB".to_string()));
    assert!(current_provider("search-ch").is_some());
    assert!(current_provider("").is_none());
}

#[test]
fn discount_card_name_is_translated_id() {
    let c = DiscountCard::new("bahncard-25-1");
    assert_eq!(c.id(), "bahncard-25-1");
    assert_eq!(c.name(), "bahncard-25-1");
}
