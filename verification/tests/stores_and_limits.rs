use railway::request_limiter::{RequestLimiter, RequestStep};
use railway::search_store::{Search, SearchChange, SearchesStore};
use railway::timer::Timer;

fn search(o: &str, d: &str) -> Search {
    Search { origin: o.to_string(), destination: d.to_string() }
}

fn texts(s: &SearchesStore) -> Vec<(String, String)> {
    s.flush().iter().map(|x| (x.origin.clone(), x.destination.clone())).collect()
}

#[test]
fn searches_store_toggles() {
    let mut s = SearchesStore::new();
    assert!(matches!(s.store("A".to_string(), "B".to_string()), SearchChange::Added(_, _)));
    assert!(matches!(s.store("C".to_string(), "D".to_string()), SearchChange::Added(_, _)));
    assert_eq!(texts(&s), vec![("C".to_string(), "D".to_string()), ("A".to_string(), "B".to_string())]);
    match s.store("A".to_string(), "B".to_string()) {
        SearchChange::Removed(o, d) => {
            assert_eq!(o, "A");
            assert_eq!(d, "B");
        }
        _ => panic!("expected a removal"),
    }
    assert_eq!(texts(&s), vec![("C".to_string(), "D".to_string())]);
}

#[test]
fn searches_store_twice_restores() {
    let mut s = SearchesStore::new();
    s.store("A".to_string(), "B".to_string());
    let before = texts(&s);
    s.store("X".to_string(), "Y".to_string());
    s.store("X".to_string(), "Y".to_string());
    assert_eq!(texts(&s), before);
}

#[test]
fn searches_flush_then_setup_restores() {
    let mut s = SearchesStore::new();
    s.store("A".to_string(), "B".to_string());
    s.store("C".to_string(), "D".to_string());
    s.store("E".to_string(), "F".to_string());
    let saved: Vec<Search> = s.flush().clone();
    let mut t = SearchesStore::new();
    let changes = t.setup(saved);
    assert_eq!(changes.len(), 3);
    assert!(changes.iter().all(|c| matches!(c, SearchChange::Added(_, _))));
    assert_eq!(texts(&t), texts(&s));
}

#[test]
fn searches_setup_with_duplicates() {
    let mut t = SearchesStore::new();
    let changes = t.setup(vec![search("A", "B"), search("A", "B")]);
    assert!(matches!(changes[1], SearchChange::Removed(_, _)));
    assert!(texts(&t).is_empty());
}

#[test]
fn limiter_lets_first_request_through() {
    let mut l: RequestLimiter<String> = RequestLimiter::new(500, 1000);
    assert!(l.begin("a".to_string(), 1001) == RequestStep::Take);
    assert_eq!(l.take(), Some("a".to_string()));
    assert!(l.begin("b".to_string(), 1200) == RequestStep::Sleep(301));
    assert!(l.begin("c".to_string(), 1300) == RequestStep::Cancel);
    assert_eq!(l.wake(1501), Some("c".to_string()));
    assert!(l.begin("d".to_string(), 1600) == RequestStep::Sleep(401));
}

#[test]
fn limiter_at_unlock_time_takes() {
    let mut l: RequestLimiter<u32> = RequestLimiter::new(10, 0);
    assert!(l.begin(1, 0) == RequestStep::Take);
    assert_eq!(l.take(), Some(1));
    assert!(l.begin(2, 11) == RequestStep::Take);
    assert!(l.begin(3, 12) == RequestStep::Sleep(9));
    assert_eq!(l.wake(21), Some(3));
}

#[test]
fn timer_books() {
    let mut t = Timer::new();
    t.register_minutely("j".to_string());
    assert!(t.has_in_minutely("j"));
    assert!(!t.background_due("j"));
    assert!(t.background_due("k"));
    assert!(t.unregister_minutely("j"));
    assert!(!t.unregister_minutely("j"));
    t.register_background("k".to_string());
    assert!(t.unregister_background("k"));
    assert!(!t.has_in_minutely("j"));
}

#[test]
fn limiter_lets_one_request_through_per_timeout() {
    let mut l: RequestLimiter<u32> = RequestLimiter::new(100, 0);
    let mut through: Vec<u64> = Vec::new();
    let mut waiting: Option<u64> = None;
    for now in (5..1000u64).step_by(7) {
        if let Some(until) = waiting {
            if now >= until {
                assert!(l.wake(now).is_some());
                through.push(now);
                waiting = None;
            }
        }
        match l.begin(now as u32, now) {
            RequestStep::Take => {
                assert!(l.take().is_some());
                through.push(now);
            }
            RequestStep::Sleep(ms) => {
                assert!(waiting.is_none());
                waiting = Some(now + ms);
            }
            RequestStep::Cancel => assert!(waiting.is_some()),
        }
    }
    assert!(through.len() > 1);
    for w in through.windows(2) {
        assert!(w[0] + 100 <= w[1]);
    }
}
