//! What the live view of a journey shows for the current event: which page,
//! the leg being ridden and the leg to take next, how long until the next
//! action, and the sentence that says so.

use vstd::prelude::*;

use crate::duration::{valid_instant, Duration};
use crate::i18n::{gettext, translation_of};
use crate::journey::{Event, JourneyData};
use crate::text::{opt_view, replace_all, replaced};
use crate::utility::{tabular_text, Utility};

verus! {

/// The page of the live view.
#[derive(Debug, Clone, Copy, PartialEq, Eq, Structural)]
pub enum LivePage {
    /// Before the journey.
    BeforeJourney,
    /// While riding a leg.
    InLeg,
    /// While changing to a leg.
    TransitionTo,
    /// After the journey.
    AfterJourney,
    /// The journey cannot be made.
    Unreachable,
    /// The journey is cancelled.
    Cancelled,
}

/// The page shown for an event; without an event the view is hidden and
/// the page before the journey is chosen.
pub open spec fn page_of(event: Option<Event>) -> LivePage {
    match event {
        Some(Event::BeforeJourney(_)) => LivePage::BeforeJourney,
        Some(Event::InLeg(_, _)) => LivePage::InLeg,
        Some(Event::TransitionTo(_)) => LivePage::TransitionTo,
        Some(Event::AfterJourney) => LivePage::AfterJourney,
        Some(Event::Unreachable) => LivePage::Unreachable,
        Some(Event::Cancelled) => LivePage::Cancelled,
        None => LivePage::BeforeJourney,
    }
}

/// The name of a page.
pub open spec fn page_name_spec(p: LivePage) -> Seq<char> {
    match p {
        LivePage::BeforeJourney => "before-journey"@,
        LivePage::InLeg => "in-leg"@,
        LivePage::TransitionTo => "transition-to"@,
        LivePage::AfterJourney => "after-journey"@,
        LivePage::Unreachable => "unreachable"@,
        LivePage::Cancelled => "cancelled"@,
    }
}

impl LivePage {
    /// The name of the page.
    pub fn name(&self) -> (r: &'static str)
        ensures
            r@ == page_name_spec(*self),
    {
        match self {
            LivePage::BeforeJourney => "before-journey",
            LivePage::InLeg => "in-leg",
            LivePage::TransitionTo => "transition-to",
            LivePage::AfterJourney => "after-journey",
            LivePage::Unreachable => "unreachable",
            LivePage::Cancelled => "cancelled",
        }
    }
}

/// What the live view shows for an event.
pub struct LiveView {
    /// The page.
    pub page: LivePage,
    /// The leg being ridden.
    pub current: Option<usize>,
    /// The leg to take next.
    pub next: Option<usize>,
    /// How long until the next action.
    pub wait: Option<Duration>,
}

/// Whether `v` is what the live view shows for `event` at `now`.
pub open spec fn is_live_view(v: LiveView, event: Option<Event>, journey: JourneyData, now: int) -> bool {
    &&& v.page == page_of(event)
    &&& v.current == match event {
        Some(e) => e.current_leg_spec(),
        None => None,
    }
    &&& v.next == match event {
        Some(e) => e.next_leg_spec(),
        None => None,
    }
    &&& match event {
        Some(e) => match e.next_action_spec(journey.legs@) {
            Some(t) => v.wait matches Some(d) && d.secs() == t - now,
            None => v.wait is None,
        },
        None => v.wait is None,
    }
}

/// What the live view shows for `event` at `now`.
pub fn live_view(event: Option<Event>, journey: &JourneyData, now: i64) -> (r: LiveView)
    requires
        journey.wf(),
        valid_instant(now as int),
        event matches Some(e) ==> e.valid_for(journey.legs@.len()),
    ensures
        is_live_view(r, event, *journey, now as int),
        r.current matches Some(i) ==> i < journey.legs@.len(),
        r.next matches Some(i) ==> i < journey.legs@.len(),
{
    let page = match event {
        Some(Event::BeforeJourney(_)) => LivePage::BeforeJourney,
        Some(Event::InLeg(_, _)) => LivePage::InLeg,
        Some(Event::TransitionTo(_)) => LivePage::TransitionTo,
        Some(Event::AfterJourney) => LivePage::AfterJourney,
        Some(Event::Unreachable) => LivePage::Unreachable,
        Some(Event::Cancelled) => LivePage::Cancelled,
        None => LivePage::BeforeJourney,
    };
    match event {
        Some(e) => {
            let next_action = e.time_of_next_action(journey);
            let wait = match next_action {
                Some(t) => {
                    let ghost i: int = match e {
                        Event::BeforeJourney(l) => l as int,
                        Event::InLeg(l, _) => l as int,
                        Event::TransitionTo(l) => l as int,
                        _ => 0,
                    };
                    assert(journey.legs@[i].wf());
                    Some(Duration::between(now, t))
                },
                None => None,
            };
            LiveView { page, current: e.current_leg(), next: e.next_leg(), wait }
        },
        None => LiveView { page, current: None, next: None, wait: None },
    }
}

/// The sentence before the journey: where to start, in how long, and on
/// which platform when known.  The platform is filled in first, then the
/// station, then the time.
pub open spec fn before_journey_text(
    platform_template: Seq<char>,
    template: Seq<char>,
    station: Seq<char>,
    duration: Seq<char>,
    platform: Option<Seq<char>>,
) -> Seq<char> {
    let t = match platform {
        Some(p) => replaced(platform_template, "{platform}"@, p),
        None => template,
    };
    replaced(replaced(t, "{station}"@, station), "{duration}"@, duration)
}

/// The sentence while riding: where the leg arrives and in how long.
pub open spec fn in_leg_text(template: Seq<char>, station: Seq<char>, duration: Seq<char>) -> Seq<char> {
    replaced(replaced(template, "{station}"@, station), "{duration}"@, duration)
}

/// The sentence while changing: the leg to take, on which platform when
/// known, and in how long.  The platform is filled in first, then the leg,
/// then the time.
pub open spec fn transition_text(
    platform_template: Seq<char>,
    template: Seq<char>,
    leg: Seq<char>,
    duration: Seq<char>,
    platform: Option<Seq<char>>,
) -> Seq<char> {
    let t = match platform {
        Some(p) => replaced(platform_template, "{platform}"@, p),
        None => template,
    };
    replaced(replaced(t, "{leg}"@, leg), "{duration}"@, duration)
}

/// Fills the sentence before the journey into the given templates.
pub fn fill_before_journey(
    platform_template: &str,
    template: &str,
    station: &str,
    duration: &str,
    platform: &Option<String>,
) -> (r: String)
    ensures
        r@ == before_journey_text(platform_template@, template@, station@, duration@, opt_view(*platform)),
{
    proof {
        reveal_strlit("{platform}");
        reveal_strlit("{station}");
        reveal_strlit("{duration}");
    }
    let t = match platform {
        Some(p) => replace_all(platform_template, "{platform}", p.as_str()),
        None => String::from_str(template),
    };
    let s = replace_all(t.as_str(), "{station}", station);
    replace_all(s.as_str(), "{duration}", duration)
}

/// Fills the sentence while riding into the given template.
pub fn fill_in_leg(template: &str, station: &str, duration: &str) -> (r: String)
    ensures
        r@ == in_leg_text(template@, station@, duration@),
{
    proof {
        reveal_strlit("{station}");
        reveal_strlit("{duration}");
    }
    let s = replace_all(template, "{station}", station);
    replace_all(s.as_str(), "{duration}", duration)
}

/// Fills the sentence while changing into the given templates.
pub fn fill_transition(
    platform_template: &str,
    template: &str,
    leg: &str,
    duration: &str,
    platform: &Option<String>,
) -> (r: String)
    ensures
        r@ == transition_text(platform_template@, template@, leg@, duration@, opt_view(*platform)),
{
    proof {
        reveal_strlit("{platform}");
        reveal_strlit("{leg}");
        reveal_strlit("{duration}");
    }
    let t = match platform {
        Some(p) => replace_all(platform_template, "{platform}", p.as_str()),
        None => String::from_str(template),
    };
    let s = replace_all(t.as_str(), "{leg}", leg);
    replace_all(s.as_str(), "{duration}", duration)
}

impl LiveView {
    /// The sentence before the journey, when a next leg and a waiting time
    /// are known: the origin of the next leg and its departure platform.
    pub fn before_journey_label(&self, journey: &JourneyData) -> (r: Option<String>)
        requires
            journey.wf(),
            self.next matches Some(i) ==> i < journey.legs@.len(),
        ensures
            r is Some <==> (self.next is Some && self.wait is Some),
            r matches Some(s) ==> {
                let leg = journey.legs@[self.next->0 as int];
                exists|a: Seq<char>, b: Seq<char>, d: Seq<char>|
                    translation_of("Start at {station} in {duration} on platform {platform}"@, a)
                        && translation_of("Start at {station} in {duration}"@, b) && tabular_text(
                        d,
                        self.wait->0.secs(),
                    ) && s@ == before_journey_text(
                        a,
                        b,
                        leg.origin.name_view(),
                        d,
                        opt_view(leg.departure_platform),
                    )
            },
    {
        match (self.next, self.wait) {
            (Some(i), Some(w)) => {
                let leg = &journey.legs[i];
                assert(leg.wf());
                let station = match leg.origin.name() {
                    Some(n) => n,
                    None => String::new(),
                };
                let duration = Utility::format_duration_tabular(w);
                let a = gettext("Start at {station} in {duration} on platform {platform}");
                let b = gettext("Start at {station} in {duration}");
                let r = fill_before_journey(
                    a.as_str(),
                    b.as_str(),
                    station.as_str(),
                    duration.as_str(),
                    &leg.departure_platform,
                );
                assert(r@ == before_journey_text(
                    a@,
                    b@,
                    leg.origin.name_view(),
                    duration@,
                    opt_view(leg.departure_platform),
                ));
                Some(r)
            },
            _ => None,
        }
    }

    /// The sentence while riding, when a current leg and a waiting time are
    /// known: the destination of the current leg.
    pub fn in_leg_label(&self, journey: &JourneyData) -> (r: Option<String>)
        requires
            journey.wf(),
            self.current matches Some(i) ==> i < journey.legs@.len(),
        ensures
            r is Some <==> (self.current is Some && self.wait is Some),
            r matches Some(s) ==> {
                let leg = journey.legs@[self.current->0 as int];
                exists|a: Seq<char>, d: Seq<char>|
                    translation_of("Arriving at {station} in {duration}"@, a) && tabular_text(
                        d,
                        self.wait->0.secs(),
                    ) && s@ == in_leg_text(a, leg.destination.name_view(), d)
            },
    {
        match (self.current, self.wait) {
            (Some(i), Some(w)) => {
                let leg = &journey.legs[i];
                assert(leg.wf());
                let station = match leg.destination.name() {
                    Some(n) => n,
                    None => String::new(),
                };
                let duration = Utility::format_duration_tabular(w);
                let a = gettext("Arriving at {station} in {duration}");
                let r = fill_in_leg(a.as_str(), station.as_str(), duration.as_str());
                assert(r@ == in_leg_text(a@, leg.destination.name_view(), duration@));
                Some(r)
            },
            _ => None,
        }
    }

    /// The sentence while changing, when a next leg and a waiting time are
    /// known: the name of the next leg and its departure platform.
    pub fn transition_to_label(&self, journey: &JourneyData) -> (r: Option<String>)
        requires
            journey.wf(),
            self.next matches Some(i) ==> i < journey.legs@.len(),
        ensures
            r is Some <==> (self.next is Some && self.wait is Some),
            r matches Some(s) ==> {
                let leg = journey.legs@[self.next->0 as int];
                exists|a: Seq<char>, b: Seq<char>, n: Seq<char>, d: Seq<char>|
                    translation_of("Transition to {leg} on platform {platform} in {duration}"@, a)
                        && translation_of("Transition to {leg} in {duration}"@, b) && tabular_text(
                        d,
                        self.wait->0.secs(),
                    ) && s@ == transition_text(a, b, n, d, opt_view(leg.departure_platform)) && (
                    match leg.line_name() {
                        Some(l) => n == l,
                        None => translation_of("Walk"@, n),
                    })
            },
    {
        match (self.next, self.wait) {
            (Some(i), Some(w)) => {
                let leg = &journey.legs[i];
                let name = leg.name();
                let duration = Utility::format_duration_tabular(w);
                let a = gettext("Transition to {leg} on platform {platform} in {duration}");
                let b = gettext("Transition to {leg} in {duration}");
                let r = fill_transition(
                    a.as_str(),
                    b.as_str(),
                    name.as_str(),
                    duration.as_str(),
                    &leg.departure_platform,
                );
                assert(r@ == transition_text(a@, b@, name@, duration@, opt_view(leg.departure_platform)));
                Some(r)
            },
            _ => None,
        }
    }
}

/// The live view shows each kind of event on its own page, named after it:
/// a cancelled journey on the "cancelled" page, one that cannot be made on
/// the "unreachable" page, and so on; two events of different kinds never
/// share a page.
pub proof fn lemma_live_page_of_event(v: LiveView, e: Event, journey: JourneyData, now: int)
    requires
        is_live_view(v, Some(e), journey, now),
    ensures
        e is BeforeJourney <==> v.page == LivePage::BeforeJourney,
        e is InLeg <==> v.page == LivePage::InLeg,
        e is TransitionTo <==> v.page == LivePage::TransitionTo,
        e is AfterJourney <==> v.page == LivePage::AfterJourney,
        e is Unreachable <==> v.page == LivePage::Unreachable,
        e is Cancelled <==> v.page == LivePage::Cancelled,
        e is Cancelled ==> page_name_spec(v.page) == "cancelled"@,
        e is Unreachable ==> page_name_spec(v.page) == "unreachable"@,
{
}

/// Events of different kinds are shown on different pages.
pub proof fn lemma_live_pages_distinct(e1: Event, e2: Event)
    requires
        page_of(Some(e1)) == page_of(Some(e2)),
    ensures
        (e1 is BeforeJourney && e2 is BeforeJourney) || (e1 is InLeg && e2 is InLeg) || (
        e1 is TransitionTo && e2 is TransitionTo) || (e1 is AfterJourney && e2 is AfterJourney) || (
        e1 is Unreachable && e2 is Unreachable) || (e1 is Cancelled && e2 is Cancelled),
{
}

} // verus!
