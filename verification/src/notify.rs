//! What the traveller is notified of while a journey is watched, and what
//! has been notified already so nothing is sent twice.

use vstd::prelude::*;

use crate::assoc::{TextMap, TextSet};
use crate::duration::{trunc_div, Duration, MAX_SPAN};
use crate::i18n::{gettext, translation_of};
use crate::journey::{Alert, Event, JourneyData};
use crate::leg::Leg;
use crate::place::Place;
use crate::text::{opt_view, replace_all, replaced};
use crate::utility::{inline_text, local_time_shown, Utility};

verus! {

/// Bound on the delay, in minutes, recorded as notified.
pub const MAX_NOTIFIED_MINUTES: i64 = 300_000_000_000;

/// What has been notified for a journey.
pub struct NotifyStatus {
    /// Whether the start of the journey was announced.
    pub beginning_of_journey: bool,
    /// The legs (by id) whose coming end was announced.
    pub in_leg_soon_transition: TextSet,
    /// Whether the journey was announced unreachable.
    pub unreachable: bool,
    /// Whether the journey was announced cancelled.
    pub cancelled: bool,
    /// The departure delay, in minutes, last announced for each leg (by id).
    pub departure_delays: TextMap<i64>,
    /// The arrival delay, in minutes, last announced for each leg (by id).
    pub arrival_delays: TextMap<i64>,
    /// The departure platform last announced for each leg (by id).
    pub departure_platform_changes: TextMap<String>,
}

/// The contents of a [`NotifyStatus`].
pub struct NotifyView {
    /// Whether the start of the journey was announced.
    pub beginning_of_journey: bool,
    /// The legs whose coming end was announced.
    pub in_leg_soon_transition: Set<Seq<char>>,
    /// Whether the journey was announced unreachable.
    pub unreachable: bool,
    /// Whether the journey was announced cancelled.
    pub cancelled: bool,
    /// The departure delays announced.
    pub departure_delays: Map<Seq<char>, i64>,
    /// The arrival delays announced.
    pub arrival_delays: Map<Seq<char>, i64>,
    /// The departure platforms announced.
    pub departure_platform_changes: Map<Seq<char>, String>,
}

/// Something to notify the traveller of.  Legs are given by their position
/// in the journey; delays are in seconds.
#[derive(Debug, Clone, Copy, PartialEq, Eq, Structural)]
pub enum Notice {
    /// The journey starts soon with the leg.
    StartsSoon(usize),
    /// The leg ridden ends soon, and the traveller changes to the other.
    TransitionSoon(usize, usize),
    /// The leg ridden, the last one, ends soon.
    ArrivingSoon(usize),
    /// A leg cannot be reached.
    Unreachable,
    /// The journey is cancelled.
    Cancelled,
    /// The leg departs late by the delay.
    DepartureDelayed(usize, i64),
    /// The leg arrives late by the delay.
    ArrivalDelayed(usize, i64),
    /// The leg departs from another platform.
    DeparturePlatformChanged(usize),
}

/// Whether every recorded delay lies within the bound.
pub open spec fn delays_bounded(m: Map<Seq<char>, i64>) -> bool {
    forall|k: Seq<char>|
        #[trigger] m.contains_key(k) ==> -MAX_NOTIFIED_MINUTES <= m[k] <= MAX_NOTIFIED_MINUTES
}

impl NotifyView {
    /// Whether the recorded delays lie within the bound.
    pub open spec fn wf(self) -> bool {
        delays_bounded(self.departure_delays) && delays_bounded(self.arrival_delays)
    }
}

impl NotifyStatus {
    /// The contents of the status.
    pub open spec fn view(&self) -> NotifyView {
        NotifyView {
            beginning_of_journey: self.beginning_of_journey,
            in_leg_soon_transition: self.in_leg_soon_transition.view_set(),
            unreachable: self.unreachable,
            cancelled: self.cancelled,
            departure_delays: self.departure_delays.map_view(),
            arrival_delays: self.arrival_delays.map_view(),
            departure_platform_changes: self.departure_platform_changes.map_view(),
        }
    }

    /// Whether the recorded delays lie within the bound and no leg is
    /// recorded twice.
    pub open spec fn wf(&self) -> bool {
        &&& self.view().wf()
        &&& self.departure_delays.wf()
        &&& self.arrival_delays.wf()
        &&& self.departure_platform_changes.wf()
    }

    /// The contents of a status with nothing notified.
    pub open spec fn new_view() -> NotifyView {
        NotifyView {
            beginning_of_journey: false,
            in_leg_soon_transition: Set::empty(),
            unreachable: false,
            cancelled: false,
            departure_delays: Map::empty(),
            arrival_delays: Map::empty(),
            departure_platform_changes: Map::empty(),
        }
    }

    /// A status with nothing notified.
    pub fn new() -> (r: NotifyStatus)
        ensures
            r.view() == (NotifyView {
                beginning_of_journey: false,
                in_leg_soon_transition: Set::empty(),
                unreachable: false,
                cancelled: false,
                departure_delays: Map::empty(),
                arrival_delays: Map::empty(),
                departure_platform_changes: Map::empty(),
            }),
            r.wf(),
    {
        NotifyStatus {
            beginning_of_journey: false,
            in_leg_soon_transition: TextSet::new(),
            unreachable: false,
            cancelled: false,
            departure_delays: TextMap::new(),
            arrival_delays: TextMap::new(),
            departure_platform_changes: TextMap::new(),
        }
    }

    /// Checks that the recorded delays lie within the bound, as they do for
    /// every status this library builds.
    pub fn is_well_formed(&self) -> (r: bool)
        ensures
            r == self.wf(),
    {
        self.departure_delays.is_well_formed() && self.arrival_delays.is_well_formed()
            && self.departure_platform_changes.is_well_formed() && bounded_entries(
            &self.departure_delays,
        ) && bounded_entries(&self.arrival_delays)
    }
}

/// Whether all delays of a map lie within the bound.
fn bounded_entries(m: &TextMap<i64>) -> (r: bool)
    requires
        m.wf(),
    ensures
        r == delays_bounded(m.map_view()),
{
    let entries = m.entries();
    let n = entries.len();
    let mut i: usize = 0;
    while i < n
        invariant
            n == entries@.len(),
            entries@ == m.entries_spec(),
            m.wf(),
            i <= n,
            forall|j: int|
                0 <= j < i ==> -MAX_NOTIFIED_MINUTES <= (#[trigger] entries@[j]).1
                    <= MAX_NOTIFIED_MINUTES,
        decreases n - i,
    {
        let v = entries[i].1;
        if v < -MAX_NOTIFIED_MINUTES || v > MAX_NOTIFIED_MINUTES {
            proof {
                m.lemma_entry_found(i as int);
            }
            return false;
        }
        i += 1;
    }
    proof {
        m.lemma_found_entry();
    }
    true
}

/// The notice of an event at time `now`, and the status after it.  The start
/// of the journey is announced once, less than an hour before; the coming
/// end of a ridden leg once per leg, less than five minutes before; an
/// unreachable or cancelled journey once.
pub open spec fn event_notice(e: Event, legs: Seq<Leg>, now: int, st: NotifyView) -> (
    Option<Notice>,
    NotifyView,
) {
    let until: Option<int> = match e.next_action_spec(legs) {
        Some(t) => Some(t - now),
        None => None,
    };
    match e {
        Event::BeforeJourney(l) => if until matches Some(d) && d < 3600 && !st.beginning_of_journey {
            (
                Some(Notice::StartsSoon(l)),
                NotifyView {
                    beginning_of_journey: true,
                    in_leg_soon_transition: st.in_leg_soon_transition,
                    unreachable: st.unreachable,
                    cancelled: st.cancelled,
                    departure_delays: st.departure_delays,
                    arrival_delays: st.arrival_delays,
                    departure_platform_changes: st.departure_platform_changes,
                },
            )
        } else {
            (None, st)
        },
        Event::InLeg(c, next) => if until matches Some(d) && d < 300
            && !st.in_leg_soon_transition.contains(legs[c as int].id@) {
            (
                Some(
                    match next {
                        Some(n) => Notice::TransitionSoon(c, n),
                        None => Notice::ArrivingSoon(c),
                    },
                ),
                NotifyView {
                    beginning_of_journey: st.beginning_of_journey,
                    in_leg_soon_transition: st.in_leg_soon_transition.insert(legs[c as int].id@),
                    unreachable: st.unreachable,
                    cancelled: st.cancelled,
                    departure_delays: st.departure_delays,
                    arrival_delays: st.arrival_delays,
                    departure_platform_changes: st.departure_platform_changes,
                },
            )
        } else {
            (None, st)
        },
        Event::Unreachable => if !st.unreachable {
            (
                Some(Notice::Unreachable),
                NotifyView {
                    beginning_of_journey: st.beginning_of_journey,
                    in_leg_soon_transition: st.in_leg_soon_transition,
                    unreachable: true,
                    cancelled: st.cancelled,
                    departure_delays: st.departure_delays,
                    arrival_delays: st.arrival_delays,
                    departure_platform_changes: st.departure_platform_changes,
                },
            )
        } else {
            (None, st)
        },
        Event::Cancelled => if !st.cancelled {
            (
                Some(Notice::Cancelled),
                NotifyView {
                    beginning_of_journey: st.beginning_of_journey,
                    in_leg_soon_transition: st.in_leg_soon_transition,
                    unreachable: st.unreachable,
                    cancelled: true,
                    departure_delays: st.departure_delays,
                    arrival_delays: st.arrival_delays,
                    departure_platform_changes: st.departure_platform_changes,
                },
            )
        } else {
            (None, st)
        },
        _ => (None, st),
    }
}

/// The delay last announced in a map; zero when none was.
pub open spec fn announced(m: Map<Seq<char>, i64>, id: Seq<char>) -> int {
    if m.contains_key(id) {
        m[id] as int
    } else {
        0
    }
}

/// Whether a delay is worth announcing: it grew by five minutes or more over
/// the one last announced.
pub open spec fn delay_grew(delay: int, announced_minutes: int) -> bool {
    delay - announced_minutes * 60 >= 300
}

/// The notice of one alert, and the status after it.  A delay is announced
/// when it grew by five minutes or more since last announced for the leg,
/// and is then recorded in whole minutes; a changed departure platform is
/// announced unless the same platform was announced for the leg already.
pub open spec fn alert_notice(a: Alert, legs: Seq<Leg>, st: NotifyView) -> (Option<Notice>, NotifyView) {
    match a {
        Alert::DepartureDelayed(i) => {
            let leg = legs[i as int];
            match (leg.departure, leg.planned_departure) {
                (Some(d), Some(p)) => if delay_grew(d - p, announced(st.departure_delays, leg.id@)) {
                    (
                        Some(Notice::DepartureDelayed(i, (d - p) as i64)),
                        NotifyView {
                            beginning_of_journey: st.beginning_of_journey,
                            in_leg_soon_transition: st.in_leg_soon_transition,
                            unreachable: st.unreachable,
                            cancelled: st.cancelled,
                            departure_delays: st.departure_delays.insert(
                                leg.id@,
                                trunc_div(d - p, 60) as i64,
                            ),
                            arrival_delays: st.arrival_delays,
                            departure_platform_changes: st.departure_platform_changes,
                        },
                    )
                } else {
                    (None, st)
                },
                _ => (None, st),
            }
        },
        Alert::ArrivalDelayed(i) => {
            let leg = legs[i as int];
            match (leg.arrival, leg.planned_arrival) {
                (Some(d), Some(p)) => if delay_grew(d - p, announced(st.arrival_delays, leg.id@)) {
                    (
                        Some(Notice::ArrivalDelayed(i, (d - p) as i64)),
                        NotifyView {
                            beginning_of_journey: st.beginning_of_journey,
                            in_leg_soon_transition: st.in_leg_soon_transition,
                            unreachable: st.unreachable,
                            cancelled: st.cancelled,
                            departure_delays: st.departure_delays,
                            arrival_delays: st.arrival_delays.insert(
                                leg.id@,
                                trunc_div(d - p, 60) as i64,
                            ),
                            departure_platform_changes: st.departure_platform_changes,
                        },
                    )
                } else {
                    (None, st)
                },
                _ => (None, st),
            }
        },
        Alert::DeparturePlatformChange(i) => {
            let leg = legs[i as int];
            let platform = leg.departure_platform.unwrap();
            if st.departure_platform_changes.contains_key(leg.id@)
                && st.departure_platform_changes[leg.id@]@ == platform@ {
                (None, st)
            } else {
                (
                    Some(Notice::DeparturePlatformChanged(i)),
                    NotifyView {
                        beginning_of_journey: st.beginning_of_journey,
                        in_leg_soon_transition: st.in_leg_soon_transition,
                        unreachable: st.unreachable,
                        cancelled: st.cancelled,
                        departure_delays: st.departure_delays,
                        arrival_delays: st.arrival_delays,
                        departure_platform_changes: st.departure_platform_changes.insert(
                            leg.id@,
                            platform,
                        ),
                    },
                )
            }
        },
    }
}

/// The sequence of an optional notice.
pub open spec fn notice_seq(n: Option<Notice>) -> Seq<Notice> {
    match n {
        Some(x) => seq![x],
        None => Seq::empty(),
    }
}

/// The notices of a list of alerts, taken in order, and the status after
/// them.
pub open spec fn alerts_notices(alerts: Seq<Alert>, legs: Seq<Leg>, st: NotifyView) -> (
    Seq<Notice>,
    NotifyView,
)
    decreases alerts.len(),
{
    if alerts.len() == 0 {
        (Seq::empty(), st)
    } else {
        let prev = alerts_notices(alerts.drop_last(), legs, st);
        let step = alert_notice(alerts.last(), legs, prev.1);
        (prev.0 + notice_seq(step.0), step.1)
    }
}

/// Whether the alerts can be announced: every leg alerted for a changed
/// departure platform has a real-time departure platform.
pub open spec fn platforms_known(alerts: Seq<Alert>, legs: Seq<Leg>) -> bool {
    forall|k: int|
        0 <= k < alerts.len() ==> match #[trigger] alerts[k] {
            Alert::DeparturePlatformChange(i) => legs[i as int].departure_platform is Some,
            _ => true,
        }
}

/// Whether instants and recorded delays keep the arithmetic of the alerts
/// in range.
pub open spec fn alert_arith_ok(legs: Seq<Leg>) -> bool {
    forall|i: int| 0 <= i < legs.len() ==> (#[trigger] legs[i]).wf()
}

} // verus!

verus! {

/// A notification to show: an id (a notification with the id of an earlier
/// one replaces it), a title and maybe a body.
pub struct Notification {
    /// Identifies what the notification is about.
    pub id: String,
    /// The title.
    pub title: String,
    /// The body, if any.
    pub body: Option<String>,
}

/// The id of the notification of a notice: the journey's id for notices of
/// its current event, the leg's id for alerts on a leg.
pub open spec fn notice_id(n: Notice, legs: Seq<Leg>, journey_id: Seq<char>) -> Seq<char> {
    match n {
        Notice::DepartureDelayed(l, _) => "railway-leg-departure-delayed-"@ + legs[l as int].id@,
        Notice::ArrivalDelayed(l, _) => "railway-leg-arrival-delayed-"@ + legs[l as int].id@,
        Notice::DeparturePlatformChanged(l) => "railway-leg-departure-platform-changed-"@
            + legs[l as int].id@,
        _ => "railway-journey-current-event-"@ + journey_id,
    }
}

/// Whether a notice names legs of a journey with `n` legs.
pub open spec fn notice_valid(x: Notice, n: nat) -> bool {
    match x {
        Notice::StartsSoon(l) => l < n,
        Notice::TransitionSoon(l, m) => l < n && m < n,
        Notice::ArrivingSoon(l) => l < n,
        Notice::DepartureDelayed(l, _) => l < n,
        Notice::ArrivalDelayed(l, _) => l < n,
        Notice::DeparturePlatformChanged(l) => l < n,
        _ => true,
    }
}

/// Whether a notice has a body: the start of a journey always has one, a
/// change when the platform or the time for it is known, others never.
pub open spec fn notice_has_body(x: Notice, legs: Seq<Leg>) -> bool {
    match x {
        Notice::StartsSoon(_) => true,
        Notice::TransitionSoon(c, n) => legs[n as int].departure_platform is Some || (
        legs[n as int].departure is Some && legs[c as int].arrival is Some),
        _ => false,
    }
}

/// The title of a notice, from the translation `t` of its title template:
/// the name of the journey's destination, of the station changed at, of
/// the destination of the last leg, or of the line with the delay or
/// platform, put in place.
pub open spec fn notice_title(
    x: Notice,
    legs: Seq<Leg>,
    t: Seq<char>,
    delay_text: Seq<char>,
    leg_name: Seq<char>,
) -> Seq<char> {
    match x {
        Notice::StartsSoon(_) => replaced(t, "{destination}"@, legs.last().destination.name_view()),
        Notice::TransitionSoon(c, _) => replaced(t, "{station}"@, legs[c as int].destination.name_view()),
        Notice::ArrivingSoon(c) => replaced(t, "{destination}"@, legs[c as int].destination.name_view()),
        Notice::Unreachable => t,
        Notice::Cancelled => t,
        Notice::DepartureDelayed(_, _) => replaced(replaced(t, "{train}"@, leg_name), "{time}"@, delay_text),
        Notice::ArrivalDelayed(_, _) => replaced(replaced(t, "{train}"@, leg_name), "{time}"@, delay_text),
        Notice::DeparturePlatformChanged(l) => replaced(
            replaced(t, "{train}"@, leg_name),
            "{platform}"@,
            opt_view(legs[l as int].departure_platform).unwrap_or(Seq::empty()),
        ),
    }
}

/// The message id of the title of a notice.
pub open spec fn notice_title_msgid(x: Notice) -> Seq<char> {
    match x {
        Notice::StartsSoon(_) => "Your trip to {destination} starts soon"@,
        Notice::TransitionSoon(_, _) => "You need to transition in {station} soon"@,
        Notice::ArrivingSoon(_) => "You will arrive in {destination} soon"@,
        Notice::Unreachable => "Connection Unreachable"@,
        Notice::Cancelled => "The journey was cancelled"@,
        Notice::DepartureDelayed(_, _) => "{train} departure is delayed by {time}"@,
        Notice::ArrivalDelayed(_, _) => "{train} arrival is delayed by {time}"@,
        Notice::DeparturePlatformChanged(_) => "{train} arrival is departuring on platform {platform} today"@,
    }
}

/// Whether `time` is the departure time told by the notice of a starting
/// journey: hours and minutes of a time of day in the machine's time zone.
pub open spec fn notice_start_shown(x: Notice, time: Seq<char>) -> bool {
    match x {
        Notice::StartsSoon(_) => local_time_shown(time),
        _ => true,
    }
}

/// Whether the time between the arrival of the leg changed from and the
/// departure of the leg changed to is known, for a change.
pub open spec fn transition_gap_known(x: Notice, legs: Seq<Leg>) -> bool {
    match x {
        Notice::TransitionSoon(c, n) => legs[n as int].departure is Some && legs[c as int].arrival
            is Some,
        _ => false,
    }
}

/// The message id of the body of a notice; empty for a notice without a
/// body.  The start of a journey names its platform when known; a change
/// tells the time for it and the platform, those of them that are known.
pub open spec fn notice_body_msgid(x: Notice, legs: Seq<Leg>) -> Seq<char> {
    match x {
        Notice::StartsSoon(l) => if legs[l as int].departure_platform is Some {
            "Start in {station} on platform {platform} at {time}"@
        } else {
            "Start in {station} at {time}"@
        },
        Notice::TransitionSoon(_, n) => if legs[n as int].departure_platform is Some
            && transition_gap_known(x, legs) {
            "You have {time} to get to platform {platform}"@
        } else if transition_gap_known(x, legs) {
            "You have {time} for the transition"@
        } else if legs[n as int].departure_platform is Some {
            "Transition to platform {platform}"@
        } else {
            Seq::empty()
        },
        _ => Seq::empty(),
    }
}

/// The body of a notice, from the translation `b` of its body template, the
/// text `gap` of the time for a change and the departure time `start_time`
/// of the journey: the platform, the station and the time put in place.
pub open spec fn notice_body(
    x: Notice,
    legs: Seq<Leg>,
    b: Seq<char>,
    gap: Seq<char>,
    start_time: Seq<char>,
) -> Option<Seq<char>> {
    match x {
        Notice::StartsSoon(l) => {
            let leg = legs[l as int];
            let with_platform = match leg.departure_platform {
                Some(p) => replaced(b, "{platform}"@, p@),
                None => b,
            };
            Some(
                replaced(
                    replaced(with_platform, "{station}"@, leg.origin.name_view()),
                    "{time}"@,
                    start_time,
                ),
            )
        },
        Notice::TransitionSoon(_, n) => match legs[n as int].departure_platform {
            Some(p) => if transition_gap_known(x, legs) {
                Some(replaced(replaced(b, "{time}"@, gap), "{platform}"@, p@))
            } else {
                Some(replaced(b, "{platform}"@, p@))
            },
            None => if transition_gap_known(x, legs) {
                Some(replaced(b, "{time}"@, gap))
            } else {
                None
            },
        },
        _ => None,
    }
}

/// Whether `d` is the text of the delay of a delay notice: the delay within
/// a sentence, or empty for a delay beyond the bound of a span.
pub open spec fn notice_delay_shown(x: Notice, d: Seq<char>) -> bool {
    match x {
        Notice::DepartureDelayed(_, secs) => if -MAX_SPAN <= secs <= MAX_SPAN {
            inline_text(d, secs as int)
        } else {
            d == Seq::<char>::empty()
        },
        Notice::ArrivalDelayed(_, secs) => if -MAX_SPAN <= secs <= MAX_SPAN {
            inline_text(d, secs as int)
        } else {
            d == Seq::<char>::empty()
        },
        _ => true,
    }
}

/// Whether `name` is the name of the leg of a notice on a leg: the name of
/// its line, or a translation of "Walk".
pub open spec fn notice_leg_name_shown(x: Notice, legs: Seq<Leg>, name: Seq<char>) -> bool {
    let l = match x {
        Notice::DepartureDelayed(l, _) => Some(l),
        Notice::ArrivalDelayed(l, _) => Some(l),
        Notice::DeparturePlatformChanged(l) => Some(l),
        _ => None,
    };
    match l {
        Some(l) => match legs[l as int].line_name() {
            Some(n) => name == n,
            None => translation_of("Walk"@, name),
        },
        None => true,
    }
}

/// Whether `g` is the text of the time for a change, when it is known: the
/// span within a sentence.
pub open spec fn notice_gap_shown(x: Notice, legs: Seq<Leg>, g: Seq<char>) -> bool {
    match x {
        Notice::TransitionSoon(c, n) => match (legs[n as int].departure, legs[c as int].arrival) {
            (Some(d), Some(a)) => inline_text(g, d - a),
            _ => true,
        },
        _ => true,
    }
}

/// Concatenation of two texts.
fn concat(a: &str, b: &str) -> (r: String)
    ensures
        r@ == a@ + b@,
{
    let mut r = String::from_str(a);
    r.append(b);
    r
}

impl Notice {
    /// Whether the notice names legs of a journey with `n` legs.
    pub open spec fn valid_for(self, n: nat) -> bool {
        notice_valid(self, n)
    }

    /// The id of the notification.
    pub fn notification_id(&self, journey: &JourneyData) -> (r: String)
        requires
            self.valid_for(journey.legs@.len()),
        ensures
            r@ == notice_id(*self, journey.legs@, journey.id@),
    {
        proof {
            reveal_strlit("railway-leg-departure-delayed-");
        }
        match self {
            Notice::DepartureDelayed(l, _) => concat(
                "railway-leg-departure-delayed-",
                journey.legs[*l].id.as_str(),
            ),
            Notice::ArrivalDelayed(l, _) => concat(
                "railway-leg-arrival-delayed-",
                journey.legs[*l].id.as_str(),
            ),
            Notice::DeparturePlatformChanged(l) => concat(
                "railway-leg-departure-platform-changed-",
                journey.legs[*l].id.as_str(),
            ),
            _ => concat("railway-journey-current-event-", journey.id.as_str()),
        }
    }

    /// The notification for the notice, in the user's language.  The
    /// notice of a starting journey tells in its body the departure time of
    /// the leg to start with, as the leg shows it.
    pub fn render(&self, journey: &JourneyData) -> (r: Notification)
        requires
            self.valid_for(journey.legs@.len()),
            journey.legs@.len() > 0,
            journey.wf(),
            *self matches Notice::StartsSoon(l) ==> journey.legs@[l as int].departure is Some,
        ensures
            r.id@ == notice_id(*self, journey.legs@, journey.id@),
            (r.body is Some) == notice_has_body(*self, journey.legs@),
            exists|
                t: Seq<char>,
                b: Seq<char>,
                d: Seq<char>,
                name: Seq<char>,
                g: Seq<char>,
                start_time: Seq<char>,
            |
                #![trigger notice_title(*self, journey.legs@, t, d, name), notice_body(*self, journey.legs@, b, g, start_time)]
                {
                    &&& translation_of(notice_title_msgid(*self), t)
                    &&& translation_of(notice_body_msgid(*self, journey.legs@), b)
                    &&& notice_delay_shown(*self, d)
                    &&& notice_leg_name_shown(*self, journey.legs@, name)
                    &&& notice_gap_shown(*self, journey.legs@, g)
                    &&& notice_start_shown(*self, start_time)
                    &&& r.title@ == notice_title(*self, journey.legs@, t, d, name)
                    &&& opt_view(r.body) == notice_body(*self, journey.legs@, b, g, start_time)
                },
    {
        proof {
            reveal_strlit("{destination}");
            reveal_strlit("{station}");
            reveal_strlit("{platform}");
            reveal_strlit("{time}");
            reveal_strlit("{train}");
        }
        let id = self.notification_id(journey);
        let n = journey.legs.len();
        let last = &journey.legs[n - 1];
        assert(journey.legs@[n - 1].wf());
        let ghost legs = journey.legs@;
        let ghost empty = Seq::<char>::empty();
        let ghost start_time = empty;
        match self {
            Notice::StartsSoon(l) => {
                let leg = &journey.legs[*l];
                assert(journey.legs@[*l as int].wf());
                let destination = name_of(&last.destination);
                let origin = name_of(&leg.origin);
                let t = gettext("Your trip to {destination} starts soon");
                let title = replace_all(t.as_str(), "{destination}", destination.as_str());
                let (with_platform, b) = match &leg.departure_platform {
                    Some(p) => {
                        let b = gettext("Start in {station} on platform {platform} at {time}");
                        (replace_all(b.as_str(), "{platform}", p.as_str()), b)
                    },
                    None => {
                        let b = gettext("Start in {station} at {time}");
                        (b.clone(), b)
                    },
                };
                let start = match leg.departure_time() {
                    Some(x) => x,
                    None => String::new(),
                };
                let b1 = replace_all(with_platform.as_str(), "{station}", origin.as_str());
                let body = replace_all(b1.as_str(), "{time}", start.as_str());
                assert(title@ == notice_title(*self, legs, t@, empty, empty));
                assert(Some(body@) == notice_body(*self, legs, b@, empty, start@));
                assert(notice_start_shown(*self, start@));
                Notification { id, title, body: Some(body) }
            },
            Notice::TransitionSoon(c, next) => {
                let current = &journey.legs[*c];
                let following = &journey.legs[*next];
                assert(journey.legs@[*c as int].wf());
                assert(journey.legs@[*next as int].wf());
                let station = name_of(&current.destination);
                let t = gettext("You need to transition in {station} soon");
                let title = replace_all(t.as_str(), "{station}", station.as_str());
                let gap: Option<String> = match (following.departure, current.arrival) {
                    (Some(d), Some(a)) => Some(Utility::format_duration_inline(Duration::between(a, d))),
                    _ => None,
                };
                let g: String = match &gap {
                    Some(x) => x.clone(),
                    None => String::new(),
                };
                let (body, b) = match (&following.departure_platform, gap) {
                    (Some(p), Some(g)) => {
                        let b = gettext("You have {time} to get to platform {platform}");
                        let b1 = replace_all(b.as_str(), "{time}", g.as_str());
                        (Some(replace_all(b1.as_str(), "{platform}", p.as_str())), b)
                    },
                    (None, Some(g)) => {
                        let b = gettext("You have {time} for the transition");
                        (Some(replace_all(b.as_str(), "{time}", g.as_str())), b)
                    },
                    (Some(p), None) => {
                        let b = gettext("Transition to platform {platform}");
                        (Some(replace_all(b.as_str(), "{platform}", p.as_str())), b)
                    },
                    (None, None) => (None, String::new()),
                };
                assert(title@ == notice_title(*self, legs, t@, empty, empty));
                assert(opt_view(body) == notice_body(*self, legs, b@, g@, start_time));
                assert(notice_gap_shown(*self, legs, g@));
                Notification { id, title, body }
            },
            Notice::ArrivingSoon(c) => {
                let current = &journey.legs[*c];
                assert(journey.legs@[*c as int].wf());
                let destination = name_of(&current.destination);
                let t = gettext("You will arrive in {destination} soon");
                let title = replace_all(t.as_str(), "{destination}", destination.as_str());
                assert(title@ == notice_title(*self, legs, t@, empty, empty));
                assert(None::<Seq<char>> == notice_body(*self, legs, empty, empty, start_time));
                Notification { id, title, body: None }
            },
            Notice::Unreachable => {
                let title = gettext("Connection Unreachable");
                assert(title@ == notice_title(*self, legs, title@, empty, empty));
                assert(None::<Seq<char>> == notice_body(*self, legs, empty, empty, start_time));
                Notification { id, title, body: None }
            },
            Notice::Cancelled => {
                let title = gettext("The journey was cancelled");
                assert(title@ == notice_title(*self, legs, title@, empty, empty));
                assert(None::<Seq<char>> == notice_body(*self, legs, empty, empty, start_time));
                Notification { id, title, body: None }
            },
            Notice::DepartureDelayed(l, secs) => {
                let train = journey.legs[*l].name();
                let delay = match Duration::try_seconds(*secs) {
                    Some(d) => Utility::format_duration_inline(d),
                    None => String::new(),
                };
                let t = gettext("{train} departure is delayed by {time}");
                let t1 = replace_all(t.as_str(), "{train}", train.as_str());
                let title = replace_all(t1.as_str(), "{time}", delay.as_str());
                assert(title@ == notice_title(*self, legs, t@, delay@, train@));
                assert(None::<Seq<char>> == notice_body(*self, legs, empty, empty, start_time));
                Notification { id, title, body: None }
            },
            Notice::ArrivalDelayed(l, secs) => {
                let train = journey.legs[*l].name();
                let delay = match Duration::try_seconds(*secs) {
                    Some(d) => Utility::format_duration_inline(d),
                    None => String::new(),
                };
                let t = gettext("{train} arrival is delayed by {time}");
                let t1 = replace_all(t.as_str(), "{train}", train.as_str());
                let title = replace_all(t1.as_str(), "{time}", delay.as_str());
                assert(title@ == notice_title(*self, legs, t@, delay@, train@));
                assert(None::<Seq<char>> == notice_body(*self, legs, empty, empty, start_time));
                Notification { id, title, body: None }
            },
            Notice::DeparturePlatformChanged(l) => {
                let leg = &journey.legs[*l];
                let train = leg.name();
                let platform = match &leg.departure_platform {
                    Some(p) => p.clone(),
                    None => String::new(),
                };
                let t = gettext("{train} arrival is departuring on platform {platform} today");
                let t1 = replace_all(t.as_str(), "{train}", train.as_str());
                let title = replace_all(t1.as_str(), "{platform}", platform.as_str());
                assert(title@ == notice_title(*self, legs, t@, empty, train@));
                assert(None::<Seq<char>> == notice_body(*self, legs, empty, empty, start_time));
                Notification { id, title, body: None }
            },
        }
    }
}

/// The name of a place that can be named.
fn name_of(p: &Place) -> (r: String)
    requires
        p.named(),
    ensures
        r@ == p.name_view(),
{
    match p.name() {
        Some(n) => n,
        None => String::new(),
    }
}

/// Whether no two legs share an id.
pub open spec fn distinct_leg_ids(legs: Seq<Leg>) -> bool {
    forall|i: int, j: int| 0 <= i < j < legs.len() ==> legs[i].id@ != legs[j].id@
}

/// Whether an alert is announced nothing in the status `st`.
pub open spec fn settled(a: Alert, legs: Seq<Leg>, st: NotifyView) -> bool {
    alert_notice(a, legs, st).0 is None
}

/// A delay recorded in whole minutes is less than five minutes short of
/// itself.
proof fn lemma_recorded_delay(x: int)
    ensures
        x - trunc_div(x, 60) * 60 < 300,
{
    if x >= 0 {
        assert(x - (x / 60) * 60 < 60);
    } else {
        assert((-x) - ((-x) / 60) * 60 >= 0);
    }
}

/// Announcing an alert settles it.
proof fn lemma_alert_settles(a: Alert, legs: Seq<Leg>, st: NotifyView)
    requires
        a.leg_spec() < legs.len(),
        legs[a.leg_spec() as int].wf(),
    ensures
        settled(a, legs, alert_notice(a, legs, st).1),
{
    let leg = legs[a.leg_spec() as int];
    match a {
        Alert::DepartureDelayed(i) => {
            if let (Some(d), Some(p)) = (leg.departure, leg.planned_departure) {
                lemma_recorded_delay(d - p);
            }
        },
        Alert::ArrivalDelayed(i) => {
            if let (Some(d), Some(p)) = (leg.arrival, leg.planned_arrival) {
                lemma_recorded_delay(d - p);
            }
        },
        Alert::DeparturePlatformChange(i) => {},
    }
}

/// Announcing one alert keeps every settled alert settled, when legs have
/// distinct ids.
proof fn lemma_alert_keeps_settled(a: Alert, b: Alert, legs: Seq<Leg>, st: NotifyView)
    requires
        a.leg_spec() < legs.len(),
        b.leg_spec() < legs.len(),
        legs[a.leg_spec() as int].wf(),
        legs[b.leg_spec() as int].wf(),
        distinct_leg_ids(legs),
        settled(a, legs, st),
    ensures
        settled(a, legs, alert_notice(b, legs, st).1),
{
    let la = legs[a.leg_spec() as int];
    let lb = legs[b.leg_spec() as int];
    if a.leg_spec() != b.leg_spec() {
        let (x, y) = if a.leg_spec() < b.leg_spec() {
            (a.leg_spec() as int, b.leg_spec() as int)
        } else {
            (b.leg_spec() as int, a.leg_spec() as int)
        };
        assert(legs[x].id@ != legs[y].id@);
        assert(la.id@ != lb.id@);
    }
    if a == b {
        lemma_alert_settles(a, legs, st);
    }
    match (a, b) {
        (Alert::DepartureDelayed(i), Alert::DepartureDelayed(j)) => {
            if i == j {
                lemma_alert_settles(a, legs, st);
            }
        },
        (Alert::ArrivalDelayed(i), Alert::ArrivalDelayed(j)) => {
            if i == j {
                lemma_alert_settles(a, legs, st);
            }
        },
        (Alert::DeparturePlatformChange(i), Alert::DeparturePlatformChange(j)) => {
            if i == j {
                lemma_alert_settles(a, legs, st);
            }
        },
        _ => {},
    }
}

/// Whether every alert of a list is valid for the legs.
pub open spec fn alerts_valid(alerts: Seq<Alert>, legs: Seq<Leg>) -> bool {
    forall|k: int|
        0 <= k < alerts.len() ==> (#[trigger] alerts[k]).leg_spec() < legs.len() && legs[alerts[k].leg_spec() as int].wf()
}

/// After the alerts of a list are announced, each of them is settled.
proof fn lemma_alerts_settled_after(alerts: Seq<Alert>, legs: Seq<Leg>, st: NotifyView)
    requires
        alerts_valid(alerts, legs),
        distinct_leg_ids(legs),
    ensures
        forall|k: int|
            0 <= k < alerts.len() ==> settled(#[trigger] alerts[k], legs, alerts_notices(alerts, legs, st).1),
    decreases alerts.len(),
{
    if alerts.len() > 0 {
        let init = alerts.drop_last();
        assert(alerts_valid(init, legs)) by {
            assert forall|k: int| 0 <= k < init.len() implies (#[trigger] init[k]).leg_spec() < legs.len()
                && legs[init[k].leg_spec() as int].wf() by {
                assert(init[k] == alerts[k]);
            }
        }
        lemma_alerts_settled_after(init, legs, st);
        let prev = alerts_notices(init, legs, st);
        let last = alerts.last();
        assert(last == alerts[alerts.len() - 1]);
        assert forall|k: int| 0 <= k < alerts.len() implies settled(
            #[trigger] alerts[k],
            legs,
            alerts_notices(alerts, legs, st).1,
        ) by {
            if k == alerts.len() - 1 {
                lemma_alert_settles(last, legs, prev.1);
            } else {
                assert(alerts[k] == init[k]);
                lemma_alert_keeps_settled(alerts[k], last, legs, prev.1);
            }
        }
    }
}

/// Alerts that are all settled announce nothing and change nothing.
proof fn lemma_settled_alerts_quiet(alerts: Seq<Alert>, legs: Seq<Leg>, st: NotifyView)
    requires
        forall|k: int| 0 <= k < alerts.len() ==> settled(#[trigger] alerts[k], legs, st),
    ensures
        alerts_notices(alerts, legs, st) == (Seq::<Notice>::empty(), st),
    decreases alerts.len(),
{
    if alerts.len() > 0 {
        let init = alerts.drop_last();
        assert forall|k: int| 0 <= k < init.len() implies settled(#[trigger] init[k], legs, st) by {
            assert(init[k] == alerts[k]);
        }
        lemma_settled_alerts_quiet(init, legs, st);
        assert(alerts.last() == alerts[alerts.len() - 1]);
        assert(Seq::<Notice>::empty() + notice_seq(None) =~= Seq::<Notice>::empty());
    }
}

/// Announcing the same alerts again right away announces nothing: what was
/// announced is recorded, so no delay or platform change is notified twice
/// (legs being told apart by their ids).
pub proof fn lemma_alerts_notified_once(alerts: Seq<Alert>, legs: Seq<Leg>, st: NotifyView)
    requires
        alerts_valid(alerts, legs),
        distinct_leg_ids(legs),
    ensures
        alerts_notices(alerts, legs, alerts_notices(alerts, legs, st).1).0 == Seq::<Notice>::empty(),
        alerts_notices(alerts, legs, alerts_notices(alerts, legs, st).1).1 == alerts_notices(alerts, legs, st).1,
{
    lemma_alerts_settled_after(alerts, legs, st);
    lemma_settled_alerts_quiet(alerts, legs, alerts_notices(alerts, legs, st).1);
}

} // verus!
