//! A journey: its legs as a provider reports them, what a traveller is doing
//! on it at a given time, the changes against the schedule worth an alert,
//! and the state of a journey being followed, with what has been notified.

use vstd::prelude::*;

use crate::duration::{valid_instant, valid_opt_instant, Duration, MAX_INSTANT};
use crate::late_factor::LateFactor;
use crate::leg::{later, Leg};
use crate::load_factor::LoadFactor;
use crate::notify::{
    alert_notice, alerts_notices, alerts_valid, announced, delay_grew, delays_bounded,
    distinct_leg_ids, event_notice, lemma_alerts_notified_once, notice_seq, platforms_known, Notice,
    NotifyStatus, NotifyView, MAX_NOTIFIED_MINUTES,
};
use crate::i18n::{gettext, translation_of};
use crate::place::Place;
use crate::text::{join, joined, opt_view, replace_all, replaced, same_text, views};
use crate::utility::{date_human_text, tabular_text, Date, Utility, MAX_DAY};
use crate::assoc::TextMap;
use crate::duration::trunc_div;

verus! {

/// The price of a journey.
#[derive(Debug, Clone)]
pub struct Price {
    /// The currency code, such as "EUR".
    pub currency: String,
    /// The amount, written with two decimals.
    pub amount: String,
}

/// The data of a journey as a provider reports it.
#[derive(Debug, Clone)]
pub struct JourneyData {
    /// The provider's id of the journey, used to refresh it.
    pub id: String,
    /// The legs, in travel order.
    pub legs: Vec<Leg>,
    /// The price, if known.
    pub price: Option<Price>,
}

/// What a traveller is doing on a journey at some time.  Legs are given by
/// their position in the journey.
#[derive(Debug, Clone, Copy, PartialEq, Eq, Structural)]
pub enum Event {
    /// The journey has not started; the leg is the first one.
    BeforeJourney(usize),
    /// Riding a leg; the second leg is the next one that is not walked.
    InLeg(usize, Option<usize>),
    /// Changing to the leg.
    TransitionTo(usize),
    /// The journey is over.
    AfterJourney,
    /// A leg cannot be reached.
    Unreachable,
    /// A leg is cancelled.
    Cancelled,
}

/// A change against the schedule of a leg still to come.
#[derive(Debug, Clone, Copy, PartialEq, Eq, Structural)]
pub enum Alert {
    /// The leg departs late.
    DepartureDelayed(usize),
    /// The leg arrives late.
    ArrivalDelayed(usize),
    /// The leg departs from another platform.
    DeparturePlatformChange(usize),
}

/// Whether the leg departs after time `t`.
pub open spec fn departs_after(leg: Leg, t: int) -> bool {
    leg.departure matches Some(d) && t < d
}

/// Whether the leg arrives after time `t`.
pub open spec fn arrives_after(leg: Leg, t: int) -> bool {
    leg.arrival matches Some(a) && t < a
}

/// The first leg from position `j` on that is not walked.
pub open spec fn next_riding(legs: Seq<Leg>, j: int) -> Option<usize>
    decreases legs.len() - j,
{
    if j < 0 || j >= legs.len() {
        None
    } else if !legs[j].walking {
        Some(j as usize)
    } else {
        next_riding(legs, j + 1)
    }
}

/// The event at time `t` from leg `i` on: the first leg that departs after
/// `t` is the one to start with (or to change to), a leg ridden that
/// arrives after `t` is the one being ridden; past all legs the journey is
/// over.
pub open spec fn event_from(legs: Seq<Leg>, t: int, i: int) -> Event
    decreases legs.len() - i,
{
    if i < 0 || i >= legs.len() {
        Event::AfterJourney
    } else if departs_after(legs[i], t) {
        if i == 0 {
            Event::BeforeJourney(0)
        } else {
            Event::TransitionTo(i as usize)
        }
    } else if arrives_after(legs[i], t) && !legs[i].walking {
        Event::InLeg(i as usize, next_riding(legs, i + 1))
    } else {
        event_from(legs, t, i + 1)
    }
}

/// The alerts of one leg at time `t`.  A leg that departs after `t` is
/// alerted for a late departure, a changed departure platform and a late
/// arrival; a leg that arrives after `t` late is alerted (again) for its
/// late arrival.
pub open spec fn leg_alerts(leg: Leg, i: usize, t: int) -> Seq<Alert> {
    (if departs_after(leg, t) {
        (if leg.departure != leg.planned_departure {
            seq![Alert::DepartureDelayed(i)]
        } else {
            Seq::empty()
        }) + (if opt_view(leg.departure_platform) != opt_view(leg.planned_departure_platform) {
            seq![Alert::DeparturePlatformChange(i)]
        } else {
            Seq::empty()
        }) + (if leg.arrival != leg.planned_arrival {
            seq![Alert::ArrivalDelayed(i)]
        } else {
            Seq::empty()
        })
    } else {
        Seq::empty()
    }) + (if arrives_after(leg, t) && leg.arrival != leg.planned_arrival {
        seq![Alert::ArrivalDelayed(i)]
    } else {
        Seq::empty()
    })
}

/// The alerts of the first `n` legs at time `t`, in leg order.
pub open spec fn alerts_upto(legs: Seq<Leg>, t: int, n: int) -> Seq<Alert>
    decreases n,
{
    if n <= 0 {
        Seq::empty()
    } else {
        alerts_upto(legs, t, n - 1) + leg_alerts(legs[n - 1], (n - 1) as usize, t)
    }
}

/// The latest late factor of the first `n` legs; on time when there are none.
pub open spec fn late_upto(legs: Seq<Leg>, n: int) -> LateFactor
    decreases n,
{
    if n <= 0 {
        LateFactor::OnTime
    } else {
        later(late_upto(legs, n - 1), legs[n - 1].late_factor_spec())
    }
}

/// The higher of two load factors.
pub open spec fn higher(a: LoadFactor, b: LoadFactor) -> LoadFactor {
    if a.rank() >= b.rank() {
        a
    } else {
        b
    }
}

/// The highest load factor of the first `n` legs; unknown when there are
/// none.
pub open spec fn load_upto(legs: Seq<Leg>, n: int) -> LoadFactor
    decreases n,
{
    if n <= 0 {
        LoadFactor::Unknown
    } else {
        higher(load_upto(legs, n - 1), LoadFactor::of_report(legs[n - 1].load_factor))
    }
}

/// The number of legs ridden (not walked) among the first `n`.
pub open spec fn riding_upto(legs: Seq<Leg>, n: int) -> nat
    decreases n,
{
    if n <= 0 {
        0
    } else {
        riding_upto(legs, n - 1) + if legs[n - 1].walking {
            0nat
        } else {
            1nat
        }
    }
}

/// The products shown for the first `n` legs, for those with a line.
pub open spec fn labels_upto(legs: Seq<Leg>, n: int) -> Seq<Seq<char>>
    decreases n,
{
    if n <= 0 {
        Seq::empty()
    } else {
        labels_upto(legs, n - 1) + match legs[n - 1].product_label() {
            Some(p) => seq![p],
            None => Seq::empty(),
        }
    }
}

impl Event {
    /// Whether the legs named by the event are among `n` legs.
    pub open spec fn valid_for(self, n: nat) -> bool {
        match self {
            Event::BeforeJourney(i) => i < n,
            Event::InLeg(i, next) => i < n && (next matches Some(j) ==> j < n),
            Event::TransitionTo(i) => i < n,
            _ => true,
        }
    }

    /// The leg being ridden.
    pub open spec fn current_leg_spec(self) -> Option<usize> {
        match self {
            Event::InLeg(l, _) => Some(l),
            _ => None,
        }
    }

    /// The leg to take next.
    pub open spec fn next_leg_spec(self) -> Option<usize> {
        match self {
            Event::BeforeJourney(l) => Some(l),
            Event::InLeg(_, l) => l,
            Event::TransitionTo(l) => Some(l),
            _ => None,
        }
    }

    /// The time of the next thing to do: the departure of the leg to start
    /// or change to, or the arrival of the leg ridden.
    pub open spec fn next_action_spec(self, legs: Seq<Leg>) -> Option<i64> {
        match self {
            Event::BeforeJourney(l) => legs[l as int].departure,
            Event::InLeg(l, _) => legs[l as int].arrival,
            Event::TransitionTo(l) => legs[l as int].departure,
            _ => None,
        }
    }

    /// The leg being ridden, if any.
    pub fn current_leg(&self) -> (r: Option<usize>)
        ensures
            r == self.current_leg_spec(),
    {
        match self {
            Event::InLeg(l, _) => Some(*l),
            _ => None,
        }
    }

    /// The leg to take next, if any.
    pub fn next_leg(&self) -> (r: Option<usize>)
        ensures
            r == self.next_leg_spec(),
    {
        match self {
            Event::BeforeJourney(l) => Some(*l),
            Event::InLeg(_, l) => *l,
            Event::TransitionTo(l) => Some(*l),
            _ => None,
        }
    }

    /// The time of the next thing to do, if any.
    pub fn time_of_next_action(&self, journey: &JourneyData) -> (r: Option<i64>)
        requires
            self.valid_for(journey.legs@.len()),
        ensures
            r == self.next_action_spec(journey.legs@),
    {
        match self {
            Event::BeforeJourney(l) => journey.legs[*l].departure,
            Event::InLeg(l, _) => journey.legs[*l].arrival,
            Event::TransitionTo(l) => journey.legs[*l].departure,
            _ => None,
        }
    }
}

impl Alert {
    /// The leg alerted for.
    pub open spec fn leg_spec(self) -> usize {
        match self {
            Alert::DepartureDelayed(l) => l,
            Alert::ArrivalDelayed(l) => l,
            Alert::DeparturePlatformChange(l) => l,
        }
    }

    /// The leg alerted for.
    pub fn leg(&self) -> (r: usize)
        ensures
            r == self.leg_spec(),
    {
        match self {
            Alert::DepartureDelayed(l) => *l,
            Alert::ArrivalDelayed(l) => *l,
            Alert::DeparturePlatformChange(l) => *l,
        }
    }
}

impl JourneyData {
    /// Whether every leg is well formed.
    pub open spec fn wf(&self) -> bool {
        forall|i: int| 0 <= i < self.legs@.len() ==> (#[trigger] self.legs@[i]).wf()
    }

    /// Whether some leg cannot be reached.
    pub open spec fn unreachable_spec(&self) -> bool {
        exists|i: int| 0 <= i < self.legs@.len() && !(#[trigger] self.legs@[i]).reachable
    }

    /// Whether some leg is cancelled.
    pub open spec fn cancelled_spec(&self) -> bool {
        exists|i: int| 0 <= i < self.legs@.len() && (#[trigger] self.legs@[i]).cancelled
    }

    /// Whether some leg has a platform different from its schedule.
    pub open spec fn change_platform_spec(&self) -> bool {
        exists|i: int| 0 <= i < self.legs@.len() && (#[trigger] self.legs@[i]).change_platform_spec()
    }

    /// The event at time `t`: an unreachable journey stays unreachable and a
    /// cancelled one cancelled; otherwise the legs decide.
    pub open spec fn event_at(&self, t: int) -> Event {
        if self.unreachable_spec() {
            Event::Unreachable
        } else if self.cancelled_spec() {
            Event::Cancelled
        } else {
            event_from(self.legs@, t, 0)
        }
    }

    /// The number of changes: the legs ridden less one, and none for a
    /// journey without a ridden leg.
    pub open spec fn transitions_spec(&self) -> nat {
        let n = riding_upto(self.legs@, self.legs@.len() as int);
        if n == 0 {
            0
        } else {
            (n - 1) as nat
        }
    }

    /// The time from the departure of the first leg to the arrival of the
    /// last, if both are known.
    pub open spec fn total_time_spec(&self) -> Option<int> {
        if self.legs@.len() == 0 {
            None
        } else {
            match (self.legs@[0].departure, self.legs@.last().arrival) {
                (Some(d), Some(a)) => Some(a - d),
                _ => None,
            }
        }
    }

    /// Checks that every instant is representable and every place can be
    /// named, which all the functions on journeys rely on.
    pub fn is_well_formed(&self) -> (r: bool)
        ensures
            r == self.wf(),
    {
        let n = self.legs.len();
        let mut i: usize = 0;
        while i < n
            invariant
                n == self.legs@.len(),
                i <= n,
                forall|j: int| 0 <= j < i ==> (#[trigger] self.legs@[j]).wf(),
            decreases n - i,
        {
            let leg = &self.legs[i];
            if !(valid_time(leg.departure) && valid_time(leg.planned_departure) && valid_time(
                leg.arrival,
            ) && valid_time(leg.planned_arrival) && nameable(&leg.origin) && nameable(
                &leg.destination,
            ) && match leg.departure_day {
                Some(d) => d <= 366,
                None => true,
            }) {
                return false;
            }
            i += 1;
        }
        true
    }

    /// Whether some leg cannot be reached.
    pub fn is_unreachable(&self) -> (r: bool)
        ensures
            r == self.unreachable_spec(),
    {
        let n = self.legs.len();
        let mut i: usize = 0;
        while i < n
            invariant
                n == self.legs@.len(),
                i <= n,
                forall|j: int| 0 <= j < i ==> (#[trigger] self.legs@[j]).reachable,
            decreases n - i,
        {
            if self.legs[i].is_unreachable() {
                return true;
            }
            i += 1;
        }
        false
    }

    /// Whether some leg is cancelled.
    pub fn is_cancelled(&self) -> (r: bool)
        ensures
            r == self.cancelled_spec(),
    {
        let n = self.legs.len();
        let mut i: usize = 0;
        while i < n
            invariant
                n == self.legs@.len(),
                i <= n,
                forall|j: int| 0 <= j < i ==> !(#[trigger] self.legs@[j]).cancelled,
            decreases n - i,
        {
            if self.legs[i].is_cancelled() {
                return true;
            }
            i += 1;
        }
        false
    }

    /// Whether some leg has a platform different from its schedule.
    pub fn change_platform(&self) -> (r: bool)
        ensures
            r == self.change_platform_spec(),
    {
        let n = self.legs.len();
        let mut i: usize = 0;
        while i < n
            invariant
                n == self.legs@.len(),
                i <= n,
                forall|j: int| 0 <= j < i ==> !(#[trigger] self.legs@[j]).change_platform_spec(),
            decreases n - i,
        {
            if self.legs[i].change_platform() {
                return true;
            }
            i += 1;
        }
        false
    }

    /// The number of changes: the legs ridden less one.
    pub fn transitions(&self) -> (r: u32)
        ensures
            r == self.transitions_spec() as u32,
    {
        let n = self.legs.len();
        let mut riding: usize = 0;
        let mut i: usize = 0;
        while i < n
            invariant
                n == self.legs@.len(),
                i <= n,
                riding == riding_upto(self.legs@, i as int),
                riding <= i,
            decreases n - i,
        {
            if !self.legs[i].walking {
                riding = riding + 1;
            }
            i += 1;
        }
        if riding == 0 {
            0
        } else {
            (riding - 1) as u32
        }
    }

    /// The latest late factor of the legs; on time without legs.
    pub fn late_factor(&self) -> (r: LateFactor)
        requires
            self.wf(),
        ensures
            r == late_upto(self.legs@, self.legs@.len() as int),
    {
        let n = self.legs.len();
        let mut acc = LateFactor::OnTime;
        let mut i: usize = 0;
        while i < n
            invariant
                n == self.legs@.len(),
                i <= n,
                self.wf(),
                acc == late_upto(self.legs@, i as int),
            decreases n - i,
        {
            assert(self.legs@[i as int].wf());
            let f = self.legs[i].late_factor();
            acc = LateFactor::max_of(acc, f);
            i += 1;
        }
        acc
    }

    /// The highest load factor of the legs; unknown without legs.
    pub fn load_factor(&self) -> (r: LoadFactor)
        ensures
            r == load_upto(self.legs@, self.legs@.len() as int),
    {
        let n = self.legs.len();
        let mut acc = LoadFactor::Unknown;
        let mut i: usize = 0;
        while i < n
            invariant
                n == self.legs@.len(),
                i <= n,
                acc == load_upto(self.legs@, i as int),
            decreases n - i,
        {
            let f = self.legs[i].load();
            acc = LoadFactor::max_of(acc, f);
            i += 1;
        }
        acc
    }

    /// The time from the first departure to the last arrival, if both are
    /// known.
    pub fn total_time(&self) -> (r: Option<Duration>)
        requires
            self.wf(),
        ensures
            match r {
                Some(d) => self.total_time_spec() == Some(d.secs()),
                None => self.total_time_spec() is None,
            },
    {
        let n = self.legs.len();
        if n == 0 {
            return None;
        }
        assert(self.legs@[0].wf());
        assert(self.legs@[n - 1].wf());
        match (self.legs[0].departure, self.legs[n - 1].arrival) {
            (Some(d), Some(a)) => Some(Duration::between(d, a)),
            _ => None,
        }
    }

    /// The products of the legs with a line, separated by bullets.
    pub fn types(&self) -> (r: String)
        ensures
            r@ == joined(labels_upto(self.legs@, self.legs@.len() as int), seq![' ', '•', ' ']),
    {
        let n = self.legs.len();
        let mut labels: Vec<String> = Vec::new();
        let mut i: usize = 0;
        while i < n
            invariant
                n == self.legs@.len(),
                i <= n,
                views(labels@) == labels_upto(self.legs@, i as int),
            decreases n - i,
        {
            let ghost before = labels@;
            match self.legs[i].product() {
                Some(p) => {
                    labels.push(p);
                    assert(views(labels@) =~= views(before) + seq![p@]);
                },
                None => {},
            }
            i += 1;
        }
        let sep = " • ";
        proof {
            reveal_strlit(" • ");
            assert(sep@ =~= seq![' ', '•', ' ']);
        }
        join(&labels, sep)
    }

    /// The day of the year the first leg departs on; zero when unknown.
    pub fn day_timestamp(&self) -> (r: u32)
        requires
            self.wf(),
            self.legs@.len() > 0,
        ensures
            r == match self.legs@[0].departure_day {
                Some(d) => d,
                None => 0,
            },
            r <= 366,
    {
        assert(self.legs@[0].wf());
        match self.legs[0].departure_day {
            Some(d) => d,
            None => 0,
        }
    }

    /// The event at time `t`.
    pub fn event_at_time(&self, t: i64) -> (r: Event)
        ensures
            r == self.event_at(t as int),
            r.valid_for(self.legs@.len()),
    {
        if self.is_unreachable() {
            return Event::Unreachable;
        }
        if self.is_cancelled() {
            return Event::Cancelled;
        }
        let n = self.legs.len();
        let mut i: usize = 0;
        proof {
            lemma_event_from_after(self.legs@, t as int, 0);
        }
        while i < n
            invariant
                n == self.legs@.len(),
                i <= n,
                event_from(self.legs@, t as int, i as int) == event_from(self.legs@, t as int, 0),
                !self.unreachable_spec(),
                !self.cancelled_spec(),
            decreases n - i,
        {
            let leg = &self.legs[i];
            if after(leg.departure, t) {
                if i == 0 {
                    return Event::BeforeJourney(0);
                } else {
                    return Event::TransitionTo(i);
                }
            } else if after(leg.arrival, t) && !leg.walking {
                let mut j: usize = i + 1;
                proof {
                    lemma_next_riding_bound(self.legs@, i + 1);
                }
                while j < n && self.legs[j].walking
                    invariant
                        n == self.legs@.len(),
                        i < j <= n,
                        next_riding(self.legs@, j as int) == next_riding(self.legs@, i + 1),
                    decreases n - j,
                {
                    j += 1;
                }
                let next = if j < n {
                    Some(j)
                } else {
                    None
                };
                return Event::InLeg(i, next);
            }
            i += 1;
        }
        Event::AfterJourney
    }

    /// The alerts at time `t`, in leg order.
    pub fn alerts(&self, t: i64) -> (r: Vec<Alert>)
        ensures
            r@ == alerts_upto(self.legs@, t as int, self.legs@.len() as int),
            forall|k: int| 0 <= k < r@.len() ==> (#[trigger] r@[k]).leg_spec() < self.legs@.len(),
    {
        let n = self.legs.len();
        let mut out: Vec<Alert> = Vec::new();
        let mut i: usize = 0;
        while i < n
            invariant
                n == self.legs@.len(),
                i <= n,
                out@ == alerts_upto(self.legs@, t as int, i as int),
                forall|k: int| 0 <= k < out@.len() ==> (#[trigger] out@[k]).leg_spec() < i,
            decreases n - i,
        {
            let leg = &self.legs[i];
            let ghost before = out@;
            if after(leg.departure, t) {
                if !same_instant(leg.departure, leg.planned_departure) {
                    out.push(Alert::DepartureDelayed(i));
                }
                if !same_text(&leg.departure_platform, &leg.planned_departure_platform) {
                    out.push(Alert::DeparturePlatformChange(i));
                }
                if !same_instant(leg.arrival, leg.planned_arrival) {
                    out.push(Alert::ArrivalDelayed(i));
                }
            }
            if after(leg.arrival, t) && !same_instant(leg.arrival, leg.planned_arrival) {
                out.push(Alert::ArrivalDelayed(i));
            }
            assert(out@ =~= before + leg_alerts(self.legs@[i as int], i, t as int));
            i += 1;
        }
        out
    }
}

/// The number of the day, counted from January 1st of year one as day one,
/// on which the instant `t` (seconds since the Unix epoch) falls in UTC.
pub open spec fn utc_day(t: int) -> int {
    t / 86400 + 719163
}

/// Calls `chrono::DateTime::from_timestamp(instant, 0)` and takes the day of
/// the instant in the machine's time zone (`with_timezone(&chrono::Local)`,
/// then `date_naive()`), numbered by `num_days_from_ce()`.  Which day it is
/// depends on the time zone the machine is set to; what holds in every time
/// zone is stated: chrono's offsets (`FixedOffset`) lie strictly within a day
/// of UTC, so the local day is the UTC day or one next to it.  For the
/// instants `requires` admits, `from_timestamp` gives an instant and the
/// local date lies in chrono's range, so the result is always there.  chrono
/// panics on a time zone database that gives an offset of a day or more or
/// cannot be read, which no argument can rule out.
#[verifier::external_body]
fn local_day(instant: i64) -> (r: Option<Date>)
    requires
        valid_instant(instant as int),
    ensures
        r is Some,
        r matches Some(d) ==> utc_day(instant as int) - 1 <= d.days_from_ce <= utc_day(instant as int) + 1,
{
    let t = chrono::DateTime::from_timestamp(instant, 0)?;
    let day = t.with_timezone(&chrono::Local).date_naive();
    Some(Date { days_from_ce: chrono::Datelike::num_days_from_ce(&day) })
}

/// Whether an optional instant lies after `t`.
fn after(x: Option<i64>, t: i64) -> (r: bool)
    ensures
        r == (x matches Some(v) && t < v),
{
    match x {
        Some(v) => t < v,
        None => false,
    }
}

/// Whether two optional instants are the same.
fn same_instant(a: Option<i64>, b: Option<i64>) -> (r: bool)
    ensures
        r == (a == b),
{
    match (a, b) {
        (Some(x), Some(y)) => x == y,
        (None, None) => true,
        _ => false,
    }
}

/// Whether an optional instant is representable.
fn valid_time(t: Option<i64>) -> (r: bool)
    ensures
        r == valid_opt_instant(t),
{
    match t {
        Some(x) => -MAX_INSTANT <= x && x <= MAX_INSTANT,
        None => true,
    }
}

/// Whether a place can be named.
fn nameable(p: &Place) -> (r: bool)
    ensures
        r == p.named(),
{
    match p {
        Place::Point { id, name } => id.is_some() || name.is_some(),
        _ => true,
    }
}

/// The first leg ridden from `j` on lies at or after `j` and is ridden.
proof fn lemma_next_riding_bound(legs: Seq<Leg>, j: int)
    requires
        0 <= j,
        legs.len() <= usize::MAX,
    ensures
        next_riding(legs, j) matches Some(k) ==> j <= k < legs.len() && !legs[k as int].walking,
        next_riding(legs, j) is None ==> forall|k: int| j <= k < legs.len() ==> (#[trigger] legs[k]).walking,
    decreases legs.len() - j,
{
    if 0 <= j < legs.len() && legs[j].walking {
        lemma_next_riding_bound(legs, j + 1);
    }
}

/// The event from any leg on names legs of the journey, and its next action
/// lies after `t`.
proof fn lemma_event_from_after(legs: Seq<Leg>, t: int, i: int)
    requires
        0 <= i,
        legs.len() <= usize::MAX,
    ensures
        event_from(legs, t, i).valid_for(legs.len()),
        event_from(legs, t, i).next_action_spec(legs) matches Some(a) ==> t < a,
        event_from(legs, t, i) != Event::Unreachable,
        event_from(legs, t, i) != Event::Cancelled,
    decreases legs.len() - i,
{
    if i < legs.len() {
        if !departs_after(legs[i], t) && !(arrives_after(legs[i], t) && !legs[i].walking) {
            lemma_event_from_after(legs, t, i + 1);
        } else if !departs_after(legs[i], t) {
            lemma_next_riding_bound(legs, i + 1);
        }
    }
}

/// The next action of an event of a well-formed journey is a representable
/// instant.
proof fn lemma_next_action_valid(data: JourneyData, e: Event)
    requires
        data.wf(),
        e.valid_for(data.legs@.len()),
    ensures
        e.next_action_spec(data.legs@) matches Some(t) ==> valid_instant(t as int),
{
    match e {
        Event::BeforeJourney(l) => {
            assert(data.legs@[l as int].wf());
        },
        Event::InLeg(l, _) => {
            assert(data.legs@[l as int].wf());
        },
        Event::TransitionTo(l) => {
            assert(data.legs@[l as int].wf());
        },
        _ => {},
    }
}

/// Whether a journey should be refreshed at time `now`: never when nothing
/// is left to do; always when it was never refreshed; otherwise when the
/// last refresh is older than an hour with the next action less than a day
/// away, older than fifteen minutes with it less than an hour away, older
/// than five minutes with it less than fifteen minutes away, or older than a
/// minute with it less than five minutes away.
pub open spec fn should_refresh_spec(next_action: Option<i64>, now: int, last: Option<i64>) -> bool {
    match next_action {
        None => false,
        Some(t) => match last {
            None => true,
            Some(r) => {
                let until = t - now;
                let since = now - r;
                (until < 86400 && since > 3600) || (until < 3600 && since > 900) || (until < 900
                    && since > 300) || (until < 300 && since > 60)
            },
        },
    }
}

/// How many seconds to wait before the next background check: none when
/// nothing is left to do; a minute when the next action is less than five
/// minutes away, five minutes when less than fifteen, fifteen minutes when
/// less than an hour, an hour when less than a day, a day otherwise.
pub open spec fn background_wait(next_action: Option<i64>, now: int) -> int {
    match next_action {
        None => 0,
        Some(t) => {
            let until = t - now;
            if until < 300 {
                60
            } else if until < 900 {
                300
            } else if until < 3600 {
                900
            } else if until < 86400 {
                3600
            } else {
                86400
            }
        },
    }
}

/// A journey being followed: its data, the event and alerts last computed
/// for it, what has been notified, and when it was last refreshed.
pub struct Journey {
    data: JourneyData,
    current_event: Option<Event>,
    alerts: Vec<Alert>,
    notify_status: NotifyStatus,
    last_refreshed: Option<i64>,
    refresh_in_progress: bool,
}

impl Journey {
    /// Whether the data is well formed, the cached event and alerts name legs
    /// of it, and the notification status is well formed.
    pub closed spec fn wf(&self) -> bool {
        &&& self.data.wf()
        &&& self.current_event matches Some(e) ==> e.valid_for(self.data.legs@.len())
        &&& forall|k: int|
            0 <= k < self.alerts@.len() ==> (#[trigger] self.alerts@[k]).leg_spec()
                < self.data.legs@.len()
        &&& self.notify_status.wf()
        &&& valid_opt_instant(self.last_refreshed)
    }

    /// The data of the journey.
    pub closed spec fn data_spec(&self) -> JourneyData {
        self.data
    }

    /// The event last computed, if any.
    pub closed spec fn event_cache(&self) -> Option<Event> {
        self.current_event
    }

    /// The alerts last computed.
    pub closed spec fn alerts_spec(&self) -> Seq<Alert> {
        self.alerts@
    }

    /// What has been notified.
    pub closed spec fn status_spec(&self) -> NotifyView {
        self.notify_status.view()
    }

    /// When the journey was last refreshed.
    pub closed spec fn last_refreshed_spec(&self) -> Option<i64> {
        self.last_refreshed
    }

    /// Whether a refresh is going on.
    pub closed spec fn refreshing_spec(&self) -> bool {
        self.refresh_in_progress
    }

    /// A well-formed journey has well-formed data and status.
    pub proof fn lemma_wf(&self)
        requires
            self.wf(),
        ensures
            self.data_spec().wf(),
            self.status_spec().wf(),
            self.event_cache() matches Some(e) ==> e.valid_for(self.data_spec().legs@.len()),
            forall|k: int|
                0 <= k < self.alerts_spec().len() ==> (#[trigger] self.alerts_spec()[k]).leg_spec()
                    < self.data_spec().legs@.len(),
    {
    }

    /// The event at time `now`: the one last computed, else the one of the
    /// data at `now`.
    pub open spec fn event_or(&self, now: int) -> Event {
        match self.event_cache() {
            Some(e) => e,
            None => self.data_spec().event_at(now),
        }
    }

    /// Whether the background work at time `now` can announce every changed
    /// departure platform: each platform change alerted has a new platform.
    pub open spec fn background_ok(&self, now: int) -> bool {
        platforms_known(
            alerts_upto(self.data_spec().legs@, now, self.data_spec().legs@.len() as int),
            self.data_spec().legs@,
        )
    }

    /// A journey with nothing computed or notified yet.
    pub fn new(data: JourneyData) -> (r: Journey)
        requires
            data.wf(),
        ensures
            r.wf(),
            r.data_spec() == data,
            r.event_cache() is None,
            r.alerts_spec() == Seq::<Alert>::empty(),
            r.status_spec() == NotifyStatus::new_view(),
            r.last_refreshed_spec() is None,
            !r.refreshing_spec(),
    {
        Journey {
            data,
            current_event: None,
            alerts: Vec::new(),
            notify_status: NotifyStatus::new(),
            last_refreshed: None,
            refresh_in_progress: false,
        }
    }

    /// The data of the journey.
    pub fn journey(&self) -> (r: &JourneyData)
        ensures
            *r == self.data_spec(),
    {
        &self.data
    }

    /// Replaces the data by a refreshed one.  The event and alerts computed
    /// for the old data are dropped, as they name its legs; they are
    /// computed again when next asked for.
    pub fn update(&mut self, data: JourneyData)
        requires
            old(self).wf(),
            data.wf(),
        ensures
            final(self).wf(),
            final(self).data_spec() == data,
            final(self).event_cache() is None,
            final(self).alerts_spec() == Seq::<Alert>::empty(),
            final(self).status_spec() == old(self).status_spec(),
            final(self).last_refreshed_spec() == old(self).last_refreshed_spec(),
            final(self).refreshing_spec() == old(self).refreshing_spec(),
    {
        self.data = data;
        self.current_event = None;
        self.alerts = Vec::new();
    }

    /// The id of the journey.
    pub fn id(&self) -> (r: String)
        ensures
            r@ == self.data_spec().id@,
    {
        self.data.id.clone()
    }

    /// Whether some leg cannot be reached.
    pub fn is_unreachable(&self) -> (r: bool)
        ensures
            r == self.data_spec().unreachable_spec(),
    {
        self.data.is_unreachable()
    }

    /// Whether some leg is cancelled.
    pub fn is_cancelled(&self) -> (r: bool)
        ensures
            r == self.data_spec().cancelled_spec(),
    {
        self.data.is_cancelled()
    }

    /// The day of the year the journey departs on; zero when unknown.
    pub fn day_timestamp(&self) -> (r: u32)
        requires
            self.wf(),
            self.data_spec().legs@.len() > 0,
        ensures
            r == match self.data_spec().legs@[0].departure_day {
                Some(d) => d,
                None => 0,
            },
            r <= 366,
    {
        self.data.day_timestamp()
    }

    /// The day the journey departs, for people, relative to `today`; empty
    /// when the first departure is unknown.  The day of the departure is the
    /// one of the machine's time zone: its UTC day or one next to it.
    pub fn departure_day(&self, today: Date) -> (r: String)
        requires
            self.wf(),
            -MAX_DAY <= today.days_from_ce <= MAX_DAY,
            self.data_spec().legs@.len() > 0,
        ensures
            self.data_spec().legs@[0].departure is None ==> r@ == Seq::<char>::empty(),
            self.data_spec().legs@[0].departure matches Some(t) ==> exists|d: Date|
                #![trigger date_human_text(today, d, r@)]
                utc_day(t as int) - 1 <= d.days_from_ce <= utc_day(t as int) + 1
                    && date_human_text(today, d, r@),
    {
        proof {
            assert(self.data.legs@[0].wf());
        }
        match self.data.legs[0].departure {
            Some(t) => match local_day(t) {
                Some(d) => Utility::format_date_human(today, d),
                None => String::new(),
            },
            None => String::new(),
        }
    }

    /// The event at time `t`, computed afresh.
    pub fn event_at_time(&self, t: i64) -> (r: Event)
        ensures
            r == self.data_spec().event_at(t as int),
    {
        self.data.event_at_time(t)
    }

    /// The alerts at time `t`, computed afresh.
    pub fn alerts(&self, t: i64) -> (r: Vec<Alert>)
        ensures
            r@ == alerts_upto(self.data_spec().legs@, t as int, self.data_spec().legs@.len() as int),
    {
        self.data.alerts(t)
    }

    /// The current event: the one last computed, or else the one at `now`,
    /// which is then kept.
    pub fn current_event(&mut self, now: i64) -> (r: Event)
        requires
            old(self).wf(),
        ensures
            final(self).wf(),
            r == old(self).event_or(now as int),
            r.valid_for(old(self).data_spec().legs@.len()),
            final(self).event_cache() == Some(r),
            final(self).data_spec() == old(self).data_spec(),
            final(self).alerts_spec() == old(self).alerts_spec(),
            final(self).status_spec() == old(self).status_spec(),
            final(self).last_refreshed_spec() == old(self).last_refreshed_spec(),
            final(self).refreshing_spec() == old(self).refreshing_spec(),
    {
        match self.current_event {
            Some(e) => e,
            None => {
                let e = self.data.event_at_time(now);
                self.current_event = Some(e);
                e
            },
        }
    }

    /// When the journey was last refreshed.
    pub fn last_refreshed(&self) -> (r: Option<i64>)
        ensures
            r == self.last_refreshed_spec(),
    {
        self.last_refreshed
    }

    /// Whether a refresh is going on.
    pub fn refresh_in_progress(&self) -> (r: bool)
        ensures
            r == self.refreshing_spec(),
    {
        self.refresh_in_progress
    }

    /// Marks a refresh as started.
    pub fn refresh_started(&mut self)
        requires
            old(self).wf(),
        ensures
            final(self).wf(),
            final(self).refreshing_spec(),
            final(self).data_spec() == old(self).data_spec(),
            final(self).event_cache() == old(self).event_cache(),
            final(self).alerts_spec() == old(self).alerts_spec(),
            final(self).status_spec() == old(self).status_spec(),
            final(self).last_refreshed_spec() == old(self).last_refreshed_spec(),
    {
        self.refresh_in_progress = true;
    }

    /// Marks a refresh as finished at time `now`; when it brought new data,
    /// the data is replaced and the refresh time recorded.
    pub fn refresh_finished(&mut self, refreshed: Option<JourneyData>, now: i64)
        requires
            old(self).wf(),
            valid_instant(now as int),
            refreshed matches Some(d) ==> d.wf(),
        ensures
            final(self).wf(),
            !final(self).refreshing_spec(),
            final(self).status_spec() == old(self).status_spec(),
            match refreshed {
                Some(d) => {
                    &&& final(self).data_spec() == d
                    &&& final(self).event_cache() is None
                    &&& final(self).alerts_spec() == Seq::<Alert>::empty()
                    &&& final(self).last_refreshed_spec() == Some(now)
                },
                None => {
                    &&& final(self).data_spec() == old(self).data_spec()
                    &&& final(self).event_cache() == old(self).event_cache()
                    &&& final(self).alerts_spec() == old(self).alerts_spec()
                    &&& final(self).last_refreshed_spec() == old(self).last_refreshed_spec()
                },
            },
    {
        self.refresh_in_progress = false;
        match refreshed {
            Some(d) => {
                self.update(d);
                self.last_refreshed = Some(now);
            },
            None => {},
        }
    }

    /// Whether the journey should be refreshed at time `now`.
    pub fn should_refresh(&mut self, now: i64) -> (r: bool)
        requires
            old(self).wf(),
            valid_instant(now as int),
        ensures
            final(self).wf(),
            r == should_refresh_spec(
                old(self).event_or(now as int).next_action_spec(old(self).data_spec().legs@),
                now as int,
                old(self).last_refreshed_spec(),
            ),
            final(self).event_cache() == Some(old(self).event_or(now as int)),
            final(self).data_spec() == old(self).data_spec(),
            final(self).alerts_spec() == old(self).alerts_spec(),
            final(self).status_spec() == old(self).status_spec(),
            final(self).last_refreshed_spec() == old(self).last_refreshed_spec(),
            final(self).refreshing_spec() == old(self).refreshing_spec(),
    {
        let e = self.current_event(now);
        let next = e.time_of_next_action(&self.data);
        proof {
            lemma_next_action_valid(self.data, e);
        }
        match next {
            None => false,
            Some(t) => match self.last_refreshed {
                None => true,
                Some(r) => {
                    let until = t - now;
                    let since = now - r;
                    (until < 86400 && since > 3600) || (until < 3600 && since > 900) || (until < 900
                        && since > 300) || (until < 300 && since > 60)
                },
            },
        }
    }

    /// How long to wait before the next background check.
    pub fn next_background_tasks_in(&mut self, now: i64) -> (r: Duration)
        requires
            old(self).wf(),
            valid_instant(now as int),
        ensures
            final(self).wf(),
            r.secs() == background_wait(
                old(self).event_or(now as int).next_action_spec(old(self).data_spec().legs@),
                now as int,
            ),
            final(self).event_cache() == Some(old(self).event_or(now as int)),
            final(self).data_spec() == old(self).data_spec(),
            final(self).alerts_spec() == old(self).alerts_spec(),
            final(self).status_spec() == old(self).status_spec(),
            final(self).last_refreshed_spec() == old(self).last_refreshed_spec(),
            final(self).refreshing_spec() == old(self).refreshing_spec(),
    {
        let e = self.current_event(now);
        let next = e.time_of_next_action(&self.data);
        proof {
            lemma_next_action_valid(self.data, e);
        }
        match next {
            None => Duration::zero(),
            Some(t) => {
                let until = t - now;
                if until < 300 {
                    Duration::minutes(1)
                } else if until < 900 {
                    Duration::minutes(5)
                } else if until < 3600 {
                    Duration::minutes(15)
                } else if until < 86400 {
                    Duration::hours(1)
                } else {
                    Duration::days(1)
                }
            },
        }
    }

    /// What has been notified.
    pub fn notify_status(&self) -> (r: &NotifyStatus)
        requires
            self.wf(),
        ensures
            r.view() == self.status_spec(),
            r.wf(),
    {
        &self.notify_status
    }

    /// Replaces what has been notified.
    pub fn set_notify_status(&mut self, status: NotifyStatus)
        requires
            old(self).wf(),
            status.wf(),
        ensures
            final(self).wf(),
            final(self).status_spec() == status.view(),
            final(self).data_spec() == old(self).data_spec(),
            final(self).event_cache() == old(self).event_cache(),
            final(self).alerts_spec() == old(self).alerts_spec(),
            final(self).last_refreshed_spec() == old(self).last_refreshed_spec(),
            final(self).refreshing_spec() == old(self).refreshing_spec(),
    {
        self.notify_status = status;
    }

    /// The notices due at time `now`, recording them as notified: first the
    /// notice of the current event, then those of the alerts last computed,
    /// in order.
    pub fn potentially_notify(&mut self, now: i64) -> (r: Vec<Notice>)
        requires
            old(self).wf(),
            valid_instant(now as int),
            platforms_known(old(self).alerts_spec(), old(self).data_spec().legs@),
        ensures
            final(self).wf(),
            ({
                let e = old(self).event_or(now as int);
                let first = event_notice(e, old(self).data_spec().legs@, now as int, old(self).status_spec());
                let rest = alerts_notices(old(self).alerts_spec(), old(self).data_spec().legs@, first.1);
                &&& r@ == notice_seq(first.0) + rest.0
                &&& final(self).status_spec() == rest.1
                &&& final(self).event_cache() == Some(e)
            }),
            final(self).data_spec() == old(self).data_spec(),
            final(self).alerts_spec() == old(self).alerts_spec(),
            final(self).last_refreshed_spec() == old(self).last_refreshed_spec(),
            final(self).refreshing_spec() == old(self).refreshing_spec(),
    {
        let e = self.current_event(now);
        let mut out: Vec<Notice> = Vec::new();
        let first = notify_event(&mut self.notify_status, e, &self.data, now);
        match first {
            Some(n) => out.push(n),
            None => {},
        }
        let ghost st1 = self.notify_status.view();
        assert(out@ =~= notice_seq(first) + Seq::<Notice>::empty());
        let n = self.alerts.len();
        let mut i: usize = 0;
        while i < n
            invariant
                n == self.alerts@.len(),
                i <= n,
                self.data == old(self).data,
                self.alerts@ == old(self).alerts@,
                self.current_event == Some(e),
                e == old(self).event_or(now as int),
                e.valid_for(self.data.legs@.len()),
                self.last_refreshed == old(self).last_refreshed,
                self.refresh_in_progress == old(self).refresh_in_progress,
                valid_opt_instant(self.last_refreshed),
                st1 == event_notice(e, self.data.legs@, now as int, old(self).status_spec()).1,
                first == event_notice(e, self.data.legs@, now as int, old(self).status_spec()).0,
                self.data.wf(),
                self.notify_status.wf(),
                forall|k: int|
                    0 <= k < self.alerts@.len() ==> (#[trigger] self.alerts@[k]).leg_spec()
                        < self.data.legs@.len(),
                platforms_known(self.alerts@, self.data.legs@),
                out@ == notice_seq(first) + alerts_notices(
                    self.alerts@.subrange(0, i as int),
                    self.data.legs@,
                    st1,
                ).0,
                self.notify_status.view() == alerts_notices(
                    self.alerts@.subrange(0, i as int),
                    self.data.legs@,
                    st1,
                ).1,
            decreases n - i,
        {
            let ghost prefix = self.alerts@.subrange(0, i as int);
            let ghost next = self.alerts@.subrange(0, i + 1);
            assert(next.drop_last() =~= prefix);
            let ghost before = out@;
            let a = self.alerts[i];
            assert(a.leg_spec() < self.data.legs@.len());
            let step = notify_alert(&mut self.notify_status, a, &self.data);
            match step {
                Some(x) => out.push(x),
                None => {},
            }
            assert(out@ =~= before + notice_seq(step));
            i += 1;
        }
        assert(self.alerts@.subrange(0, n as int) =~= self.alerts@);
        out
    }

    /// The background work at time `now` after any refresh: the current
    /// event and the alerts are computed afresh, and the notices due are
    /// returned and recorded.
    pub fn background_tasks(&mut self, now: i64) -> (r: Vec<Notice>)
        requires
            old(self).wf(),
            valid_instant(now as int),
            old(self).background_ok(now as int),
        ensures
            background_done(*old(self), *final(self), r@, now as int),
    {
        let e = self.data.event_at_time(now);
        self.current_event = Some(e);
        self.alerts = self.data.alerts(now);
        self.potentially_notify(now)
    }

    /// Checks that the background work at time `now` can announce every
    /// changed departure platform.
    pub fn background_ready(&self, now: i64) -> (r: bool)
        requires
            self.wf(),
        ensures
            r == self.background_ok(now as int),
    {
        let alerts = self.data.alerts(now);
        let n = alerts.len();
        let mut k: usize = 0;
        while k < n
            invariant
                n == alerts@.len(),
                k <= n,
                alerts@ == alerts_upto(self.data.legs@, now as int, self.data.legs@.len() as int),
                forall|m: int| 0 <= m < alerts@.len() ==> (#[trigger] alerts@[m]).leg_spec() < self.data.legs@.len(),
                forall|m: int|
                    0 <= m < k ==> match #[trigger] alerts@[m] {
                        Alert::DeparturePlatformChange(i) => self.data.legs@[i as int].departure_platform is Some,
                        _ => true,
                    },
            decreases n - k,
        {
            assert(alerts@[k as int].leg_spec() < self.data.legs@.len());
            match alerts[k] {
                Alert::DeparturePlatformChange(i) => {
                    if self.data.legs[i].departure_platform.is_none() {
                        return false;
                    }
                },
                _ => {},
            }
            k += 1;
        }
        true
    }
}

/// Whether `after`, with the notices `notices`, is what the background work
/// at time `now` makes of `before`: the current event and the alerts are
/// computed afresh, and the notices due are returned and recorded.
pub open spec fn background_done(before: Journey, after: Journey, notices: Seq<Notice>, now: int) -> bool {
    let legs = before.data_spec().legs@;
    let e = before.data_spec().event_at(now);
    let first = event_notice(e, legs, now, before.status_spec());
    let rest = alerts_notices(alerts_upto(legs, now, legs.len() as int), legs, first.1);
    &&& after.wf()
    &&& notices == notice_seq(first.0) + rest.0
    &&& after.status_spec() == rest.1
    &&& after.event_cache() == Some(e)
    &&& after.alerts_spec() == alerts_upto(legs, now, legs.len() as int)
    &&& after.data_spec() == before.data_spec()
    &&& after.last_refreshed_spec() == before.last_refreshed_spec()
    &&& after.refreshing_spec() == before.refreshing_spec()
}

/// The event notice, computed.
fn notify_event(status: &mut NotifyStatus, e: Event, data: &JourneyData, now: i64) -> (r: Option<
    Notice,
>)
    requires
        old(status).wf(),
        e.valid_for(data.legs@.len()),
        data.wf(),
        valid_instant(now as int),
    ensures
        final(status).wf(),
        r == event_notice(e, data.legs@, now as int, old(status).view()).0,
        final(status).view() == event_notice(e, data.legs@, now as int, old(status).view()).1,
{
    let next = e.time_of_next_action(data);
    proof {
        lemma_next_action_valid(*data, e);
    }
    let until: Option<i64> = match next {
        Some(t) => Some(t - now),
        None => None,
    };
    match e {
        Event::BeforeJourney(l) => {
            if (match until {
                Some(d) => d < 3600,
                None => false,
            }) && !status.beginning_of_journey {
                status.beginning_of_journey = true;
                Some(Notice::StartsSoon(l))
            } else {
                None
            }
        },
        Event::InLeg(c, next_leg) => {
            let id = &data.legs[c].id;
            if (match until {
                Some(d) => d < 300,
                None => false,
            }) && !status.in_leg_soon_transition.contains(id.as_str()) {
                status.in_leg_soon_transition.insert(id.clone());
                Some(
                    match next_leg {
                        Some(m) => Notice::TransitionSoon(c, m),
                        None => Notice::ArrivingSoon(c),
                    },
                )
            } else {
                None
            }
        },
        Event::Unreachable => {
            if !status.unreachable {
                status.unreachable = true;
                Some(Notice::Unreachable)
            } else {
                None
            }
        },
        Event::Cancelled => {
            if !status.cancelled {
                status.cancelled = true;
                Some(Notice::Cancelled)
            } else {
                None
            }
        },
        _ => None,
    }
}

/// The notice of a delay, computed: the delay in seconds when it grew by five
/// minutes or more since last announced for the leg, which is then recorded
/// in whole minutes.
fn notify_delay(delays: &mut TextMap<i64>, id: &String, actual: Option<i64>, planned: Option<i64>) -> (r:
    Option<i64>)
    requires
        old(delays).wf(),
        delays_bounded(old(delays).map_view()),
        valid_opt_instant(actual),
        valid_opt_instant(planned),
    ensures
        final(delays).wf(),
        delays_bounded(final(delays).map_view()),
        match (actual, planned) {
            (Some(d), Some(p)) => if delay_grew(d - p, announced(old(delays).map_view(), id@)) {
                &&& r == Some((d - p) as i64)
                &&& final(delays).map_view() == old(delays).map_view().insert(
                    id@,
                    trunc_div(d - p, 60) as i64,
                )
            } else {
                &&& r is None
                &&& final(delays).map_view() == old(delays).map_view()
            },
            _ => {
                &&& r is None
                &&& final(delays).map_view() == old(delays).map_view()
            },
        },
{
    match (actual, planned) {
        (Some(d), Some(p)) => {
            let delay = Duration::between(p, d);
            let notified: i64 = match delays.get(id.as_str()) {
                Some(v) => *v,
                None => 0,
            };
            proof {
                if old(delays).map_view().contains_key(id@) {
                    assert(old(delays).get_spec(id@) is Some);
                }
            }
            let secs = delay.num_seconds();
            if secs - notified * 60 >= 300 {
                let minutes = delay.num_minutes();
                delays.insert(id.clone(), minutes);
                proof {
                    assert(final(delays).map_view() =~= old(delays).map_view().insert(id@, minutes));
                    assert forall|k: Seq<char>| #[trigger]
                        delays.map_view().contains_key(k) implies -MAX_NOTIFIED_MINUTES
                        <= delays.map_view()[k] <= MAX_NOTIFIED_MINUTES by {
                        if k != id@ {
                            assert(old(delays).map_view().contains_key(k));
                        }
                    }
                }
                Some(secs)
            } else {
                None
            }
        },
        _ => None,
    }
}

/// The notice of one alert, computed.
fn notify_alert(status: &mut NotifyStatus, a: Alert, data: &JourneyData) -> (r: Option<Notice>)
    requires
        old(status).wf(),
        a.leg_spec() < data.legs@.len(),
        data.wf(),
        a matches Alert::DeparturePlatformChange(i) ==> data.legs@[i as int].departure_platform is Some,
    ensures
        final(status).wf(),
        r == alert_notice(a, data.legs@, old(status).view()).0,
        final(status).view() == alert_notice(a, data.legs@, old(status).view()).1,
{
    match a {
        Alert::DepartureDelayed(i) => {
            let leg = &data.legs[i];
            assert(data.legs@[i as int].wf());
            match notify_delay(
                &mut status.departure_delays,
                &leg.id,
                leg.departure,
                leg.planned_departure,
            ) {
                Some(secs) => Some(Notice::DepartureDelayed(i, secs)),
                None => None,
            }
        },
        Alert::ArrivalDelayed(i) => {
            let leg = &data.legs[i];
            assert(data.legs@[i as int].wf());
            match notify_delay(&mut status.arrival_delays, &leg.id, leg.arrival, leg.planned_arrival) {
                Some(secs) => Some(Notice::ArrivalDelayed(i, secs)),
                None => None,
            }
        },
        Alert::DeparturePlatformChange(i) => {
            let leg = &data.legs[i];
            let platform = match &leg.departure_platform {
                Some(p) => p.clone(),
                None => String::new(),
            };
            let same = match status.departure_platform_changes.get(leg.id.as_str()) {
                Some(p) => p.eq(&platform),
                None => false,
            };
            proof {
                if old(status).departure_platform_changes.map_view().contains_key(leg.id@) {
                    assert(old(status).departure_platform_changes.get_spec(leg.id@) is Some);
                }
            }
            if same {
                None
            } else {
                status.departure_platform_changes.insert(leg.id.clone(), platform);
                proof {
                    assert(status.departure_platform_changes.map_view() =~= old(
                        status,
                    ).departure_platform_changes.map_view().insert(leg.id@, platform));
                }
                Some(Notice::DeparturePlatformChanged(i))
            }
        },
    }
}


/// The sentence that says what an event asks of the traveller.
#[derive(Debug, Clone, Copy, PartialEq, Eq, Structural)]
pub enum EventSentence {
    /// Where and when to start, on a known platform.
    StartOnPlatform,
    /// Where and when to start.
    Start,
    /// Where the leg ridden arrives, and when.
    Arriving,
    /// The leg to change to and when, on a known platform.
    TransitionOnPlatform,
    /// The leg to change to, and when.
    Transition,
    /// The journey is over.
    Arrived,
    /// The journey is cancelled.
    Cancelled,
    /// A leg cannot be reached.
    Unreachable,
    /// Nothing can be said: the time of the next action is unknown.
    Nothing,
}

/// The sentence for an event, given whether the time of its next action and
/// the departure platform of its next leg are known.
pub open spec fn event_sentence(e: Event, has_time: bool, has_platform: bool) -> EventSentence {
    match e {
        Event::BeforeJourney(_) => if !has_time {
            EventSentence::Nothing
        } else if has_platform {
            EventSentence::StartOnPlatform
        } else {
            EventSentence::Start
        },
        Event::InLeg(_, _) => if has_time {
            EventSentence::Arriving
        } else {
            EventSentence::Nothing
        },
        Event::TransitionTo(_) => if !has_time {
            EventSentence::Nothing
        } else if has_platform {
            EventSentence::TransitionOnPlatform
        } else {
            EventSentence::Transition
        },
        Event::AfterJourney => EventSentence::Arrived,
        Event::Cancelled => EventSentence::Cancelled,
        Event::Unreachable => EventSentence::Unreachable,
    }
}

/// A sentence template with its placeholders filled in, one after the
/// other: the duration, the name of the next leg, its departure platform,
/// its origin, and the destination of the leg ridden.
pub open spec fn event_filled(
    template: Seq<char>,
    duration: Seq<char>,
    name: Seq<char>,
    platform: Seq<char>,
    origin: Seq<char>,
    destination: Seq<char>,
) -> Seq<char> {
    replaced(
        replaced(
            replaced(
                replaced(replaced(template, "{duration}"@, duration), "{next-leg-name}"@, name),
                "{next-platform}"@,
                platform,
            ),
            "{next-origin}"@,
            origin,
        ),
        "{current-destination}"@,
        destination,
    )
}

/// Fills the placeholders of a sentence template.
pub fn fill_event(
    template: &str,
    duration: &str,
    name: &str,
    platform: &str,
    origin: &str,
    destination: &str,
) -> (r: String)
    ensures
        r@ == event_filled(template@, duration@, name@, platform@, origin@, destination@),
{
    proof {
        reveal_strlit("{duration}");
        reveal_strlit("{next-leg-name}");
        reveal_strlit("{next-platform}");
        reveal_strlit("{next-origin}");
        reveal_strlit("{current-destination}");
    }
    let a = replace_all(template, "{duration}", duration);
    let b = replace_all(a.as_str(), "{next-leg-name}", name);
    let c = replace_all(b.as_str(), "{next-platform}", platform);
    let d = replace_all(c.as_str(), "{next-origin}", origin);
    replace_all(d.as_str(), "{current-destination}", destination)
}

impl EventSentence {
    /// The message id of the sentence; none for nothing to say.
    pub open spec fn msgid_spec(self) -> Option<Seq<char>> {
        match self {
            EventSentence::StartOnPlatform => Some(
                "Start at {next-origin} in {duration} on platform {next-platform}"@,
            ),
            EventSentence::Start => Some("Start at {next-origin} in {duration}"@),
            EventSentence::Arriving => Some("Arriving at {current-destination} in {duration}"@),
            EventSentence::TransitionOnPlatform => Some(
                "Transition to {next-leg-name} on platform {next-platform} in {duration}"@,
            ),
            EventSentence::Transition => Some("Transition to {next-leg-name} in {duration}"@),
            EventSentence::Arrived => Some("The journey arrived at its destination"@),
            EventSentence::Cancelled => Some("The journey was cancelled"@),
            EventSentence::Unreachable => Some("A connection is unreachable"@),
            EventSentence::Nothing => None,
        }
    }

    /// The message id of the sentence, to be translated.
    pub fn msgid(&self) -> (r: Option<&'static str>)
        ensures
            match r {
                Some(m) => self.msgid_spec() == Some(m@),
                None => self.msgid_spec() is None,
            },
    {
        match self {
            EventSentence::StartOnPlatform => Some(
                "Start at {next-origin} in {duration} on platform {next-platform}",
            ),
            EventSentence::Start => Some("Start at {next-origin} in {duration}"),
            EventSentence::Arriving => Some("Arriving at {current-destination} in {duration}"),
            EventSentence::TransitionOnPlatform => Some(
                "Transition to {next-leg-name} on platform {next-platform} in {duration}",
            ),
            EventSentence::Transition => Some("Transition to {next-leg-name} in {duration}"),
            EventSentence::Arrived => Some("The journey arrived at its destination"),
            EventSentence::Cancelled => Some("The journey was cancelled"),
            EventSentence::Unreachable => Some("A connection is unreachable"),
            EventSentence::Nothing => None,
        }
    }
}

impl Event {
    /// The departure platform of the next leg, if any.
    pub open spec fn next_platform_view(self, legs: Seq<Leg>) -> Option<Seq<char>> {
        match self.next_leg_spec() {
            Some(l) => opt_view(legs[l as int].departure_platform),
            None => None,
        }
    }

    /// The departure platform of the next leg; empty when unknown.
    pub open spec fn next_platform_text(self, legs: Seq<Leg>) -> Seq<char> {
        match self.next_platform_view(legs) {
            Some(p) => p,
            None => Seq::empty(),
        }
    }

    /// The name of the origin of the next leg; empty without one.
    pub open spec fn next_origin_view(self, legs: Seq<Leg>) -> Seq<char> {
        match self.next_leg_spec() {
            Some(l) => legs[l as int].origin.name_view(),
            None => Seq::empty(),
        }
    }

    /// The name of the destination of the leg ridden; empty without one.
    pub open spec fn current_destination_view(self, legs: Seq<Leg>) -> Seq<char> {
        match self.current_leg_spec() {
            Some(l) => legs[l as int].destination.name_view(),
            None => Seq::empty(),
        }
    }

    /// The sentence for the event on the legs.
    pub open spec fn sentence_spec(self, legs: Seq<Leg>) -> EventSentence {
        event_sentence(self, self.next_action_spec(legs) is Some, self.next_platform_view(legs) is Some)
    }

    /// Whether `d` is the text of the time left until the next action at
    /// time `now`, as a duration shown on its own; empty when that time is
    /// unknown.
    pub open spec fn duration_shown(self, legs: Seq<Leg>, now: int, d: Seq<char>) -> bool {
        match self.next_action_spec(legs) {
            Some(a) => tabular_text(d, a - now),
            None => d == Seq::<char>::empty(),
        }
    }

    /// Whether `name` is the name shown for the next leg: the name of its
    /// line when it has one, else a translation of "Walk"; empty without a
    /// next leg.
    pub open spec fn next_name_shown(self, legs: Seq<Leg>, name: Seq<char>) -> bool {
        match self.next_leg_spec() {
            Some(l) => match legs[l as int].line_name() {
                Some(n) => name == n,
                None => translation_of("Walk"@, name),
            },
            None => name == Seq::<char>::empty(),
        }
    }

    /// The message id of the sentence for the event on the legs; empty when
    /// nothing can be said.
    pub open spec fn sentence_msgid(self, legs: Seq<Leg>) -> Seq<char> {
        match self.sentence_spec(legs).msgid_spec() {
            Some(m) => m,
            None => Seq::empty(),
        }
    }

    /// The sentence for the event.
    pub fn sentence(&self, journey: &JourneyData) -> (r: EventSentence)
        requires
            self.valid_for(journey.legs@.len()),
        ensures
            r == self.sentence_spec(journey.legs@),
    {
        let has_time = self.time_of_next_action(journey).is_some();
        let has_platform = match self.next_leg() {
            Some(l) => journey.legs[l].departure_platform.is_some(),
            None => false,
        };
        match self {
            Event::BeforeJourney(_) => if !has_time {
                EventSentence::Nothing
            } else if has_platform {
                EventSentence::StartOnPlatform
            } else {
                EventSentence::Start
            },
            Event::InLeg(_, _) => if has_time {
                EventSentence::Arriving
            } else {
                EventSentence::Nothing
            },
            Event::TransitionTo(_) => if !has_time {
                EventSentence::Nothing
            } else if has_platform {
                EventSentence::TransitionOnPlatform
            } else {
                EventSentence::Transition
            },
            Event::AfterJourney => EventSentence::Arrived,
            Event::Cancelled => EventSentence::Cancelled,
            Event::Unreachable => EventSentence::Unreachable,
        }
    }

    /// The sentence for the event at time `time`, translated, with the time
    /// left, the next leg's name, platform and origin, and the destination of
    /// the leg ridden filled in; empty when nothing can be said.
    pub fn format_at_time(&self, journey: &JourneyData, time: i64) -> (r: String)
        requires
            self.valid_for(journey.legs@.len()),
            journey.wf(),
            valid_instant(time as int),
        ensures
            self.sentence_spec(journey.legs@) is Nothing ==> r@ == Seq::<char>::empty(),
            self.sentence_spec(journey.legs@) !is Nothing ==> exists|
                t: Seq<char>,
                d: Seq<char>,
                name: Seq<char>,
            |
                #![trigger event_filled(
                    t,
                    d,
                    name,
                    self.next_platform_text(journey.legs@),
                    self.next_origin_view(journey.legs@),
                    self.current_destination_view(journey.legs@),
                )]
                {
                    &&& translation_of(self.sentence_msgid(journey.legs@), t)
                    &&& self.duration_shown(journey.legs@, time as int, d)
                    &&& self.next_name_shown(journey.legs@, name)
                    &&& r@ == event_filled(
                        t,
                        d,
                        name,
                        self.next_platform_text(journey.legs@),
                        self.next_origin_view(journey.legs@),
                        self.current_destination_view(journey.legs@),
                    )
                },
    {
        let sentence = self.sentence(journey);
        let msgid = match sentence.msgid() {
            Some(m) => m,
            None => {
                return String::new();
            },
        };
        let template = gettext(msgid);
        proof {
            lemma_next_action_valid(*journey, *self);
        }
        let duration = match self.time_of_next_action(journey) {
            Some(a) => Utility::format_duration_tabular(Duration::between(time, a)),
            None => String::new(),
        };
        let name = match self.next_leg() {
            Some(l) => journey.legs[l].name(),
            None => String::new(),
        };
        let platform = match self.next_leg() {
            Some(l) => match &journey.legs[l].departure_platform {
                Some(p) => p.clone(),
                None => String::new(),
            },
            None => String::new(),
        };
        let origin = match self.next_leg() {
            Some(l) => {
                assert(journey.legs@[l as int].wf());
                match journey.legs[l].origin.name() {
                    Some(n) => n,
                    None => String::new(),
                }
            },
            None => String::new(),
        };
        let destination = match self.current_leg() {
            Some(l) => {
                assert(journey.legs@[l as int].wf());
                match journey.legs[l].destination.name() {
                    Some(n) => n,
                    None => String::new(),
                }
            },
            None => String::new(),
        };
        let r = fill_event(
            template.as_str(),
            duration.as_str(),
            name.as_str(),
            platform.as_str(),
            origin.as_str(),
            destination.as_str(),
        );
        assert(self.next_platform_text(journey.legs@) == platform@);
        assert(self.next_origin_view(journey.legs@) == origin@);
        assert(self.current_destination_view(journey.legs@) == destination@);
        assert(self.duration_shown(journey.legs@, time as int, duration@));
        assert(self.next_name_shown(journey.legs@, name@));
        assert(r@ == event_filled(
            template@,
            duration@,
            name@,
            self.next_platform_text(journey.legs@),
            self.next_origin_view(journey.legs@),
            self.current_destination_view(journey.legs@),
        ));
        r
    }
}


/// The next action of the event at any time lies after that time, and the
/// event names legs of the journey.
pub proof fn lemma_next_action_after(data: JourneyData, t: int)
    ensures
        data.event_at(t).valid_for(data.legs@.len()),
        data.event_at(t).next_action_spec(data.legs@) matches Some(a) ==> t < a,
{
    assert(data.legs@.len() == data.legs.len());
    lemma_event_from_after(data.legs@, t, 0);
}

/// A journey is unreachable at every time exactly when a leg cannot be
/// reached, and cancelled exactly when, all legs being reachable, one is
/// cancelled.
pub proof fn lemma_unreachable_or_cancelled_event(data: JourneyData, t: int)
    ensures
        data.event_at(t) == Event::Unreachable <==> data.unreachable_spec(),
        data.event_at(t) == Event::Cancelled <==> !data.unreachable_spec() && data.cancelled_spec(),
{
    assert(data.legs@.len() == data.legs.len());
    lemma_event_from_after(data.legs@, t, 0);
}

/// Every alert at time `t` concerns a leg still to come and a real change
/// against its schedule: a delayed departure or a changed departure
/// platform of a leg that departs after `t`, or a delayed arrival of a leg
/// that departs or arrives after `t`.
pub proof fn lemma_alerts_sound(legs: Seq<Leg>, t: int, n: int)
    requires
        0 <= n <= legs.len(),
        legs.len() <= usize::MAX,
    ensures
        forall|k: int|
            0 <= k < alerts_upto(legs, t, n).len() ==> {
                let a = #[trigger] alerts_upto(legs, t, n)[k];
                &&& a.leg_spec() < n
                &&& match a {
                    Alert::DepartureDelayed(i) => departs_after(legs[i as int], t)
                        && legs[i as int].departure != legs[i as int].planned_departure,
                    Alert::DeparturePlatformChange(i) => departs_after(legs[i as int], t)
                        && opt_view(legs[i as int].departure_platform) != opt_view(
                        legs[i as int].planned_departure_platform,
                    ),
                    Alert::ArrivalDelayed(i) => (departs_after(legs[i as int], t) || arrives_after(
                        legs[i as int],
                        t,
                    )) && legs[i as int].arrival != legs[i as int].planned_arrival,
                }
            },
    decreases n,
{
    if n > 0 {
        lemma_alerts_sound(legs, t, n - 1);
        let prev = alerts_upto(legs, t, n - 1);
        let step = leg_alerts(legs[n - 1], (n - 1) as usize, t);
        let all = alerts_upto(legs, t, n);
        assert(all == prev + step);
        assert forall|k: int| 0 <= k < all.len() implies {
            let a = #[trigger] all[k];
            &&& a.leg_spec() < n
            &&& match a {
                Alert::DepartureDelayed(i) => departs_after(legs[i as int], t)
                    && legs[i as int].departure != legs[i as int].planned_departure,
                Alert::DeparturePlatformChange(i) => departs_after(legs[i as int], t) && opt_view(
                    legs[i as int].departure_platform,
                ) != opt_view(legs[i as int].planned_departure_platform),
                Alert::ArrivalDelayed(i) => (departs_after(legs[i as int], t) || arrives_after(
                    legs[i as int],
                    t,
                )) && legs[i as int].arrival != legs[i as int].planned_arrival,
            }
        } by {
            if k < prev.len() {
                assert(all[k] == prev[k]);
            } else {
                assert(all[k] == step[k - prev.len()]);
            }
        }
    }
}

/// The late factor of a journey is the latest of its legs': no leg is later,
/// and it is on time or the factor of one of them.
pub proof fn lemma_late_factor_is_latest(legs: Seq<Leg>, n: int)
    requires
        0 <= n <= legs.len(),
    ensures
        forall|i: int| 0 <= i < n ==> (#[trigger] legs[i]).late_factor_spec().rank() <= late_upto(legs, n).rank(),
        late_upto(legs, n) == LateFactor::OnTime || exists|i: int|
            0 <= i < n && late_upto(legs, n) == (#[trigger] legs[i]).late_factor_spec(),
    decreases n,
{
    if n > 0 {
        lemma_late_factor_is_latest(legs, n - 1);
        if late_upto(legs, n) == legs[n - 1].late_factor_spec() {
            assert(0 <= n - 1 < n);
        }
    }
}

/// The load factor of a journey is the highest of its legs': no leg is
/// fuller, and it is unknown or the factor of one of them.
pub proof fn lemma_load_factor_is_highest(legs: Seq<Leg>, n: int)
    requires
        0 <= n <= legs.len(),
    ensures
        forall|i: int|
            0 <= i < n ==> LoadFactor::of_report((#[trigger] legs[i]).load_factor).rank() <= load_upto(
                legs,
                n,
            ).rank(),
        load_upto(legs, n) == LoadFactor::Unknown || exists|i: int|
            0 <= i < n && load_upto(legs, n) == LoadFactor::of_report((#[trigger] legs[i]).load_factor),
    decreases n,
{
    if n > 0 {
        lemma_load_factor_is_highest(legs, n - 1);
        if load_upto(legs, n) == LoadFactor::of_report(legs[n - 1].load_factor) {
            assert(0 <= n - 1 < n);
        }
    }
}

/// An event is announced at most once: announcing it again, with what the
/// first announcement recorded, announces nothing and changes nothing.
pub proof fn lemma_event_notice_once(e: Event, legs: Seq<Leg>, now: int, st: NotifyView)
    requires
        e.valid_for(legs.len()),
    ensures
        event_notice(e, legs, now, event_notice(e, legs, now, st).1).0 is None,
        event_notice(e, legs, now, event_notice(e, legs, now, st).1).1 == event_notice(e, legs, now, st).1,
{
}

/// Announcing alerts keeps what was recorded of events: the start of the
/// journey, the ends of legs, unreachable and cancelled journeys.
proof fn lemma_alerts_keep_event_status(alerts: Seq<Alert>, legs: Seq<Leg>, st: NotifyView)
    ensures
        alerts_notices(alerts, legs, st).1.beginning_of_journey == st.beginning_of_journey,
        alerts_notices(alerts, legs, st).1.in_leg_soon_transition == st.in_leg_soon_transition,
        alerts_notices(alerts, legs, st).1.unreachable == st.unreachable,
        alerts_notices(alerts, legs, st).1.cancelled == st.cancelled,
    decreases alerts.len(),
{
    if alerts.len() > 0 {
        lemma_alerts_keep_event_status(alerts.drop_last(), legs, st);
    }
}

/// Whether the event parts of two statuses agree.
spec fn same_event_status(a: NotifyView, b: NotifyView) -> bool {
    &&& a.beginning_of_journey == b.beginning_of_journey
    &&& a.in_leg_soon_transition == b.in_leg_soon_transition
    &&& a.unreachable == b.unreachable
    &&& a.cancelled == b.cancelled
}

/// Whether an event is announced depends on the event parts of the status
/// alone.
proof fn lemma_event_notice_by_event_status(e: Event, legs: Seq<Leg>, now: int, a: NotifyView, b: NotifyView)
    requires
        same_event_status(a, b),
    ensures
        event_notice(e, legs, now, a).0 == event_notice(e, legs, now, b).0,
{
}

/// Running the background work twice at the same time announces nothing the
/// second time: every event and alert announced the first time is recorded
/// (legs being told apart by their ids).
pub proof fn lemma_background_twice_quiet(
    j0: Journey,
    j1: Journey,
    j2: Journey,
    n1: Seq<Notice>,
    n2: Seq<Notice>,
    now: int,
)
    requires
        j0.wf(),
        distinct_leg_ids(j0.data_spec().legs@),
        background_done(j0, j1, n1, now),
        background_done(j1, j2, n2, now),
    ensures
        n2 == Seq::<Notice>::empty(),
        j2.status_spec() == j1.status_spec(),
{
    j0.lemma_wf();
    let data = j0.data_spec();
    let legs = data.legs@;
    let e = data.event_at(now);
    let alerts = alerts_upto(legs, now, legs.len() as int);
    assert(legs.len() <= usize::MAX) by {
        assert(data.legs@.len() == data.legs.len());
    }
    lemma_next_action_after(data, now);
    lemma_alerts_sound(legs, now, legs.len() as int);
    assert(alerts_valid(alerts, legs)) by {
        assert forall|k: int| 0 <= k < alerts.len() implies (#[trigger] alerts[k]).leg_spec() < legs.len()
            && legs[alerts[k].leg_spec() as int].wf() by {
            assert(data.wf());
        }
    }
    let first = event_notice(e, legs, now, j0.status_spec());
    let rest = alerts_notices(alerts, legs, first.1);
    lemma_event_notice_once(e, legs, now, j0.status_spec());
    lemma_alerts_keep_event_status(alerts, legs, first.1);
    lemma_event_notice_by_event_status(e, legs, now, rest.1, first.1);
    let second = event_notice(e, legs, now, j1.status_spec());
    assert(second.0 is None);
    assert(second.1 == j1.status_spec());
    lemma_alerts_notified_once(alerts, legs, first.1);
    assert(n2 =~= Seq::<Notice>::empty());
}


/// The alerts of one leg at a later time are among its alerts at an earlier
/// time.
proof fn lemma_leg_alerts_shrink(leg: Leg, i: usize, t1: int, t2: int)
    requires
        t1 <= t2,
    ensures
        forall|k: int|
            0 <= k < leg_alerts(leg, i, t2).len() ==> leg_alerts(leg, i, t1).contains(
                #[trigger] leg_alerts(leg, i, t2)[k],
            ),
{
    let a2 = leg_alerts(leg, i, t2);
    let a1 = leg_alerts(leg, i, t1);
    assert forall|k: int| 0 <= k < a2.len() implies a1.contains(#[trigger] a2[k]) by {
        let dep1 = if departs_after(leg, t1) {
            (if leg.departure != leg.planned_departure {
                seq![Alert::DepartureDelayed(i)]
            } else {
                Seq::empty()
            }) + (if opt_view(leg.departure_platform) != opt_view(leg.planned_departure_platform) {
                seq![Alert::DeparturePlatformChange(i)]
            } else {
                Seq::empty()
            }) + (if leg.arrival != leg.planned_arrival {
                seq![Alert::ArrivalDelayed(i)]
            } else {
                Seq::empty()
            })
        } else {
            Seq::empty()
        };
        let arr1 = if arrives_after(leg, t1) && leg.arrival != leg.planned_arrival {
            seq![Alert::ArrivalDelayed(i)]
        } else {
            Seq::empty()
        };
        assert(a1 == dep1 + arr1);
        let x = a2[k];
        match x {
            Alert::DepartureDelayed(_) => {
                assert(departs_after(leg, t2));
                assert(dep1[0] == x);
                assert(a1[0] == x);
            },
            Alert::DeparturePlatformChange(_) => {
                assert(departs_after(leg, t2));
                if leg.departure != leg.planned_departure {
                    assert(a1[1] == x);
                } else {
                    assert(a1[0] == x);
                }
            },
            Alert::ArrivalDelayed(_) => {
                assert(leg.arrival != leg.planned_arrival);
                if departs_after(leg, t1) {
                    let j = dep1.len() - 1;
                    assert(dep1[j] == x);
                    assert(a1[j] == x);
                } else {
                    assert(!departs_after(leg, t2));
                    assert(arrives_after(leg, t2));
                    assert(arr1[0] == x);
                    assert(a1[0] == x);
                }
            },
        }
    }
}

/// Alerts only disappear as time passes: every alert at a later time is
/// among the alerts at an earlier time, and once every known departure and
/// arrival is past there are none.
pub proof fn lemma_alerts_shrink(legs: Seq<Leg>, t1: int, t2: int, n: int)
    requires
        t1 <= t2,
        0 <= n <= legs.len(),
        legs.len() <= usize::MAX,
    ensures
        forall|k: int|
            0 <= k < alerts_upto(legs, t2, n).len() ==> alerts_upto(legs, t1, n).contains(
                #[trigger] alerts_upto(legs, t2, n)[k],
            ),
        (forall|i: int|
            0 <= i < n ==> !departs_after(#[trigger] legs[i], t2) && !arrives_after(legs[i], t2))
            ==> alerts_upto(legs, t2, n).len() == 0,
    decreases n,
{
    if n > 0 {
        lemma_alerts_shrink(legs, t1, t2, n - 1);
        let i = (n - 1) as usize;
        lemma_leg_alerts_shrink(legs[n - 1], i, t1, t2);
        let p1 = alerts_upto(legs, t1, n - 1);
        let p2 = alerts_upto(legs, t2, n - 1);
        let l1 = leg_alerts(legs[n - 1], i, t1);
        let l2 = leg_alerts(legs[n - 1], i, t2);
        let a1 = alerts_upto(legs, t1, n);
        let a2 = alerts_upto(legs, t2, n);
        assert(a1 == p1 + l1);
        assert(a2 == p2 + l2);
        assert forall|k: int| 0 <= k < a2.len() implies a1.contains(#[trigger] a2[k]) by {
            if k < p2.len() {
                assert(a2[k] == p2[k]);
                assert(p1.contains(p2[k]));
                let j = choose|j: int| 0 <= j < p1.len() && p1[j] == p2[k];
                assert(a1[j] == p1[j]);
            } else {
                assert(a2[k] == l2[k - p2.len()]);
                assert(l1.contains(l2[k - p2.len()]));
                let j = choose|j: int| 0 <= j < l1.len() && l1[j] == l2[k - p2.len()];
                assert(a1[p1.len() + j] == l1[j]);
            }
        }
        if forall|i: int| 0 <= i < n ==> !departs_after(#[trigger] legs[i], t2) && !arrives_after(legs[i], t2) {
            assert(!departs_after(legs[n - 1], t2) && !arrives_after(legs[n - 1], t2));
            assert(l2.len() == 0);
        }
    }
}

/// The total time of a journey runs from the real departure of its first
/// leg to the real arrival of its last leg, when both are known, and is
/// unknown otherwise.
pub proof fn lemma_total_time_is_real(data: JourneyData)
    requires
        data.legs@.len() > 0,
    ensures
        data.legs@[0].departure is Some && data.legs@.last().arrival is Some ==> data.total_time_spec()
            == Some(data.legs@.last().arrival->0 - data.legs@[0].departure->0),
        data.legs@[0].departure is None ==> data.total_time_spec() is None,
        data.legs@.last().arrival is None ==> data.total_time_spec() is None,
{
}

/// The schedule does not enter the total time: two journeys with the same
/// real first departure and last arrival take the same total time, and a
/// last arrival later by `delay` makes the total time longer by `delay`.
pub proof fn lemma_total_time_follows_delays(a: JourneyData, b: JourneyData, delay: int)
    requires
        a.legs@.len() > 0,
        b.legs@.len() > 0,
        a.legs@[0].departure == b.legs@[0].departure,
        a.legs@[0].departure is Some,
        a.legs@.last().arrival matches Some(x) && b.legs@.last().arrival matches Some(y) && y == x
            + delay,
    ensures
        b.total_time_spec() matches Some(tb) && a.total_time_spec() matches Some(ta) && tb == ta + delay,
{
}

/// A journey whose next action is less than a day away and whose last
/// refresh is more than an hour old is refreshed; so is one less than an
/// hour away refreshed more than fifteen minutes ago, one less than fifteen
/// minutes away refreshed more than five minutes ago, and one less than five
/// minutes away refreshed more than a minute ago.  One never refreshed is
/// refreshed while something is left to do; with nothing left to do, a
/// journey is never refreshed.
pub proof fn lemma_refresh_tiers(t: i64, now: int, r: i64)
    ensures
        t - now < 86400 && now - r > 3600 ==> should_refresh_spec(Some(t), now, Some(r)),
        t - now < 3600 && now - r > 900 ==> should_refresh_spec(Some(t), now, Some(r)),
        t - now < 900 && now - r > 300 ==> should_refresh_spec(Some(t), now, Some(r)),
        t - now < 300 && now - r > 60 ==> should_refresh_spec(Some(t), now, Some(r)),
        should_refresh_spec(Some(t), now, None),
        !should_refresh_spec(None, now, Some(r)),
        !should_refresh_spec(None, now, None),
        t - now >= 86400 ==> !should_refresh_spec(Some(t), now, Some(r)),
        now - r <= 60 ==> !should_refresh_spec(Some(t), now, Some(r)),
{
}

/// As time passes toward the next action with no refresh, a refresh once
/// due stays due.
pub proof fn lemma_refresh_stays_due(t: i64, now1: int, now2: int, r: i64)
    requires
        now1 <= now2,
        should_refresh_spec(Some(t), now1, Some(r)),
    ensures
        should_refresh_spec(Some(t), now2, Some(r)),
{
}

/// The notice of each event, when it is due and not yet announced: a
/// cancelled journey is announced as cancelled and one that cannot be made
/// as unreachable, each once; a journey that starts in less than an hour is
/// announced as starting soon with its first leg; the leg ridden, less than
/// five minutes before its arrival and not yet announced, is announced as
/// ending soon, with a change to the next leg ridden when there is one and
/// as the arrival otherwise.
pub proof fn lemma_event_notice_kinds(e: Event, legs: Seq<Leg>, now: int, st: NotifyView)
    requires
        e.valid_for(legs.len()),
    ensures
        e == Event::Cancelled ==> event_notice(e, legs, now, st).0 == if st.cancelled {
            None
        } else {
            Some(Notice::Cancelled)
        },
        e == Event::Unreachable ==> event_notice(e, legs, now, st).0 == if st.unreachable {
            None
        } else {
            Some(Notice::Unreachable)
        },
        forall|l: usize|
            e == Event::BeforeJourney(l) && legs[l as int].departure is Some && legs[l as int].departure->0
                - now < 3600 && !st.beginning_of_journey ==> event_notice(e, legs, now, st).0 == Some(
                Notice::StartsSoon(l),
            ),
        forall|c: usize|
            e == Event::InLeg(c, None) && legs[c as int].arrival is Some && legs[c as int].arrival->0 - now
                < 300 && !st.in_leg_soon_transition.contains(legs[c as int].id@) ==> event_notice(
                e,
                legs,
                now,
                st,
            ).0 == Some(Notice::ArrivingSoon(c)),
        forall|c: usize, m: usize|
            e == Event::InLeg(c, Some(m)) && legs[c as int].arrival is Some && legs[c as int].arrival->0
                - now < 300 && !st.in_leg_soon_transition.contains(legs[c as int].id@) ==> event_notice(
                e,
                legs,
                now,
                st,
            ).0 == Some(Notice::TransitionSoon(c, m)),
        event_notice(e, legs, now, st).0 matches Some(n) ==> match n {
            Notice::Cancelled => e == Event::Cancelled,
            Notice::Unreachable => e == Event::Unreachable,
            Notice::StartsSoon(l) => e == Event::BeforeJourney(l),
            Notice::ArrivingSoon(c) => e == Event::InLeg(c, None),
            Notice::TransitionSoon(c, m) => e == Event::InLeg(c, Some(m)),
            _ => false,
        },
{
}

/// The background work on a journey that is cancelled (every leg reachable)
/// and was not yet announced as cancelled announces it first as cancelled;
/// on one that cannot be made and was not yet announced so, first as
/// unreachable.
pub proof fn lemma_background_announces_cancel(j0: Journey, j1: Journey, n: Seq<Notice>, now: int)
    requires
        background_done(j0, j1, n, now),
    ensures
        j0.data_spec().unreachable_spec() && !j0.status_spec().unreachable ==> n.len() > 0 && n[0]
            == Notice::Unreachable,
        !j0.data_spec().unreachable_spec() && j0.data_spec().cancelled_spec() && !j0.status_spec().cancelled
            ==> n.len() > 0 && n[0] == Notice::Cancelled,
{
    let data = j0.data_spec();
    let legs = data.legs@;
    let e = data.event_at(now);
    let first = event_notice(e, legs, now, j0.status_spec());
    let rest = alerts_notices(alerts_upto(legs, now, legs.len() as int), legs, first.1);
    assert(n == notice_seq(first.0) + rest.0);
    if first.0 is Some {
        assert(n[0] == first.0->0);
    }
}

/// The background work on a journey whose leg being ridden arrives in less
/// than five minutes, the leg not yet announced, announces first that the
/// leg ends soon: the arrival when no ridden leg follows, else the change to
/// the next leg ridden.
pub proof fn lemma_background_announces_arrival(
    j0: Journey,
    j1: Journey,
    n: Seq<Notice>,
    now: int,
    c: usize,
    next: Option<usize>,
    a: i64,
)
    requires
        background_done(j0, j1, n, now),
        j0.data_spec().event_at(now) == Event::InLeg(c, next),
        j0.data_spec().legs@[c as int].arrival == Some(a),
        a - now < 300,
        !j0.status_spec().in_leg_soon_transition.contains(j0.data_spec().legs@[c as int].id@),
    ensures
        n.len() > 0,
        n[0] == match next {
            Some(m) => Notice::TransitionSoon(c, m),
            None => Notice::ArrivingSoon(c),
        },
{
    let data = j0.data_spec();
    let legs = data.legs@;
    let e = data.event_at(now);
    let first = event_notice(e, legs, now, j0.status_spec());
    let rest = alerts_notices(alerts_upto(legs, now, legs.len() as int), legs, first.1);
    assert(n == notice_seq(first.0) + rest.0);
    assert(first.0 is Some);
    assert(n[0] == first.0->0);
}

} // verus!
