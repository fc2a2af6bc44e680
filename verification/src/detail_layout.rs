//! The layout of the details of a journey: the legs ridden, and between
//! them the transitions, which sum up walks and tell how long one waits.

use vstd::prelude::*;

use crate::duration::{Duration, MAX_SPAN};
use crate::journey::JourneyData;
use crate::leg::Leg;
use crate::place::Place;
use crate::text::text_eq;

verus! {

/// Whether two places are the same place: stations with the same id,
/// addresses with the same text, or points with the same id.  A point
/// without an id is no place but itself, and not even that.
pub open spec fn same_place(a: Place, b: Place) -> bool {
    match (a, b) {
        (Place::Station { id: x, .. }, Place::Station { id: y, .. }) => x@ == y@,
        (Place::Address { address: x }, Place::Address { address: y }) => x@ == y@,
        (Place::Point { id: Some(x), .. }, Place::Point { id: Some(y), .. }) => x@ == y@,
        _ => false,
    }
}

impl Place {
    /// Whether two places are the same place.
    pub fn same_as(&self, other: &Place) -> (r: bool)
        ensures
            r == same_place(*self, *other),
    {
        match (self, other) {
            (Place::Station { id: x, .. }, Place::Station { id: y, .. }) => text_eq(x.as_str(), y.as_str()),
            (Place::Address { address: x }, Place::Address { address: y }) => text_eq(
                x.as_str(),
                y.as_str(),
            ),
            (Place::Point { id: Some(x), .. }, Place::Point { id: Some(y), .. }) => text_eq(
                x.as_str(),
                y.as_str(),
            ),
            _ => false,
        }
    }
}

/// One item of the details.
pub enum DetailItem {
    /// The change between two legs, or the way to the first leg or from the
    /// last one.
    Transition {
        /// How long the walks here take, if there are any.
        walking: Option<Duration>,
        /// How long one waits for the next leg, when both times are known.
        waiting: Option<Duration>,
        /// Whether one walks here: there are walks, or the next leg starts
        /// elsewhere than where this stretch starts.
        has_walk: bool,
        /// Whether this is the start or the end of the journey.
        terminal: bool,
        /// The leg whose destination ends the journey, at the end.
        final_leg: Option<usize>,
    },
    /// A leg ridden.
    Ride(usize),
}

/// The contents of a detail item, in seconds.
pub enum DetailView {
    /// A transition.
    Transition {
        /// Walking seconds.
        walking: Option<int>,
        /// Waiting seconds.
        waiting: Option<int>,
        /// Whether one walks.
        has_walk: bool,
        /// Whether at the start or end.
        terminal: bool,
        /// The leg ending the journey.
        final_leg: Option<int>,
    },
    /// A leg ridden.
    Ride(int),
}

/// The contents of a detail item.
pub open spec fn detail_view(d: DetailItem) -> DetailView {
    match d {
        DetailItem::Transition { walking, waiting, has_walk, terminal, final_leg } => DetailView::Transition {
            walking: match walking {
                Some(w) => Some(w.secs()),
                None => None,
            },
            waiting: match waiting {
                Some(w) => Some(w.secs()),
                None => None,
            },
            has_walk,
            terminal,
            final_leg: match final_leg {
                Some(f) => Some(f as int),
                None => None,
            },
        },
        DetailItem::Ride(i) => DetailView::Ride(i as int),
    }
}

/// How long a walk takes: from its departure (or its arrival when that is
/// unknown) to its arrival; nothing when the arrival is unknown.
pub open spec fn walk_secs(l: Leg) -> int {
    match l.arrival {
        Some(a) => a - match l.departure {
            Some(d) => d,
            None => a,
        },
        None => 0,
    }
}

/// The time the legs `i` up to `j` (excluded) take as walks.
pub open spec fn walk_sum(legs: Seq<Leg>, i: int, j: int) -> int
    decreases j - i,
{
    if j <= i {
        0
    } else {
        walk_sum(legs, i, j - 1) + walk_secs(legs[j - 1])
    }
}

/// The first leg from `i` on that is not walked, or the number of legs.
pub open spec fn walk_end(legs: Seq<Leg>, i: int) -> int
    decreases legs.len() - i,
{
    if i >= legs.len() {
        legs.len() as int
    } else if legs[i].walking {
        walk_end(legs, i + 1)
    } else {
        i
    }
}

/// The items from leg `i` on: a stretch of walks up to the next leg ridden,
/// summed up in a transition (unless the journey starts with that leg),
/// then that leg, then the items after it.
pub open spec fn items_from(legs: Seq<Leg>, i: int) -> Seq<DetailView>
    decreases legs.len() - i,
{
    if i < 0 || i >= legs.len() {
        Seq::empty()
    } else {
        proof {
            lemma_walk_end(legs, i);
        }
        let e = walk_end(legs, i);
        items_step(legs, i, e) + if e < legs.len() {
            items_from(legs, e + 1)
        } else {
            Seq::empty()
        }
    }
}

/// The items of the stretch from leg `i` to the next leg ridden `e`.
pub open spec fn items_step(legs: Seq<Leg>, i: int, e: int) -> Seq<DetailView> {
    let is_start = i == 0;
    let is_end = e >= legs.len();
    let walking = if e > i {
        Some(walk_sum(legs, i, e))
    } else {
        None
    };
    let waiting = if !is_start && !is_end {
        match (legs[e].departure, legs[e - 1].arrival) {
            (Some(d), Some(a)) => Some(d - a),
            _ => None,
        }
    } else {
        None
    };
    let has_walk = walking is Some || (!is_end && !same_place(legs[e].origin, legs[i].origin));
    (if walking is Some || !is_start {
        seq![
            DetailView::Transition {
                walking,
                waiting,
                has_walk,
                terminal: is_start || is_end,
                final_leg: if is_end {
                    Some(legs.len() - 1)
                } else {
                    None
                },
            },
        ]
    } else {
        Seq::empty()
    }) + if !is_end {
        seq![DetailView::Ride(e)]
    } else {
        Seq::empty()
    }
}

/// The stretch of walks ends at or after where it starts.
pub proof fn lemma_walk_end(legs: Seq<Leg>, i: int)
    requires
        0 <= i,
    ensures
        i <= walk_end(legs, i) || i > legs.len(),
        walk_end(legs, i) <= legs.len() || i > legs.len(),
        forall|k: int| i <= k < walk_end(legs, i) ==> (#[trigger] legs[k]).walking,
        walk_end(legs, i) < legs.len() ==> !legs[walk_end(legs, i)].walking,
    decreases legs.len() - i,
{
    if i < legs.len() && legs[i].walking {
        lemma_walk_end(legs, i + 1);
    }
}

/// Whether the walks of each stretch of walking legs add up, at every step,
/// to a span within the bound of a span: for every stretch that starts with
/// the journey or after a leg ridden, and every part of it taken from its
/// start.  Adding spans beyond that bound is an overflow.
pub open spec fn walks_fit(legs: Seq<Leg>) -> bool {
    forall|i: int, j: int|
        0 <= i <= j <= legs.len() && (i == 0 || !legs[i - 1].walking) && (forall|k: int|
            i <= k < j ==> (#[trigger] legs[k]).walking) ==> -MAX_SPAN <= #[trigger] walk_sum(legs, i, j)
            <= MAX_SPAN
}

/// The walking time of one leg.
fn walk_of(l: &Leg) -> (r: i64)
    requires
        l.wf(),
    ensures
        r == walk_secs(*l),
{
    match l.arrival {
        Some(a) => {
            let d = match l.departure {
                Some(d) => d,
                None => a,
            };
            a - d
        },
        None => 0,
    }
}

/// The layout of the details of a journey, in order.
#[verifier::rlimit(40)]
pub fn detail_layout(journey: &JourneyData) -> (r: Vec<DetailItem>)
    requires
        journey.wf(),
        walks_fit(journey.legs@),
    ensures
        r@.map_values(|d: DetailItem| detail_view(d)) == items_from(journey.legs@, 0),
{
    let legs = &journey.legs;
    let n = legs.len();
    let mut out: Vec<DetailItem> = Vec::new();
    let mut i: usize = 0;
    proof {
        assert(items_from(legs@, 0) == items_from(legs@, 0));
    }
    while i < n
        invariant
            n == legs@.len(),
            i <= n,
            i < n ==> (i == 0 || !legs@[i - 1].walking),
            journey.wf(),
            walks_fit(legs@),
            legs == &journey.legs,
            out@.map_values(|d: DetailItem| detail_view(d)) + items_from(legs@, i as int) == items_from(
                legs@,
                0,
            ),
        decreases n - i,
    {
        let i_start = i;
        let ghost e = walk_end(legs@, i as int);
        proof {
            lemma_walk_end(legs@, i as int);
        }
        let mut walked: i64 = 0;
        let mut any_walk = false;
        let mut j: usize = i;
        while j < n && legs[j].walking
            invariant
                n == legs@.len(),
                i_start == 0 || !legs@[i_start - 1].walking,
                walks_fit(legs@),
                i_start <= j <= e,
                e == walk_end(legs@, i_start as int),
                e <= n,
                forall|k: int| i_start <= k < e ==> (#[trigger] legs@[k]).walking,
                e < n ==> !legs@[e].walking,
                journey.wf(),
                legs == &journey.legs,
                walked == walk_sum(legs@, i_start as int, j as int),
                any_walk == (j > i_start),
            decreases n - j,
        {
            proof {
                assert(-MAX_SPAN <= walk_sum(legs@, i_start as int, j + 1) <= MAX_SPAN);
                assert(legs@[j as int].wf());
            }
            walked = walked + walk_of(&legs[j]);
            any_walk = true;
            j += 1;
        }
        assert(j == e);
        let is_start = i_start == 0;
        let is_end = j == n;
        let walking: Option<Duration> = if any_walk {
            proof {
                assert(-MAX_SPAN <= walk_sum(legs@, i_start as int, j as int) <= MAX_SPAN);
            }
            Some(Duration::seconds(walked))
        } else {
            None
        };
        let waiting: Option<Duration> = if !is_start && !is_end {
            assert(legs@[j as int].wf() && legs@[j - 1].wf());
            match (legs[j].departure, legs[j - 1].arrival) {
                (Some(d), Some(a)) => Some(Duration::between(a, d)),
                _ => None,
            }
        } else {
            None
        };
        let has_walk = any_walk || (!is_end && !legs[j].origin.same_as(&legs[i_start].origin));
        let ghost before = out@.map_values(|d: DetailItem| detail_view(d));
        if any_walk || !is_start {
            out.push(
                DetailItem::Transition {
                    walking,
                    waiting,
                    has_walk,
                    terminal: is_start || is_end,
                    final_leg: if is_end {
                        Some(n - 1)
                    } else {
                        None
                    },
                },
            );
        }
        if !is_end {
            out.push(DetailItem::Ride(j));
        }
        proof {
            assert(out@.map_values(|d: DetailItem| detail_view(d)) =~= before + items_step(
                legs@,
                i_start as int,
                e,
            ));
        }
        if is_end {
            i = n;
            proof {
                assert(items_from(legs@, i_start as int) == items_step(legs@, i_start as int, e));
                assert(items_from(legs@, n as int) =~= Seq::<DetailView>::empty());
            }
        } else {
            i = j + 1;
        }
        assert(out@.map_values(|d: DetailItem| detail_view(d)) + items_from(legs@, i as int)
            =~= before + items_from(legs@, i_start as int));
    }
    assert(items_from(legs@, n as int) =~= Seq::<DetailView>::empty());
    assert(out@.map_values(|d: DetailItem| detail_view(d)) =~= out@.map_values(
        |d: DetailItem| detail_view(d),
    ) + items_from(legs@, n as int));
    out
}

/// The title of the details: the origin, an arrow, the destination.
pub fn format_source_destination(source: &str, destination: &str) -> (r: String)
    ensures
        r@ == source@ + seq![' ', '→', ' '] + destination@,
{
    let mut r = String::from_str(source);
    r.append(" → ");
    proof {
        reveal_strlit(" → ");
    }
    r.append(destination);
    r
}

} // verus!
