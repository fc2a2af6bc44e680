//! The journeys found by a search, extended by earlier and later ones.

use vstd::prelude::*;

use crate::assoc::TextSet;
use crate::journey::{Journey, JourneyData};
use crate::place::Place;
use crate::text::opt_view;

verus! {

/// Whether a search asks for a departure or an arrival time.
#[derive(Debug, Copy, Clone, PartialEq, Eq, Structural)]
pub enum TimeType {
    /// Arrive at the time asked for.
    Arrival,
    /// Depart at the time asked for.
    Departure,
}

impl Default for TimeType {
    fn default() -> (r: Self)
        ensures
            r == TimeType::Departure,
    {
        TimeType::Departure
    }
}

/// Which items of a list changed: from `position`, `removed` items were
/// removed and `added` items added.
#[derive(Debug, Copy, Clone, PartialEq, Eq, Structural)]
pub struct ItemsChanged {
    /// Where the change starts.
    pub position: u32,
    /// How many items were removed.
    pub removed: u32,
    /// How many items were added.
    pub added: u32,
}

/// A count as an unsigned 32-bit number, or zero when it does not fit.
pub open spec fn count_u32(n: int) -> u32 {
    if 0 <= n <= u32::MAX {
        n as u32
    } else {
        0
    }
}

fn to_u32(n: usize) -> (r: u32)
    ensures
        r == count_u32(n as int),
{
    if n <= 4294967295 {
        n as u32
    } else {
        0
    }
}

/// The ids of a list of journeys.
pub open spec fn ids_of(s: Seq<Journey>) -> Set<Seq<char>> {
    Set::new(|k: Seq<char>| exists|i: int| 0 <= i < s.len() && s[i].data_spec().id@ == k)
}

/// The journeys of `s` whose id is not in `ids`, in order.
pub open spec fn without_ids(s: Seq<Journey>, ids: Set<Seq<char>>) -> Seq<Journey>
    decreases s.len(),
{
    if s.len() == 0 {
        Seq::empty()
    } else {
        without_ids(s.drop_last(), ids) + if ids.contains(s.last().data_spec().id@) {
            Seq::<Journey>::empty()
        } else {
            seq![s.last()]
        }
    }
}

/// The index of the first journey whose departure day is not before `day`,
/// or the length of the list.
pub open spec fn first_not_before(days: Seq<u32>, day: int) -> int
    decreases days.len(),
{
    if days.len() == 0 {
        0
    } else if days[0] >= day {
        0
    } else {
        1 + first_not_before(days.drop_first(), day)
    }
}

/// The selection of a range of positions: the range from `start` of
/// `n_items` positions set, and maybe one position added.
#[derive(Debug, Clone, Copy, PartialEq, Eq, Structural)]
pub struct SelectionRange {
    /// The first position of the range.
    pub start: u32,
    /// The number of positions of the range.
    pub n_items: u32,
    /// The position added, if any.
    pub added: Option<u32>,
}

/// The journeys found for a search from `source` to `destination`.
pub struct JourneysResult {
    journeys: Vec<Journey>,
    source: Place,
    destination: Place,
    earlier_ref: Option<String>,
    later_ref: Option<String>,
    requested_time: Option<i64>,
    time_type: TimeType,
    selected: Option<String>,
}

impl JourneysResult {
    /// Whether every journey is well formed and has a leg.
    pub closed spec fn wf(&self) -> bool {
        forall|i: int|
            0 <= i < self.journeys@.len() ==> (#[trigger] self.journeys@[i]).wf()
                && self.journeys@[i].data_spec().legs@.len() > 0
    }

    /// The journeys, in order.
    pub closed spec fn journeys_spec(&self) -> Seq<Journey> {
        self.journeys@
    }

    /// The reference to ask for earlier journeys with.
    pub closed spec fn earlier_ref_spec(&self) -> Option<Seq<char>> {
        opt_view(self.earlier_ref)
    }

    /// The reference to ask for later journeys with.
    pub closed spec fn later_ref_spec(&self) -> Option<Seq<char>> {
        opt_view(self.later_ref)
    }

    /// The id of the selected journey, if any.
    pub closed spec fn selected_spec(&self) -> Option<Seq<char>> {
        opt_view(self.selected)
    }

    /// The time asked for, the kind of time, and the places searched between.
    pub closed spec fn query_spec(&self) -> (Option<i64>, TimeType, Place, Place) {
        (self.requested_time, self.time_type, self.source, self.destination)
    }

    /// The departure days of the journeys.
    pub closed spec fn days_spec(&self) -> Seq<u32> {
        Seq::new(
            self.journeys@.len(),
            |i: int|
                match self.journeys@[i].data_spec().legs@[0].departure_day {
                    Some(d) => d,
                    None => 0u32,
                },
        )
    }

    /// The result of a search, with the journeys found in the order given.
    pub fn new(
        journeys: Vec<JourneyData>,
        earlier_ref: Option<String>,
        later_ref: Option<String>,
        source: Place,
        destination: Place,
        requested_time: Option<i64>,
        time_type: TimeType,
    ) -> (r: (JourneysResult, ItemsChanged))
        requires
            forall|i: int|
                0 <= i < journeys@.len() ==> (#[trigger] journeys@[i]).wf() && journeys@[i].legs@.len()
                    > 0,
        ensures
            r.0.wf(),
            r.0.journeys_spec().len() == journeys@.len(),
            forall|i: int|
                0 <= i < journeys@.len() ==> (#[trigger] r.0.journeys_spec()[i]).data_spec()
                    == journeys@[i],
            r.0.earlier_ref_spec() == opt_view(earlier_ref),
            r.0.later_ref_spec() == opt_view(later_ref),
            r.0.selected_spec() is None,
            r.0.query_spec() == (requested_time, time_type, source, destination),
            r.1 == (ItemsChanged { position: 0, removed: 0, added: count_u32(journeys@.len() as int) }),
    {
        let n = journeys.len();
        let mut list: Vec<Journey> = Vec::new();
        let ghost all = journeys@;
        let mut rest = journeys;
        while rest.len() > 0
            invariant
                list@.len() <= all.len(),
                rest@ == all.subrange(list@.len() as int, all.len() as int),
                forall|k: int|
                    0 <= k < list@.len() ==> (#[trigger] list@[k]).data_spec() == all[k] && list@[k].wf(),
                forall|i: int| 0 <= i < all.len() ==> (#[trigger] all[i]).wf() && all[i].legs@.len() > 0,
            decreases rest@.len(),
        {
            let ghost k = list@.len();
            let j = rest.remove(0);
            assert(j == all[k as int]);
            list.push(Journey::new(j));
            assert(rest@ =~= all.subrange(list@.len() as int, all.len() as int));
        }
        let added = to_u32(n);
        let r = JourneysResult {
            journeys: list,
            source,
            destination,
            earlier_ref,
            later_ref,
            requested_time,
            time_type,
            selected: None,
        };
        (r, ItemsChanged { position: 0, removed: 0, added })
    }

    /// The journeys, in order.
    pub fn journeys(&self) -> (r: &Vec<Journey>)
        ensures
            r@ == self.journeys_spec(),
    {
        &self.journeys
    }

    /// The place searched from.
    pub fn source(&self) -> (r: &Place)
        ensures
            *r == self.query_spec().2,
    {
        &self.source
    }

    /// The place searched to.
    pub fn destination(&self) -> (r: &Place)
        ensures
            *r == self.query_spec().3,
    {
        &self.destination
    }

    /// The time asked for.
    pub fn requested_time(&self) -> (r: Option<i64>)
        ensures
            r == self.query_spec().0,
    {
        self.requested_time
    }

    /// Whether the time asked for is a departure or an arrival.
    pub fn time_type(&self) -> (r: TimeType)
        ensures
            r == self.query_spec().1,
    {
        self.time_type
    }

    /// The reference to ask for earlier journeys with.
    pub fn earlier_ref(&self) -> (r: Option<String>)
        ensures
            opt_view(r) == self.earlier_ref_spec(),
    {
        self.earlier_ref.clone()
    }

    /// The reference to ask for later journeys with.
    pub fn later_ref(&self) -> (r: Option<String>)
        ensures
            opt_view(r) == self.later_ref_spec(),
    {
        self.later_ref.clone()
    }

    /// The ids of the journeys held.
    fn current_ids(&self) -> (r: TextSet)
        ensures
            r.view_set() == ids_of(self.journeys@),
    {
        let mut ids = TextSet::new();
        let n = self.journeys.len();
        let mut i: usize = 0;
        while i < n
            invariant
                n == self.journeys@.len(),
                i <= n,
                ids.view_set() == ids_of(self.journeys@.subrange(0, i as int)),
            decreases n - i,
        {
            let ghost before = ids.view_set();
            ids.insert(self.journeys[i].id());
            proof {
                let s = self.journeys@.subrange(0, i as int);
                let t = self.journeys@.subrange(0, i + 1);
                assert forall|k: Seq<char>| #[trigger] ids_of(t).contains(k) == before.insert(
                    self.journeys@[i as int].data_spec().id@,
                ).contains(k) by {
                    if ids_of(s).contains(k) {
                        let j = choose|j: int| 0 <= j < s.len() && s[j].data_spec().id@ == k;
                        assert(t[j] == s[j]);
                    }
                    if k == self.journeys@[i as int].data_spec().id@ {
                        assert(t[i as int] == self.journeys@[i as int]);
                    }
                    if ids_of(t).contains(k) {
                        let j = choose|j: int| 0 <= j < t.len() && t[j].data_spec().id@ == k;
                        if j < i {
                            assert(t[j] == s[j]);
                        }
                    }
                }
                assert(ids_of(t) =~= before.insert(self.journeys@[i as int].data_spec().id@));
            }
            i += 1;
        }
        assert(self.journeys@.subrange(0, n as int) =~= self.journeys@);
        ids
    }

    /// Adds the journeys of an earlier search before these, leaving out any
    /// journey whose id is already here, and takes over its reference for
    /// earlier journeys.
    pub fn merge_prepend(&mut self, other: JourneysResult) -> (r: ItemsChanged)
        requires
            old(self).wf(),
            other.wf(),
        ensures
            final(self).wf(),
            final(self).journeys_spec() == without_ids(
                other.journeys_spec(),
                ids_of(old(self).journeys_spec()),
            ) + old(self).journeys_spec(),
            final(self).earlier_ref_spec() == other.earlier_ref_spec(),
            final(self).later_ref_spec() == old(self).later_ref_spec(),
            final(self).selected_spec() == old(self).selected_spec(),
            final(self).query_spec() == old(self).query_spec(),
            r == (ItemsChanged {
                position: 0,
                removed: 0,
                added: count_u32(
                    without_ids(other.journeys_spec(), ids_of(old(self).journeys_spec())).len() as int,
                ),
            }),
    {
        let ids = self.current_ids();
        let JourneysResult { journeys: incoming, earlier_ref, .. } = other;
        let mut kept = filter_new(incoming, &ids);
        let added = to_u32(kept.len());
        let ghost before = self.journeys@;
        let mut old_list: Vec<Journey> = Vec::new();
        std::mem::swap(&mut old_list, &mut self.journeys);
        kept.append(&mut old_list);
        self.journeys = kept;
        self.earlier_ref = earlier_ref;
        assert forall|i: int| 0 <= i < self.journeys@.len() implies (#[trigger] self.journeys@[i]).wf()
            && self.journeys@[i].data_spec().legs@.len() > 0 by {
            let f = without_ids(other.journeys_spec(), ids_of(before));
            if i >= f.len() {
                assert(self.journeys@[i] == before[i - f.len()]);
            }
        }
        ItemsChanged { position: 0, removed: 0, added }
    }

    /// Adds the journeys of a later search after these, leaving out any
    /// journey whose id is already here, and takes over its reference for
    /// later journeys.
    pub fn merge_append(&mut self, other: JourneysResult) -> (r: ItemsChanged)
        requires
            old(self).wf(),
            other.wf(),
        ensures
            final(self).wf(),
            final(self).journeys_spec() == old(self).journeys_spec() + without_ids(
                other.journeys_spec(),
                ids_of(old(self).journeys_spec()),
            ),
            final(self).earlier_ref_spec() == old(self).earlier_ref_spec(),
            final(self).later_ref_spec() == other.later_ref_spec(),
            final(self).selected_spec() == old(self).selected_spec(),
            final(self).query_spec() == old(self).query_spec(),
            r == (ItemsChanged {
                position: count_u32(old(self).journeys_spec().len() as int),
                removed: 0,
                added: count_u32(
                    without_ids(other.journeys_spec(), ids_of(old(self).journeys_spec())).len() as int,
                ),
            }),
    {
        let ids = self.current_ids();
        let JourneysResult { journeys: incoming, later_ref, .. } = other;
        let mut kept = filter_new(incoming, &ids);
        let position = to_u32(self.journeys.len());
        let added = to_u32(kept.len());
        let ghost before = self.journeys@;
        self.journeys.append(&mut kept);
        self.later_ref = later_ref;
        assert forall|i: int| 0 <= i < self.journeys@.len() implies (#[trigger] self.journeys@[i]).wf()
            && self.journeys@[i].data_spec().legs@.len() > 0 by {
            if i >= before.len() {
                let f = without_ids(other.journeys_spec(), ids_of(before));
                assert(self.journeys@[i] == f[i - before.len()]);
            }
        }
        ItemsChanged { position, removed: 0, added }
    }

    /// Selects the journey with the given id, or none.  Every item's
    /// selection may have changed.
    pub fn set_selected(&mut self, selected: Option<String>) -> (r: ItemsChanged)
        requires
            old(self).wf(),
        ensures
            final(self).wf(),
            final(self).selected_spec() == opt_view(selected),
            final(self).journeys_spec() == old(self).journeys_spec(),
            final(self).earlier_ref_spec() == old(self).earlier_ref_spec(),
            final(self).later_ref_spec() == old(self).later_ref_spec(),
            final(self).query_spec() == old(self).query_spec(),
            r == (ItemsChanged {
                position: 0,
                removed: 0,
                added: count_u32(old(self).journeys_spec().len() as int),
            }),
    {
        self.selected = selected;
        ItemsChanged { position: 0, removed: 0, added: to_u32(self.journeys.len()) }
    }

    /// Whether the journey at `position` is the selected one (compared by id).
    pub fn is_selected(&self, position: u32) -> (r: bool)
        ensures
            r == (position < self.journeys_spec().len() && self.selected_spec() == Some(
                self.journeys_spec()[position as int].data_spec().id@,
            )),
    {
        let p = position as usize;
        if p < self.journeys.len() {
            match &self.selected {
                Some(s) => {
                    let id = self.journeys[p].id();
                    id.eq(s)
                },
                None => false,
            }
        } else {
            false
        }
    }

    /// Whether the first journey with the selected id lies at a position in
    /// `position..position + n_items` (that fits 32 bits).
    pub open spec fn selected_in_range(&self, position: u32, n_items: u32) -> bool {
        exists|i: int|
            #![trigger self.journeys_spec()[i]]
            0 <= i < self.journeys_spec().len() && self.selected_spec() == Some(
                self.journeys_spec()[i].data_spec().id@,
            ) && (forall|j: int|
                0 <= j < i ==> self.selected_spec() != Some(
                    (#[trigger] self.journeys_spec()[j]).data_spec().id@,
                )) && i <= u32::MAX && position <= i < position + n_items
    }

    /// The selection among the positions `position..position + n_items`, as
    /// a list view asks for it: the whole range set, with `position` added
    /// when the first journey with the selected id lies in the range.
    pub fn selection_in_range(&self, position: u32, n_items: u32) -> (r: SelectionRange)
        requires
            position + n_items <= u32::MAX,
        ensures
            r.start == position,
            r.n_items == n_items,
            r.added == if self.selected_in_range(position, n_items) {
                Some(position)
            } else {
                None::<u32>
            },
    {
        let n = self.journeys.len();
        let mut i: usize = 0;
        let mut found: Option<usize> = None;
        match &self.selected {
            Some(sel) => {
                while i < n && found.is_none()
                    invariant
                        n == self.journeys@.len(),
                        i <= n,
                        self.selected_spec() == Some(sel@),
                        found is None ==> forall|j: int|
                            0 <= j < i ==> self.selected_spec() != Some(
                                (#[trigger] self.journeys_spec()[j]).data_spec().id@,
                            ),
                        found matches Some(k) ==> k < n && self.selected_spec() == Some(
                            self.journeys_spec()[k as int].data_spec().id@,
                        ) && forall|j: int|
                            0 <= j < k ==> self.selected_spec() != Some(
                                (#[trigger] self.journeys_spec()[j]).data_spec().id@,
                            ),
                    decreases n - i + (if found is None { 1int } else { 0int }),
                {
                    let id = self.journeys[i].id();
                    if id.eq(sel) {
                        found = Some(i);
                    } else {
                        i += 1;
                    }
                }
            },
            None => {},
        }
        let added = match found {
            Some(k) => {
                if k <= u32::MAX as usize && position as usize <= k && (k as u64) < (position as u64)
                    + (n_items as u64) {
                    Some(position)
                } else {
                    None
                }
            },
            None => None,
        };
        proof {
            if self.selected_in_range(position, n_items) {
                let w = choose|w: int|
                    #![trigger self.journeys_spec()[w]]
                    0 <= w < self.journeys_spec().len() && self.selected_spec() == Some(
                        self.journeys_spec()[w].data_spec().id@,
                    ) && (forall|j: int|
                        0 <= j < w ==> self.selected_spec() != Some(
                            (#[trigger] self.journeys_spec()[j]).data_spec().id@,
                        )) && w <= u32::MAX && position <= w < position + n_items;
                assert(found is Some);
                let k = found->0 as int;
                if k < w {
                    assert(self.selected_spec() != Some(self.journeys_spec()[k].data_spec().id@));
                }
                if w < k {
                    assert(self.selected_spec() != Some(self.journeys_spec()[w].data_spec().id@));
                }
            }
            if let Some(k) = found {
                if added is Some {
                    assert(self.journeys_spec()[k as int] == self.journeys_spec()[k as int]);
                }
            }
        }
        SelectionRange { start: position, n_items, added }
    }

    /// The number of journeys.
    pub fn n_items(&self) -> (r: u32)
        ensures
            r == count_u32(self.journeys_spec().len() as int),
    {
        to_u32(self.journeys.len())
    }

    /// The section of journeys departing on the same day as the one at
    /// `pos`: the index of the first journey of that day and the index after
    /// the last, found by scanning for the first journey departing on that
    /// day or later, and on the next day or later (on a list ordered by
    /// departure day, exactly the journeys of that day).  For a position past
    /// the end, the section from the end to the largest position.
    pub fn section(&self, pos: u32) -> (r: (u32, u32))
        requires
            self.wf(),
        ensures
            pos >= self.journeys_spec().len() ==> r == (count_u32(self.journeys_spec().len() as int), u32::MAX),
            pos < self.journeys_spec().len() ==> ({
                let day = self.days_spec()[pos as int] as int;
                r == (
                    count_u32(first_not_before(self.days_spec(), day)),
                    count_u32(first_not_before(self.days_spec(), day + 1)),
                )
            }),
    {
        let n = self.journeys.len();
        if (pos as usize) >= n {
            return (to_u32(n), u32::MAX);
        }
        let mut days: Vec<u32> = Vec::new();
        let mut i: usize = 0;
        while i < n
            invariant
                n == self.journeys@.len(),
                self.wf(),
                i <= n,
                days@ == self.days_spec().subrange(0, i as int),
            decreases n - i,
        {
            let ghost before = days@;
            assert(self.journeys@[i as int].wf());
            days.push(self.journeys[i].day_timestamp());
            assert(days@ =~= self.days_spec().subrange(0, i + 1));
            i += 1;
        }
        assert(days@ =~= self.days_spec());
        let day = days[pos as usize];
        let first_in = first_at_least(&days, day as u64);
        let first_out = first_at_least(&days, day as u64 + 1);
        (to_u32(first_in), to_u32(first_out))
    }
}

/// The index of the first day in the list not before `day`.
fn first_at_least(days: &Vec<u32>, day: u64) -> (r: usize)
    ensures
        r == first_not_before(days@, day as int),
{
    let n = days.len();
    let mut i: usize = 0;
    assert(days@.subrange(0, n as int) =~= days@);
    while i < n
        invariant
            n == days@.len(),
            i <= n,
            first_not_before(days@, day as int) == i + first_not_before(
                days@.subrange(i as int, n as int),
                day as int,
            ),
        decreases n - i,
    {
        let ghost rest = days@.subrange(i as int, n as int);
        assert(rest.drop_first() =~= days@.subrange(i + 1, n as int));
        if days[i] as u64 >= day {
            return i;
        }
        i += 1;
    }
    proof {
        assert(days@.subrange(n as int, n as int) =~= Seq::<u32>::empty());
    }
    assert(days@.subrange(0, n as int) =~= days@);
    n
}

/// The journeys whose id is not among `ids`, in order.
fn filter_new(journeys: Vec<Journey>, ids: &TextSet) -> (r: Vec<Journey>)
    requires
        forall|i: int|
            0 <= i < journeys@.len() ==> (#[trigger] journeys@[i]).wf()
                && journeys@[i].data_spec().legs@.len() > 0,
    ensures
        r@ == without_ids(journeys@, ids.view_set()),
        forall|i: int| 0 <= i < r@.len() ==> (#[trigger] r@[i]).wf() && r@[i].data_spec().legs@.len() > 0,
{
    let ghost all = journeys@;
    let mut rest = journeys;
    let mut out: Vec<Journey> = Vec::new();
    let ghost mut done: int = 0;
    while rest.len() > 0
        invariant
            0 <= done <= all.len(),
            rest@ == all.subrange(done, all.len() as int),
            out@ == without_ids(all.subrange(0, done), ids.view_set()),
            forall|i: int| 0 <= i < all.len() ==> (#[trigger] all[i]).wf() && all[i].data_spec().legs@.len() > 0,
            forall|i: int| 0 <= i < out@.len() ==> (#[trigger] out@[i]).wf() && out@[i].data_spec().legs@.len() > 0,
        decreases rest@.len(),
    {
        let j = rest.remove(0);
        assert(j == all[done]);
        let ghost prefix = all.subrange(0, done);
        let ghost next = all.subrange(0, done + 1);
        assert(next.drop_last() =~= prefix);
        assert(next.last() == j);
        let id = j.id();
        if !ids.contains(id.as_str()) {
            out.push(j);
        }
        proof {
            done = done + 1;
        }
        assert(rest@ =~= all.subrange(done, all.len() as int));
    }
    assert(all.subrange(0, all.len() as int) =~= all);
    out
}

/// Merging keeps every journey held before, in order, and adds only
/// journeys whose id was not held: after adding later journeys, the
/// journeys held come first and no added journey repeats an id held before.
pub proof fn lemma_merge_keeps_and_dedups(current: Seq<Journey>, incoming: Seq<Journey>)
    ensures
        (current + without_ids(incoming, ids_of(current))).subrange(0, current.len() as int)
            == current,
        forall|i: int|
            0 <= i < without_ids(incoming, ids_of(current)).len() ==> !ids_of(current).contains(
                (#[trigger] without_ids(incoming, ids_of(current))[i]).data_spec().id@,
            ),
{
    let merged = current + without_ids(incoming, ids_of(current));
    assert(merged.subrange(0, current.len() as int) =~= current);
    lemma_without_ids_excludes(incoming, ids_of(current));
}

/// No journey kept by `without_ids` has one of the ids left out.
proof fn lemma_without_ids_excludes(s: Seq<Journey>, ids: Set<Seq<char>>)
    ensures
        forall|i: int|
            0 <= i < without_ids(s, ids).len() ==> !ids.contains(
                (#[trigger] without_ids(s, ids)[i]).data_spec().id@,
            ),
    decreases s.len(),
{
    if s.len() > 0 {
        lemma_without_ids_excludes(s.drop_last(), ids);
        let prev = without_ids(s.drop_last(), ids);
        assert forall|i: int| 0 <= i < without_ids(s, ids).len() implies !ids.contains(
            (#[trigger] without_ids(s, ids)[i]).data_spec().id@,
        ) by {
            if i < prev.len() {
                assert(without_ids(s, ids)[i] == prev[i]);
            }
        }
    }
}

} // verus!
