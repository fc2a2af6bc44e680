//! The bookmarked journeys, most recent first, and the journeys watched for
//! live notifications.

use vstd::prelude::*;

use crate::assoc::{holds_text, TextSet};
use crate::duration::{valid_instant, valid_opt_instant};
use crate::journey::{background_done, Journey, JourneyData};
use crate::notify::Notice;
use crate::search_store::lemma_first_index;
use crate::text::text_eq;

verus! {

/// How a journey is stored.
#[derive(PartialEq, Eq, Structural, Clone, Copy)]
pub enum StoreMode {
    /// Removed when stored, else added.
    Toggle,
    /// Added when not stored, else left alone.
    Add,
    /// Removed when stored, else left alone.
    Remove,
}

/// What storing a journey changed.
pub enum StoreChange {
    /// The journey was added first.
    Added,
    /// The stored journey with the same id was removed; here it is.
    Removed(Journey),
    /// Nothing changed.
    Unchanged,
}

/// The ids of journeys.
pub open spec fn ids_of(js: Seq<Journey>) -> Seq<Seq<char>> {
    js.map_values(|j: Journey| j.data_spec().id@)
}

/// The data of journeys.
pub open spec fn data_of(js: Seq<Journey>) -> Seq<JourneyData> {
    js.map_values(|j: Journey| j.data_spec())
}

/// The ids of journey data.
pub open spec fn data_ids(ds: Seq<JourneyData>) -> Seq<Seq<char>> {
    ds.map_values(|d: JourneyData| d.id@)
}

/// Whether no id occurs twice.
pub open spec fn distinct_ids(ids: Seq<Seq<char>>) -> bool {
    forall|i: int, j: int| 0 <= i < j < ids.len() ==> ids[i] != ids[j]
}

/// The index of the first occurrence of `k`; zero when there is none.
pub open spec fn first_of(ids: Seq<Seq<char>>, k: Seq<char>) -> int {
    match ids.index_of_first(k) {
        Some(i) => i,
        None => 0,
    }
}

/// The journeys and watched ids after storing `j` with `mode`.  Removing a
/// journey also stops watching it.
pub open spec fn stored_after(js: Seq<Journey>, w: Set<Seq<char>>, j: Journey, mode: StoreMode) -> (
    Seq<Journey>,
    Set<Seq<char>>,
) {
    let k = j.data_spec().id@;
    let ids = ids_of(js);
    if ids.contains(k) {
        if mode != StoreMode::Add {
            (js.remove(first_of(ids, k)), w.remove(k))
        } else {
            (js, w)
        }
    } else if mode != StoreMode::Remove {
        (seq![j] + js, w)
    } else {
        (js, w)
    }
}

/// The journey data and watched ids after storing `d` with `mode`, where a
/// journey already stored first takes `d` as its data.
pub open spec fn data_stored_after(
    ds: Seq<JourneyData>,
    w: Set<Seq<char>>,
    d: JourneyData,
    mode: StoreMode,
) -> (Seq<JourneyData>, Set<Seq<char>>) {
    let k = d.id@;
    let ids = data_ids(ds);
    if ids.contains(k) {
        if mode != StoreMode::Add {
            (ds.remove(first_of(ids, k)), w.remove(k))
        } else {
            (ds.update(first_of(ids, k), d), w)
        }
    } else if mode != StoreMode::Remove {
        (seq![d] + ds, w)
    } else {
        (ds, w)
    }
}

/// The arrival of the last leg, or its scheduled arrival; none without legs.
pub open spec fn last_arrival(d: JourneyData) -> Option<i64> {
    if d.legs@.len() == 0 {
        None
    } else {
        let l = d.legs@.last();
        if l.arrival is Some {
            l.arrival
        } else {
            l.planned_arrival
        }
    }
}

/// Whether a bookmarked journey is over: it arrived more than
/// `deletion_hours` hours before `now`, or its arrival is unknown.
pub open spec fn could_be_deleted(d: JourneyData, deletion_hours: i32, now: int) -> bool {
    match last_arrival(d) {
        Some(a) => a + deletion_hours * 3600 < now,
        None => true,
    }
}

/// Whether a bookmarked journey is over.
pub fn is_over(d: &JourneyData, deletion_hours: i32, now: i64) -> (r: bool)
    requires
        d.wf(),
    ensures
        r == could_be_deleted(*d, deletion_hours, now as int),
{
    let n = d.legs.len();
    if n == 0 {
        return true;
    }
    let l = &d.legs[n - 1];
    assert(l.wf());
    let arrival = match l.arrival {
        Some(a) => Some(a),
        None => l.planned_arrival,
    };
    match arrival {
        Some(a) => {
            let h: i64 = deletion_hours as i64;
            a + h * 3600 < now
        },
        None => true,
    }
}

/// The settings that decide what happens to journeys that are over when
/// the bookmarks are read back.
#[derive(Clone, Copy)]
pub struct DeletionSettings {
    /// How many hours after its arrival a journey is over.
    pub deletion_hours: i32,
    /// Whether journeys that are over are removed.
    pub delete_old: bool,
    /// Whether removing journeys that are over was already suggested.
    pub purge_suggested: bool,
}

/// What reading the bookmarks back found.
#[derive(Clone, Copy)]
pub struct LoadOutcome {
    /// Whether some journey is over and removing such journeys should be
    /// suggested.
    pub some_deletable: bool,
    /// The new value of the setting that removing was suggested.
    pub purge_suggested: bool,
    /// Whether some journey became watched, so that the background work
    /// is due.
    pub watch_added: bool,
}

/// The state while the bookmarks are read back: journey data, watched ids,
/// whether removing was suggested, whether some journey is over.
pub type LoadState = (Seq<JourneyData>, Set<Seq<char>>, bool, bool);

/// One journey read back: a journey that is over is removed when old
/// journeys are removed (which marks removing as suggested); else it is
/// added, and noted as over unless removing was suggested.
pub open spec fn load_step(st: LoadState, d: JourneyData, s: DeletionSettings, now: int) -> LoadState {
    if could_be_deleted(d, s.deletion_hours, now) && s.delete_old {
        let r = data_stored_after(st.0, st.1, d, StoreMode::Remove);
        (r.0, r.1, true, st.3)
    } else {
        let r = data_stored_after(st.0, st.1, d, StoreMode::Add);
        (r.0, r.1, st.2, st.3 || (could_be_deleted(d, s.deletion_hours, now) && !st.2))
    }
}

/// The journeys of `ds`, read back from the last to the first.
pub open spec fn load_all_rev(st: LoadState, ds: Seq<JourneyData>, s: DeletionSettings, now: int) -> LoadState
    decreases ds.len(),
{
    if ds.len() == 0 {
        st
    } else {
        load_step(load_all_rev(st, ds.drop_first(), s, now), ds[0], s, now)
    }
}

/// The watched ids after toggling each of `xs` in order.
pub open spec fn toggled_watches(w: Set<Seq<char>>, xs: Seq<Seq<char>>) -> Set<Seq<char>>
    decreases xs.len(),
{
    if xs.len() == 0 {
        w
    } else {
        let v = toggled_watches(w, xs.drop_last());
        let x = xs.last();
        if v.contains(x) {
            v.remove(x)
        } else {
            v.insert(x)
        }
    }
}

/// Whether toggling each of `xs` in order adds some id.
pub open spec fn some_watch_added(w: Set<Seq<char>>, xs: Seq<Seq<char>>) -> bool
    decreases xs.len(),
{
    if xs.len() == 0 {
        false
    } else {
        some_watch_added(w, xs.drop_last()) || !toggled_watches(w, xs.drop_last()).contains(xs.last())
    }
}

/// The ids of the data of journeys are the ids of the journeys.
proof fn lemma_data_ids(js: Seq<Journey>)
    ensures
        data_ids(data_of(js)) == ids_of(js),
{
    assert(data_ids(data_of(js)) =~= ids_of(js));
}

/// The texts of a list.
pub open spec fn texts_of(xs: Seq<String>) -> Seq<Seq<char>> {
    xs.map_values(|x: String| x@)
}

/// The bookmarked journeys and the ids watched.
pub struct JourneysStore {
    stored: Vec<Journey>,
    watched: TextSet,
}

impl JourneysStore {
    /// The journeys stored, most recent first.
    pub closed spec fn journeys(&self) -> Seq<Journey> {
        self.stored@
    }

    /// The ids watched.
    pub closed spec fn watched_spec(&self) -> Set<Seq<char>> {
        self.watched.view_set()
    }

    /// Whether every journey is well formed and no id is stored twice.
    pub open spec fn wf(&self) -> bool {
        &&& forall|i: int| 0 <= i < self.journeys().len() ==> (#[trigger] self.journeys()[i]).wf()
        &&& distinct_ids(ids_of(self.journeys()))
    }

    /// Whether the background work at time `now` can run on every watched
    /// journey.
    pub open spec fn minutely_ok(&self, now: int) -> bool {
        forall|i: int|
            0 <= i < self.journeys().len() && self.watched_spec().contains(
                #[trigger] ids_of(self.journeys())[i],
            ) ==> self.journeys()[i].background_ok(now)
    }

    /// An empty store.
    pub fn new() -> (r: JourneysStore)
        ensures
            r.wf(),
            r.journeys() == Seq::<Journey>::empty(),
            r.watched_spec() == Set::<Seq<char>>::empty(),
    {
        JourneysStore { stored: Vec::new(), watched: TextSet::new() }
    }

    /// The position of the journey with id `id`, if stored.
    fn position(&self, id: &str) -> (r: Option<usize>)
        ensures
            match r {
                Some(i) => {
                    &&& i < self.journeys().len()
                    &&& ids_of(self.journeys())[i as int] == id@
                    &&& forall|j: int| 0 <= j < i ==> ids_of(self.journeys())[j] != id@
                },
                None => !ids_of(self.journeys()).contains(id@),
            },
    {
        let n = self.stored.len();
        let mut i: usize = 0;
        while i < n
            invariant
                n == self.stored@.len(),
                i <= n,
                forall|j: int| 0 <= j < i ==> ids_of(self.stored@)[j] != id@,
            decreases n - i,
        {
            if text_eq(self.stored[i].journey().id.as_str(), id) {
                return Some(i);
            }
            i += 1;
        }
        proof {
            if ids_of(self.stored@).contains(id@) {
                let j = choose|j: int| 0 <= j < ids_of(self.stored@).len() && ids_of(self.stored@)[j] == id@;
                assert(ids_of(self.stored@)[j] != id@);
            }
        }
        None
    }

    /// Stores `journey` with `mode`: a journey with the same id is removed,
    /// unless adding, and watching it stops; a new one is added first,
    /// unless removing.
    pub fn store_with_mode(&mut self, journey: Journey, mode: StoreMode) -> (r: StoreChange)
        requires
            old(self).wf(),
            journey.wf(),
        ensures
            final(self).wf(),
            (final(self).journeys(), final(self).watched_spec()) == stored_after(
                old(self).journeys(),
                old(self).watched_spec(),
                journey,
                mode,
            ),
            ({
                let k = journey.data_spec().id@;
                let ids = ids_of(old(self).journeys());
                match r {
                    StoreChange::Added => !ids.contains(k) && mode != StoreMode::Remove,
                    StoreChange::Removed(x) => ids.contains(k) && mode != StoreMode::Add && x
                        == old(self).journeys()[first_of(ids, k)],
                    StoreChange::Unchanged => (ids.contains(k) && mode == StoreMode::Add) || (
                    !ids.contains(k) && mode == StoreMode::Remove),
                }
            }),
    {
        let ghost k = journey.data_spec().id@;
        let ghost before = self.stored@;
        let ghost ids = ids_of(before);
        let id = journey.id();
        match self.position(id.as_str()) {
            Some(i) => {
                proof {
                    lemma_first_index(ids, k, i as int);
                }
                if mode != StoreMode::Add {
                    let s = self.stored.remove(i);
                    self.watched.remove(id.as_str());
                    proof {
                        assert(ids_of(self.stored@) =~= ids.remove(i as int));
                        assert forall|a: int, b: int|
                            0 <= a < b < ids_of(self.stored@).len() implies ids_of(self.stored@)[a]
                            != ids_of(self.stored@)[b] by {
                            let a0 = if a < i { a } else { a + 1 };
                            let b0 = if b < i { b } else { b + 1 };
                            assert(ids_of(self.stored@)[a] == ids[a0]);
                            assert(ids_of(self.stored@)[b] == ids[b0]);
                        }
                        assert forall|m: int| 0 <= m < self.stored@.len() implies (
                        #[trigger] self.stored@[m]).wf() by {
                            let m0 = if m < i { m } else { m + 1 };
                            assert(self.stored@[m] == before[m0]);
                        }
                    }
                    StoreChange::Removed(s)
                } else {
                    StoreChange::Unchanged
                }
            },
            None => {
                if mode != StoreMode::Remove {
                    self.stored.insert(0, journey);
                    proof {
                        assert(self.stored@ =~= seq![journey] + before);
                        assert(ids_of(self.stored@) =~= seq![k] + ids);
                        assert forall|a: int, b: int|
                            0 <= a < b < ids_of(self.stored@).len() implies ids_of(self.stored@)[a]
                            != ids_of(self.stored@)[b] by {
                            if a == 0 {
                                assert(ids_of(self.stored@)[b] == ids[b - 1]);
                            } else {
                                assert(ids_of(self.stored@)[a] == ids[a - 1]);
                                assert(ids_of(self.stored@)[b] == ids[b - 1]);
                            }
                        }
                        assert forall|m: int| 0 <= m < self.stored@.len() implies (
                        #[trigger] self.stored@[m]).wf() by {
                            if m > 0 {
                                assert(self.stored@[m] == before[m - 1]);
                            }
                        }
                    }
                    StoreChange::Added
                } else {
                    StoreChange::Unchanged
                }
            },
        }
    }

    /// Stores `journey`: removes the journey with the same id if there is
    /// one (and stops watching it), else adds it first.
    pub fn store(&mut self, journey: Journey) -> (r: StoreChange)
        requires
            old(self).wf(),
            journey.wf(),
        ensures
            final(self).wf(),
            (final(self).journeys(), final(self).watched_spec()) == stored_after(
                old(self).journeys(),
                old(self).watched_spec(),
                journey,
                StoreMode::Toggle,
            ),
            ({
                let k = journey.data_spec().id@;
                let ids = ids_of(old(self).journeys());
                match r {
                    StoreChange::Added => !ids.contains(k),
                    StoreChange::Removed(x) => ids.contains(k) && x == old(self).journeys()[first_of(
                        ids,
                        k,
                    )],
                    StoreChange::Unchanged => false,
                }
            }),
    {
        self.store_with_mode(journey, StoreMode::Toggle)
    }

    /// Whether a journey with the id of `journey` is stored.
    pub fn contains(&self, journey: &Journey) -> (r: bool)
        ensures
            r == ids_of(self.journeys()).contains(journey.data_spec().id@),
    {
        let id = journey.id();
        self.position(id.as_str()).is_some()
    }

    /// Starts watching `journey_id` if it is not watched, else stops.
    /// Returns whether it is now watched, in which case the background work
    /// is due.
    pub fn toggle_watch(&mut self, journey_id: String) -> (r: bool)
        requires
            old(self).wf(),
        ensures
            final(self).wf(),
            r == !old(self).watched_spec().contains(journey_id@),
            final(self).watched_spec() == if r {
                old(self).watched_spec().insert(journey_id@)
            } else {
                old(self).watched_spec().remove(journey_id@)
            },
            final(self).journeys() == old(self).journeys(),
    {
        if self.watched.contains(journey_id.as_str()) {
            self.watched.remove(journey_id.as_str());
            false
        } else {
            self.watched.insert(journey_id);
            true
        }
    }

    /// Whether `journey_id` is watched.
    pub fn is_watched(&self, journey_id: &str) -> (r: bool)
        ensures
            r == self.watched_spec().contains(journey_id@),
    {
        self.watched.contains(journey_id)
    }

    /// What is written out: the journeys, most recent first, and the ids
    /// watched.
    pub fn flush(&self) -> (r: (&Vec<Journey>, &Vec<String>))
        ensures
            r.0@ == self.journeys(),
            forall|k: Seq<char>| #[trigger] self.watched_spec().contains(k) <==> holds_text(r.1@, k),
    {
        proof {
            self.watched.lemma_items();
        }
        (&self.stored, self.watched.items())
    }

    /// The journey at position `i`.
    pub fn journey_at(&self, i: usize) -> (r: &Journey)
        requires
            i < self.journeys().len(),
        ensures
            *r == self.journeys()[i as int],
    {
        &self.stored[i]
    }

    /// The number of journeys stored.
    pub fn len(&self) -> (r: usize)
        ensures
            r == self.journeys().len(),
    {
        self.stored.len()
    }

    /// Stores journey data with `mode`, as storing a journey does; a journey
    /// already stored and kept takes `d` as its data.
    fn store_data(&mut self, d: JourneyData, mode: StoreMode)
        requires
            old(self).wf(),
            d.wf(),
        ensures
            final(self).wf(),
            (data_of(final(self).journeys()), final(self).watched_spec()) == data_stored_after(
                data_of(old(self).journeys()),
                old(self).watched_spec(),
                d,
                mode,
            ),
    {
        let ghost before = self.stored@;
        let ghost ids = ids_of(before);
        proof {
            lemma_data_ids(before);
        }
        let id = d.id.clone();
        match self.position(id.as_str()) {
            Some(i) => {
                proof {
                    lemma_first_index(ids, d.id@, i as int);
                }
                if mode != StoreMode::Add {
                    self.stored.remove(i);
                    self.watched.remove(id.as_str());
                    proof {
                        assert(data_of(self.stored@) =~= data_of(before).remove(i as int));
                        assert forall|a: int, b: int|
                            0 <= a < b < ids_of(self.stored@).len() implies ids_of(self.stored@)[a]
                            != ids_of(self.stored@)[b] by {
                            let a0 = if a < i { a } else { a + 1 };
                            let b0 = if b < i { b } else { b + 1 };
                            assert(ids_of(self.stored@)[a] == ids[a0]);
                            assert(ids_of(self.stored@)[b] == ids[b0]);
                        }
                        assert forall|m: int| 0 <= m < self.stored@.len() implies (
                        #[trigger] self.stored@[m]).wf() by {
                            let m0 = if m < i { m } else { m + 1 };
                            assert(self.stored@[m] == before[m0]);
                        }
                    }
                } else {
                    let mut j = self.stored.remove(i);
                    assert(j.wf());
                    j.update(d);
                    self.stored.insert(i, j);
                    proof {
                        assert(self.stored@ =~= before.update(i as int, j));
                        assert(data_of(self.stored@) =~= data_of(before).update(i as int, d));
                        assert(ids_of(self.stored@) =~= ids);
                        assert forall|m: int| 0 <= m < self.stored@.len() implies (
                        #[trigger] self.stored@[m]).wf() by {
                            if m != i {
                                assert(self.stored@[m] == before[m]);
                            }
                        }
                    }
                }
            },
            None => {
                if mode != StoreMode::Remove {
                    let j = Journey::new(d);
                    self.stored.insert(0, j);
                    proof {
                        assert(self.stored@ =~= seq![j] + before);
                        assert(data_of(self.stored@) =~= seq![d] + data_of(before));
                        assert(ids_of(self.stored@) =~= seq![d.id@] + ids);
                        assert forall|a: int, b: int|
                            0 <= a < b < ids_of(self.stored@).len() implies ids_of(self.stored@)[a]
                            != ids_of(self.stored@)[b] by {
                            if a == 0 {
                                assert(ids_of(self.stored@)[b] == ids[b - 1]);
                            } else {
                                assert(ids_of(self.stored@)[a] == ids[a - 1]);
                                assert(ids_of(self.stored@)[b] == ids[b - 1]);
                            }
                        }
                        assert forall|m: int| 0 <= m < self.stored@.len() implies (
                        #[trigger] self.stored@[m]).wf() by {
                            if m > 0 {
                                assert(self.stored@[m] == before[m - 1]);
                            }
                        }
                    }
                }
            },
        }
    }

    /// Reads the bookmarks back: the journeys `journeys`, from the last to
    /// the first, then the watched ids `watched`, in order.  A journey that
    /// is over is removed when `settings.delete_old` is set, which marks
    /// removing as suggested; any other journey is added (a journey already
    /// stored takes the data read), and one that is over is noted unless
    /// removing was already suggested.  Each watched id is toggled.
    pub fn load(
        &mut self,
        journeys: Vec<JourneyData>,
        watched: Vec<String>,
        settings: DeletionSettings,
        now: i64,
    ) -> (r: LoadOutcome)
        requires
            old(self).wf(),
            forall|k: int| 0 <= k < journeys@.len() ==> (#[trigger] journeys@[k]).wf(),
        ensures
            final(self).wf(),
            ({
                let st = load_all_rev(
                    (data_of(old(self).journeys()), old(self).watched_spec(), settings.purge_suggested, false),
                    journeys@,
                    settings,
                    now as int,
                );
                &&& data_of(final(self).journeys()) == st.0
                &&& final(self).watched_spec() == toggled_watches(st.1, texts_of(watched@))
                &&& r.purge_suggested == st.2
                &&& r.some_deletable == st.3
                &&& r.watch_added == some_watch_added(st.1, texts_of(watched@))
            }),
    {
        let ghost all = journeys@;
        let ghost n = all.len();
        let ghost st0: LoadState = (data_of(self.journeys()), self.watched_spec(), settings.purge_suggested, false);
        let mut rest = journeys;
        let mut purge = settings.purge_suggested;
        let mut some = false;
        assert(all.subrange(n as int, n as int) =~= Seq::<JourneyData>::empty());
        while rest.len() > 0
            invariant
                n == all.len(),
                rest@.len() <= n,
                rest@ == all.subrange(0, rest@.len() as int),
                self.wf(),
                forall|k: int| 0 <= k < all.len() ==> (#[trigger] all[k]).wf(),
                ({
                    let st = load_all_rev(st0, all.subrange(rest@.len() as int, n as int), settings, now as int);
                    &&& data_of(self.journeys()) == st.0
                    &&& self.watched_spec() == st.1
                    &&& purge == st.2
                    &&& some == st.3
                }),
            decreases rest@.len(),
        {
            let ghost k = rest@.len() - 1;
            let ghost before = rest@;
            assert(before[k] == all[k]);
            let d = rest.pop().unwrap();
            proof {
                assert(d == all[k]);
                let tail = all.subrange(k + 1, n as int);
                let with = all.subrange(k, n as int);
                assert(with.drop_first() =~= tail);
                assert(with[0] == all[k]);
                assert(rest@ =~= all.subrange(0, rest@.len() as int));
            }
            let over = is_over(&d, settings.deletion_hours, now);
            if over && settings.delete_old {
                purge = true;
                self.store_data(d, StoreMode::Remove);
            } else {
                if over && !purge {
                    some = true;
                }
                self.store_data(d, StoreMode::Add);
            }
        }
        assert(all.subrange(0, n as int) =~= all);
        let ghost st1 = self.watched_spec();
        let ghost ds1 = data_of(self.journeys());
        let ghost xs = texts_of(watched@);
        let mut added = false;
        let m = watched.len();
        let mut i: usize = 0;
        while i < m
            invariant
                m == watched@.len(),
                xs == texts_of(watched@),
                i <= m,
                self.wf(),
                self.watched_spec() == toggled_watches(st1, xs.subrange(0, i as int)),
                added == some_watch_added(st1, xs.subrange(0, i as int)),
                data_of(self.journeys()) == ds1,
            decreases m - i,
        {
            let ghost prefix = xs.subrange(0, i as int);
            let ghost next = xs.subrange(0, i + 1);
            assert(next.drop_last() =~= prefix);
            assert(next.last() == watched@[i as int]@);
            let id = watched[i].clone();
            let now_watched = self.toggle_watch(id);
            added = added || now_watched;
            i += 1;
        }
        assert(xs.subrange(0, m as int) =~= xs);
        LoadOutcome { some_deletable: some, purge_suggested: purge, watch_added: added }
    }

    /// Checks that the background work at time `now` can run on every
    /// watched journey.
    pub fn minutely_ready(&self, now: i64) -> (r: bool)
        requires
            self.wf(),
        ensures
            r == self.minutely_ok(now as int),
    {
        let n = self.stored.len();
        let mut i: usize = 0;
        while i < n
            invariant
                n == self.stored@.len(),
                i <= n,
                self.wf(),
                forall|m: int|
                    0 <= m < i && self.watched_spec().contains(#[trigger] ids_of(self.journeys())[m])
                        ==> self.journeys()[m].background_ok(now as int),
            decreases n - i,
        {
            let j = &self.stored[i];
            assert(j.wf());
            if self.watched.contains(j.journey().id.as_str()) && !j.background_ready(now) {
                assert(self.watched_spec().contains(ids_of(self.journeys())[i as int]));
                return false;
            }
            i += 1;
        }
        true
    }

    /// The background work on every watched journey at time `now`: the
    /// notices due for the journey at each position, none for a journey
    /// not watched.
    pub fn on_minutely(&mut self, now: i64) -> (r: Vec<Vec<Notice>>)
        requires
            old(self).wf(),
            valid_instant(now as int),
            old(self).minutely_ok(now as int),
        ensures
            final(self).wf(),
            final(self).watched_spec() == old(self).watched_spec(),
            final(self).journeys().len() == old(self).journeys().len(),
            r@.len() == old(self).journeys().len(),
            forall|i: int|
                #![trigger r@[i]]
                0 <= i < r@.len() && old(self).watched_spec().contains(ids_of(old(self).journeys())[i])
                    ==> background_done(old(self).journeys()[i], final(self).journeys()[i], r@[i]@, now as int),
            forall|i: int|
                #![trigger r@[i]]
                0 <= i < r@.len() && !old(self).watched_spec().contains(ids_of(old(self).journeys())[i])
                    ==> final(self).journeys()[i] == old(self).journeys()[i] && r@[i]@.len() == 0,
    {
        let n = self.stored.len();
        let mut out: Vec<Vec<Notice>> = Vec::new();
        let mut i: usize = 0;
        while i < n
            invariant
                n == self.stored@.len(),
                n == old(self).stored@.len(),
                i <= n,
                out@.len() == i,
                self.watched == old(self).watched,
                old(self).wf(),
                old(self).minutely_ok(now as int),
                valid_instant(now as int),
                forall|m: int| i <= m < n ==> self.stored@[m] == old(self).stored@[m],
                forall|m: int| 0 <= m < n ==> (#[trigger] self.stored@[m]).wf(),
                forall|m: int|
                    0 <= m < n ==> ids_of(self.stored@)[m] == ids_of(old(self).stored@)[m],
                forall|m: int|
                    #![trigger out@[m]]
                    0 <= m < i && old(self).watched_spec().contains(ids_of(old(self).journeys())[m])
                        ==> background_done(old(self).journeys()[m], self.stored@[m], out@[m]@, now as int),
                forall|m: int|
                    #![trigger out@[m]]
                    0 <= m < i && !old(self).watched_spec().contains(ids_of(old(self).journeys())[m])
                        ==> self.stored@[m] == old(self).stored@[m] && out@[m]@.len() == 0,
            decreases n - i,
        {
            let ghost before = self.stored@;
            let ghost out_before = out@;
            let watched = self.watched.contains(self.stored[i].journey().id.as_str());
            assert(ids_of(before)[i as int] == before[i as int].data_spec().id@);
            assert(watched == old(self).watched_spec().contains(ids_of(old(self).journeys())[i as int]));
            if watched {
                let mut j = self.stored.remove(i);
                assert(j == old(self).stored@[i as int]);
                assert(ids_of(old(self).stored@)[i as int] == j.data_spec().id@);
                let notices = j.background_tasks(now);
                self.stored.insert(i, j);
                proof {
                    assert(self.stored@ =~= before.update(i as int, j));
                    assert(ids_of(self.stored@)[i as int] == ids_of(before)[i as int]);
                }
                out.push(notices);
                assert(background_done(old(self).journeys()[i as int], self.stored@[i as int], out@[i as int]@, now as int));
            } else {
                out.push(Vec::new());
                assert(out@[i as int]@.len() == 0);
                assert(self.stored@[i as int] == old(self).stored@[i as int]);
            }
            proof {
                assert forall|m: int| 0 <= m < n && m != i implies self.stored@[m] == before[m] by {}
                assert forall|m: int| 0 <= m < n implies ids_of(self.stored@)[m] == ids_of(old(self).stored@)[m] by {
                    if m != i {
                        assert(self.stored@[m] == before[m]);
                    }
                }
                assert forall|m: int| 0 <= m < i implies out@[m] == out_before[m] by {}
                assert forall|m: int| 0 <= m < i implies out@[m] == out_before[m] && self.stored@[m] == before[m] by {}
            }
            i += 1;
        }
        proof {
            assert forall|a: int, b: int|
                0 <= a < b < ids_of(self.stored@).len() implies ids_of(self.stored@)[a] != ids_of(self.stored@)[b] by {
                assert(ids_of(old(self).stored@)[a] != ids_of(old(self).stored@)[b]);
            }
            assert forall|i: int|
                0 <= i < out@.len() && !old(self).watched_spec().contains(ids_of(old(self).journeys())[i])
                implies self.journeys()[i] == old(self).journeys()[i] by {
                assert(out@[i]@.len() == 0);
                assert(self.stored@[i] == old(self).stored@[i]);
            }
        }
        out
    }
}

/// Bookmarking a journey that is not bookmarked and then bookmarking it again
/// leaves the journeys as they were, and the journey is not watched.
pub proof fn lemma_store_twice_restores(js: Seq<Journey>, w: Set<Seq<char>>, j: Journey)
    requires
        !ids_of(js).contains(j.data_spec().id@),
    ensures
        stored_after(stored_after(js, w, j, StoreMode::Toggle).0, stored_after(js, w, j, StoreMode::Toggle).1, j, StoreMode::Toggle)
            == (js, w.remove(j.data_spec().id@)),
{
    let k = j.data_spec().id@;
    let t = seq![j] + js;
    assert(ids_of(t) =~= seq![k] + ids_of(js));
    assert(ids_of(t)[0] == k);
    lemma_first_index(ids_of(t), k, 0);
    assert(first_of(ids_of(t), k) == 0);
    assert(t.remove(0) =~= js);
}

/// Bookmarking a journey already bookmarked with `StoreMode::Add` changes
/// nothing, and one not bookmarked with `StoreMode::Remove` changes nothing.
pub proof fn lemma_store_idempotent_modes(js: Seq<Journey>, w: Set<Seq<char>>, j: Journey)
    ensures
        ids_of(js).contains(j.data_spec().id@) ==> stored_after(js, w, j, StoreMode::Add) == (js, w),
        !ids_of(js).contains(j.data_spec().id@) ==> stored_after(js, w, j, StoreMode::Remove) == (js, w),
{
}

/// After any store the journey's id is bookmarked exactly when it is not
/// removed, and a removed journey is no longer watched.
pub proof fn lemma_store_membership(js: Seq<Journey>, w: Set<Seq<char>>, j: Journey, mode: StoreMode)
    requires
        distinct_ids(ids_of(js)),
    ensures
        ({
            let k = j.data_spec().id@;
            let after = stored_after(js, w, j, mode);
            &&& ids_of(after.0).contains(k) == if ids_of(js).contains(k) {
                mode == StoreMode::Add
            } else {
                mode != StoreMode::Remove
            }
            &&& ids_of(js).contains(k) && mode != StoreMode::Add ==> !after.1.contains(k)
        }),
{
    let k = j.data_spec().id@;
    let ids = ids_of(js);
    if ids.contains(k) {
        ids.index_of_first_ensures(k);
        let i = first_of(ids, k);
        if mode != StoreMode::Add {
            let t = js.remove(i);
            assert(ids_of(t) =~= ids.remove(i));
            if ids_of(t).contains(k) {
                let m = choose|m: int| 0 <= m < ids_of(t).len() && ids_of(t)[m] == k;
                let m0 = if m < i { m } else { m + 1 };
                assert(ids_of(t)[m] == ids[m0]);
            }
        }
    } else {
        if mode != StoreMode::Remove {
            let t = seq![j] + js;
            assert(ids_of(t)[0] == k);
        }
    }
}

/// Reading back the bookmarks written out restores them: distinct journey
/// data read into an empty store, with old journeys kept, comes back in the
/// same order.
pub proof fn lemma_flush_then_load(
    ds: Seq<JourneyData>,
    w: Set<Seq<char>>,
    purge: bool,
    some: bool,
    s: DeletionSettings,
    now: int,
)
    requires
        distinct_ids(data_ids(ds)),
        !s.delete_old,
    ensures
        load_all_rev((Seq::empty(), w, purge, some), ds, s, now).0 == ds,
        load_all_rev((Seq::empty(), w, purge, some), ds, s, now).1 == w,
    decreases ds.len(),
{
    if ds.len() > 0 {
        let rest = ds.drop_first();
        assert(data_ids(rest) =~= data_ids(ds).drop_first());
        assert(distinct_ids(data_ids(rest))) by {
            assert forall|i: int, j: int| 0 <= i < j < data_ids(rest).len() implies data_ids(rest)[i]
                != data_ids(rest)[j] by {
                assert(data_ids(rest)[i] == data_ids(ds)[i + 1]);
                assert(data_ids(rest)[j] == data_ids(ds)[j + 1]);
            }
        }
        lemma_flush_then_load(rest, w, purge, some, s, now);
        assert(!data_ids(rest).contains(ds[0].id@)) by {
            if data_ids(rest).contains(ds[0].id@) {
                let k = choose|k: int| 0 <= k < data_ids(rest).len() && data_ids(rest)[k] == ds[0].id@;
                assert(data_ids(ds)[k + 1] == data_ids(ds)[0]);
            }
        }
        assert(seq![ds[0]] + rest =~= ds);
    }
}

} // verus!
