//! The recent searches, most recent first; storing a search again removes it.

use vstd::prelude::*;

verus! {

/// A search between two places, by the names typed.
#[derive(Debug, Clone)]
pub struct Search {
    /// Where the search starts.
    pub origin: String,
    /// Where the search ends.
    pub destination: String,
}

/// The contents of a search.
pub open spec fn search_view(s: Search) -> (Seq<char>, Seq<char>) {
    (s.origin@, s.destination@)
}

/// The contents of a list of searches.
pub open spec fn searches_view(s: Seq<Search>) -> Seq<(Seq<char>, Seq<char>)> {
    s.map_values(|x: Search| search_view(x))
}

/// Whether no search occurs twice in a list.
pub open spec fn distinct(s: Seq<(Seq<char>, Seq<char>)>) -> bool {
    forall|i: int, j: int| 0 <= i < j < s.len() ==> s[i] != s[j]
}

/// A change of the searches stored.
pub enum SearchChange {
    /// The search was added at the front.
    Added(String, String),
    /// The search was removed.
    Removed(String, String),
}

/// The contents of a change.
pub open spec fn change_view(c: SearchChange) -> (bool, Seq<char>, Seq<char>) {
    match c {
        SearchChange::Added(o, d) => (true, o@, d@),
        SearchChange::Removed(o, d) => (false, o@, d@),
    }
}

/// The searches after storing `x`: removed where it first occurs, else added
/// first.
pub open spec fn toggled(s: Seq<(Seq<char>, Seq<char>)>, x: (Seq<char>, Seq<char>)) -> Seq<
    (Seq<char>, Seq<char>),
> {
    if s.contains(x) {
        s.remove_value(x)
    } else {
        seq![x] + s
    }
}

/// The searches after storing each of `xs`, from the last to the first.
pub open spec fn toggled_all_rev(s: Seq<(Seq<char>, Seq<char>)>, xs: Seq<(Seq<char>, Seq<char>)>) -> Seq<
    (Seq<char>, Seq<char>),
>
    decreases xs.len(),
{
    if xs.len() == 0 {
        s
    } else {
        toggled(toggled_all_rev(s, xs.drop_first()), xs[0])
    }
}

/// The recent searches.
pub struct SearchesStore {
    stored: Vec<Search>,
}

impl SearchesStore {
    /// The searches stored, most recent first.
    pub closed spec fn view(&self) -> Seq<(Seq<char>, Seq<char>)> {
        searches_view(self.stored@)
    }

    /// An empty store.
    pub fn new() -> (r: SearchesStore)
        ensures
            r.view() == Seq::<(Seq<char>, Seq<char>)>::empty(),
    {
        let r = SearchesStore { stored: Vec::new() };
        assert(r.view() =~= Seq::<(Seq<char>, Seq<char>)>::empty());
        r
    }

    /// The position of a search, if stored.
    fn position(&self, origin: &String, destination: &String) -> (r: Option<usize>)
        ensures
            match r {
                Some(i) => i < self.view().len() && self.view()[i as int] == (origin@, destination@)
                    && forall|j: int| 0 <= j < i ==> self.view()[j] != (origin@, destination@),
                None => !self.view().contains((origin@, destination@)),
            },
    {
        let n = self.stored.len();
        let mut i: usize = 0;
        while i < n
            invariant
                n == self.stored@.len(),
                i <= n,
                forall|j: int| 0 <= j < i ==> self.view()[j] != (origin@, destination@),
            decreases n - i,
        {
            if self.stored[i].origin.eq(origin) && self.stored[i].destination.eq(destination) {
                return Some(i);
            }
            i += 1;
        }
        proof {
            if self.view().contains((origin@, destination@)) {
                let j = choose|j: int| 0 <= j < self.view().len() && self.view()[j] == (origin@, destination@);
            }
        }
        None
    }

    /// Stores a search: a search already stored is removed, any other is
    /// added first.  Returns what changed.
    pub fn store(&mut self, origin: String, destination: String) -> (r: SearchChange)
        ensures
            final(self).view() == toggled(old(self).view(), (origin@, destination@)),
            change_view(r) == (!old(self).view().contains((origin@, destination@)), origin@, destination@),
    {
        match self.position(&origin, &destination) {
            Some(i) => {
                let ghost before = self.view();
                let s = self.stored.remove(i);
                proof {
                    lemma_first_index(before, (origin@, destination@), i as int);
                    assert(self.view() =~= before.remove(i as int));
                }
                SearchChange::Removed(s.origin, s.destination)
            },
            None => {
                let ghost before = self.view();
                let o = origin.clone();
                let d = destination.clone();
                self.stored.insert(0, Search { origin, destination });
                assert(self.view() =~= seq![(o@, d@)] + before);
                SearchChange::Added(o, d)
            },
        }
    }

    /// The searches to write out, most recent first.
    pub fn flush(&self) -> (r: &Vec<Search>)
        ensures
            searches_view(r@) == self.view(),
    {
        &self.stored
    }

    /// Stores the searches read back, from the oldest (last) to the most
    /// recent (first).  Returns the changes, in the order made: the `k`-th
    /// change comes from storing the `k`-th search from the end.
    pub fn setup(&mut self, loaded: Vec<Search>) -> (r: Vec<SearchChange>)
        ensures
            final(self).view() == toggled_all_rev(old(self).view(), searches_view(loaded@)),
            r@.len() == loaded@.len(),
            forall|k: int|
                #![trigger r@[k]]
                0 <= k < r@.len() ==> {
                    let all = searches_view(loaded@);
                    let x = all[all.len() - 1 - k];
                    change_view(r@[k]) == (
                        !toggled_all_rev(old(self).view(), all.subrange(all.len() - k, all.len() as int)).contains(x),
                        x.0,
                        x.1,
                    )
                },
    {
        let ghost all = searches_view(loaded@);
        let ghost n = all.len();
        let mut rest = loaded;
        let mut changes: Vec<SearchChange> = Vec::new();
        assert(searches_view(rest@) =~= all);
        while rest.len() > 0
            invariant
                n == all.len(),
                n == rest@.len() + changes@.len(),
                searches_view(rest@) == all.subrange(0, rest@.len() as int),
                self.view() == toggled_all_rev(old(self).view(), all.subrange(rest@.len() as int, n as int)),
                forall|k: int|
                    #![trigger changes@[k]]
                    0 <= k < changes@.len() ==> change_view(changes@[k]) == (
                        !toggled_all_rev(old(self).view(), all.subrange(n - k, n as int)).contains(all[n - 1 - k]),
                        all[n - 1 - k].0,
                        all[n - 1 - k].1,
                    ),
            decreases rest@.len(),
        {
            let ghost k = rest@.len() - 1;
            let ghost before = rest@;
            let ghost stored_before = self.view();
            proof {
                assert(searches_view(before)[k] == search_view(before[k]));
                assert(all.subrange(0, before.len() as int)[k] == all[k]);
            }
            let s = rest.pop().unwrap();
            proof {
                assert(s == before[k]);
                assert(search_view(s) == all[k]);
                let tail = all.subrange(k + 1, n as int);
                let with = all.subrange(k, n as int);
                assert(with.drop_first() =~= tail);
                assert(with[0] == all[k]);
                assert(searches_view(rest@) =~= all.subrange(0, rest@.len() as int));
            }
            let c = self.store(s.origin, s.destination);
            changes.push(c);
            proof {
                let j = changes@.len() - 1;
                assert(n - j == k + 1);
                assert(n - 1 - j == k);
                assert(change_view(changes@[j]) == (!stored_before.contains(all[k]), all[k].0, all[k].1));
            }
        }
        assert(all.subrange(0, all.len() as int) =~= all);
        changes
    }
}

/// An index before which an element does not occur is its first index.
pub(crate) proof fn lemma_first_index<A>(s: Seq<A>, x: A, i: int)
    requires
        0 <= i < s.len(),
        s[i] == x,
        forall|j: int| 0 <= j < i ==> s[j] != x,
    ensures
        s.contains(x),
        s.index_of_first(x) == Some(i),
        s.remove_value(x) == s.remove(i),
{
    assert(s.contains(x));
    s.index_of_first_ensures(x);
    let k = s.index_of_first(x).unwrap();
    if k < i {
        assert(s[k] == x);
    }
    if k > i {
        assert(s[i] == x);
    }
}

/// Storing a search that is not stored and then storing it again leaves the
/// searches as they were.
pub proof fn lemma_store_twice_restores(s: Seq<(Seq<char>, Seq<char>)>, x: (Seq<char>, Seq<char>))
    requires
        !s.contains(x),
    ensures
        toggled(toggled(s, x), x) == s,
{
    let t = seq![x] + s;
    assert(t[0] == x);
    lemma_first_index(t, x, 0);
    assert(t.remove(0) =~= s);
}

/// Storing keeps the searches distinct.
pub proof fn lemma_store_keeps_distinct(s: Seq<(Seq<char>, Seq<char>)>, x: (Seq<char>, Seq<char>))
    requires
        distinct(s),
    ensures
        distinct(toggled(s, x)),
{
    if s.contains(x) {
        s.index_of_first_ensures(x);
        let i = s.index_of_first(x).unwrap();
        let t = s.remove(i);
        assert forall|a: int, b: int| 0 <= a < b < t.len() implies t[a] != t[b] by {
            let a0 = if a < i { a } else { a + 1 };
            let b0 = if b < i { b } else { b + 1 };
            assert(t[a] == s[a0]);
            assert(t[b] == s[b0]);
        }
    } else {
        let t = seq![x] + s;
        assert forall|a: int, b: int| 0 <= a < b < t.len() implies t[a] != t[b] by {
            if a == 0 {
                assert(t[b] == s[b - 1]);
            } else {
                assert(t[a] == s[a - 1]);
                assert(t[b] == s[b - 1]);
            }
        }
    }
}

/// Reading back the searches written out restores them: storing distinct
/// searches from the last to the first into an empty store gives the same
/// list, and each of them is added (so setting up reports one addition per
/// search read).
pub proof fn lemma_flush_then_setup(xs: Seq<(Seq<char>, Seq<char>)>)
    requires
        distinct(xs),
    ensures
        toggled_all_rev(Seq::empty(), xs) == xs,
        forall|k: int|
            0 <= k < xs.len() ==> !toggled_all_rev(
                Seq::empty(),
                xs.subrange(xs.len() - k, xs.len() as int),
            ).contains(#[trigger] xs[xs.len() - 1 - k]),
{
    lemma_toggled_distinct_restores(xs);
    assert forall|k: int| 0 <= k < xs.len() implies !toggled_all_rev(
        Seq::empty(),
        xs.subrange(xs.len() - k, xs.len() as int),
    ).contains(#[trigger] xs[xs.len() - 1 - k]) by {
        let suffix = xs.subrange(xs.len() - k, xs.len() as int);
        assert(distinct(suffix)) by {
            assert forall|i: int, j: int| 0 <= i < j < suffix.len() implies suffix[i] != suffix[j] by {
                assert(suffix[i] == xs[xs.len() - k + i]);
                assert(suffix[j] == xs[xs.len() - k + j]);
            }
        }
        lemma_toggled_distinct_restores(suffix);
        if suffix.contains(xs[xs.len() - 1 - k]) {
            let m = choose|m: int| 0 <= m < suffix.len() && suffix[m] == xs[xs.len() - 1 - k];
            assert(suffix[m] == xs[xs.len() - k + m]);
        }
    }
}

/// Storing distinct searches from the last to the first into an empty store
/// gives the same list.
proof fn lemma_toggled_distinct_restores(xs: Seq<(Seq<char>, Seq<char>)>)
    requires
        distinct(xs),
    ensures
        toggled_all_rev(Seq::empty(), xs) == xs,
    decreases xs.len(),
{
    if xs.len() > 0 {
        let rest = xs.drop_first();
        assert(distinct(rest)) by {
            assert forall|i: int, j: int| 0 <= i < j < rest.len() implies rest[i] != rest[j] by {
                assert(rest[i] == xs[i + 1]);
                assert(rest[j] == xs[j + 1]);
            }
        }
        lemma_toggled_distinct_restores(rest);
        assert(!rest.contains(xs[0])) by {
            if rest.contains(xs[0]) {
                let k = choose|k: int| 0 <= k < rest.len() && rest[k] == xs[0];
                assert(xs[k + 1] == xs[0]);
            }
        }
        assert(seq![xs[0]] + rest =~= xs);
    }
}

} // verus!
