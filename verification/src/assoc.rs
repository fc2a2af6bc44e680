//! Maps and sets keyed by text, kept as lists.

use vstd::prelude::*;

use crate::text::text_eq;

verus! {

/// The value stored for key `k`: that of the first entry with this key.
pub open spec fn lookup<V>(s: Seq<(String, V)>, k: Seq<char>) -> Option<V>
    decreases s.len(),
{
    if s.len() == 0 {
        None
    } else if s[0].0@ == k {
        Some(s[0].1)
    } else {
        lookup(s.drop_first(), k)
    }
}

/// Appending an entry leaves found keys alone and makes a new key found.
proof fn lemma_lookup_push<V>(s: Seq<(String, V)>, e: (String, V), k: Seq<char>)
    ensures
        lookup(s.push(e), k) == if lookup(s, k) is Some {
            lookup(s, k)
        } else if e.0@ == k {
            Some(e.1)
        } else {
            None
        },
    decreases s.len(),
{
    let t = s.push(e);
    if s.len() > 0 {
        assert(t[0] == s[0]);
        assert(t.drop_first() =~= s.drop_first().push(e));
        lemma_lookup_push(s.drop_first(), e, k);
    } else {
        assert(t[0] == e);
        assert(t.drop_first() =~= Seq::<(String, V)>::empty());
        assert(lookup(t.drop_first(), k) is None);
    }
}

/// Replacing the first entry of a key changes what that key finds and
/// nothing else.
proof fn lemma_lookup_update<V>(s: Seq<(String, V)>, i: int, e: (String, V), k: Seq<char>)
    requires
        0 <= i < s.len(),
        s[i].0@ == e.0@,
        forall|j: int| 0 <= j < i ==> s[j].0@ != e.0@,
    ensures
        lookup(s.update(i, e), k) == if k == e.0@ {
            Some(e.1)
        } else {
            lookup(s, k)
        },
    decreases s.len(),
{
    let t = s.update(i, e);
    if i > 0 {
        assert(t[0] == s[0]);
        assert(t.drop_first() =~= s.drop_first().update(i - 1, e));
        lemma_lookup_update(s.drop_first(), i - 1, e, k);
    } else {
        assert(t[0] == e);
        assert(t.drop_first() =~= s.drop_first());
    }
}

/// A map from texts to values.
pub struct TextMap<V> {
    entries: Vec<(String, V)>,
}

impl<V> TextMap<V> {
    /// Whether no key is stored twice.
    pub closed spec fn wf(&self) -> bool {
        forall|i: int, j: int|
            0 <= i < j < self.entries@.len() ==> self.entries@[i].0@ != self.entries@[j].0@
    }

    /// Each entry holds the value its key maps to.
    pub proof fn lemma_entry_found(&self, i: int)
        requires
            self.wf(),
            0 <= i < self.entries_spec().len(),
        ensures
            self.map_view().contains_key(self.entries_spec()[i].0@),
            self.map_view()[self.entries_spec()[i].0@] == self.entries_spec()[i].1,
    {
        lemma_lookup_found(self.entries@, i, self.entries@[i].0@);
    }

    /// Each key mapped is held by an entry, with the value it maps to.
    pub proof fn lemma_found_entry(&self)
        requires
            self.wf(),
        ensures
            forall|k: Seq<char>|
                #[trigger] self.map_view().contains_key(k) ==> exists|i: int|
                    0 <= i < self.entries_spec().len() && self.entries_spec()[i].0@ == k
                        && self.entries_spec()[i].1 == self.map_view()[k],
    {
        assert forall|k: Seq<char>| #[trigger] self.map_view().contains_key(k) implies exists|i: int|
            0 <= i < self.entries_spec().len() && self.entries_spec()[i].0@ == k
                && self.entries_spec()[i].1 == self.map_view()[k] by {
            lemma_lookup_none_or_other(self.entries@, k);
            let i = choose|i: int| 0 <= i < self.entries@.len() && self.entries@[i].0@ == k;
            assert forall|j: int| 0 <= j < i implies self.entries@[j].0@ != k by {
                assert(self.entries@[j].0@ != self.entries@[i].0@);
            }
            lemma_lookup_found(self.entries@, i, k);
            assert(self.entries_spec()[i].1 == self.map_view()[k]);
        }
    }

    /// The value stored for a key.
    pub closed spec fn get_spec(&self, k: Seq<char>) -> Option<V> {
        lookup(self.entries@, k)
    }

    /// The map from keys to the values stored for them.
    pub open spec fn map_view(&self) -> Map<Seq<char>, V> {
        Map::new(|k: Seq<char>| self.get_spec(k) is Some, |k: Seq<char>| self.get_spec(k).unwrap())
    }

    /// The entries, each key with its value, in the order they were first stored.
    pub closed spec fn entries_spec(&self) -> Seq<(String, V)> {
        self.entries@
    }

    /// The empty map.
    pub fn new() -> (r: TextMap<V>)
        ensures
            forall|k: Seq<char>| #[trigger] r.get_spec(k) is None,
            r.map_view() == Map::<Seq<char>, V>::empty(),
            r.wf(),
    {
        let r = TextMap { entries: Vec::new() };
        assert(r.map_view() =~= Map::<Seq<char>, V>::empty());
        r
    }

    fn position(&self, key: &str) -> (r: Option<usize>)
        ensures
            r matches Some(i) ==> i < self.entries@.len() && self.entries@[i as int].0@ == key@
                && forall|j: int| 0 <= j < i ==> self.entries@[j].0@ != key@,
            r is None ==> forall|j: int|
                0 <= j < self.entries@.len() ==> self.entries@[j].0@ != key@,
    {
        let n = self.entries.len();
        let mut i: usize = 0;
        while i < n
            invariant
                n == self.entries@.len(),
                i <= n,
                forall|j: int| 0 <= j < i ==> self.entries@[j].0@ != key@,
            decreases n - i,
        {
            if text_eq(self.entries[i].0.as_str(), key) {
                return Some(i);
            }
            i += 1;
        }
        None
    }

    /// Checks that no key is stored twice, as holds for every map built by
    /// `new` and `insert`.
    pub fn is_well_formed(&self) -> (r: bool)
        ensures
            r == self.wf(),
    {
        let n = self.entries.len();
        let mut i: usize = 0;
        while i < n
            invariant
                n == self.entries@.len(),
                i <= n,
                forall|a: int, b: int|
                    0 <= a < i && a < b < n ==> self.entries@[a].0@ != self.entries@[b].0@,
            decreases n - i,
        {
            let mut j: usize = i + 1;
            while j < n
                invariant
                    n == self.entries@.len(),
                    i < n,
                    i < j <= n,
                    forall|a: int, b: int|
                        0 <= a < i && a < b < n ==> self.entries@[a].0@ != self.entries@[b].0@,
                    forall|b: int| i < b < j ==> self.entries@[i as int].0@ != self.entries@[b].0@,
                decreases n - j,
            {
                if text_eq(self.entries[i].0.as_str(), self.entries[j].0.as_str()) {
                    return false;
                }
                j += 1;
            }
            i += 1;
        }
        true
    }

    /// The value stored for `key`, if any.
    pub fn get(&self, key: &str) -> (r: Option<&V>)
        ensures
            match r {
                Some(v) => self.get_spec(key@) == Some(*v),
                None => self.get_spec(key@) is None,
            },
    {
        proof {
            lemma_lookup_absent(self.entries@, key@);
        }
        match self.position(key) {
            Some(i) => {
                proof {
                    lemma_lookup_found(self.entries@, i as int, key@);
                }
                Some(&self.entries[i].1)
            },
            None => None,
        }
    }

    /// Stores `value` for `key`, replacing what was stored for it.
    pub fn insert(&mut self, key: String, value: V)
        requires
            old(self).wf(),
        ensures
            final(self).wf(),
            forall|k: Seq<char>|
                #[trigger] final(self).get_spec(k) == if k == key@ {
                    Some(value)
                } else {
                    old(self).get_spec(k)
                },
            final(self).map_view() == old(self).map_view().insert(key@, value),
    {
        self.insert_entry(key, value);
        assert(self.map_view() =~= old(self).map_view().insert(key@, value));
    }

    fn insert_entry(&mut self, key: String, value: V)
        requires
            old(self).wf(),
        ensures
            final(self).wf(),
            forall|k: Seq<char>|
                #[trigger] final(self).get_spec(k) == if k == key@ {
                    Some(value)
                } else {
                    old(self).get_spec(k)
                },
    {
        let ghost before = self.entries@;
        match self.position(key.as_str()) {
            Some(i) => {
                self.entries.set(i, (key, value));
                proof {
                    assert forall|k: Seq<char>|
                        #[trigger] lookup(self.entries@, k) == if k == before[i as int].0@ {
                            Some(value)
                        } else {
                            lookup(before, k)
                        } by {
                        lemma_lookup_update(before, i as int, self.entries@[i as int], k);
                    }
                }
            },
            None => {
                self.entries.push((key, value));
                proof {
                    lemma_lookup_absent(before, self.entries@.last().0@);
                    assert forall|k: Seq<char>|
                        #[trigger] lookup(self.entries@, k) == if k == self.entries@.last().0@ {
                            Some(value)
                        } else {
                            lookup(before, k)
                        } by {
                        lemma_lookup_push(before, self.entries@.last(), k);
                        lemma_lookup_none_or_other(before, k);
                    }
                }
            },
        }
    }

    /// The entries, each key with its value.
    pub fn entries(&self) -> (r: &Vec<(String, V)>)
        ensures
            r@ == self.entries_spec(),
    {
        &self.entries
    }
}

/// A key that no entry holds is not found.
proof fn lemma_lookup_absent<V>(s: Seq<(String, V)>, k: Seq<char>)
    ensures
        (forall|j: int| 0 <= j < s.len() ==> s[j].0@ != k) ==> lookup(s, k) is None,
    decreases s.len(),
{
    if s.len() > 0 {
        lemma_lookup_absent(s.drop_first(), k);
        if forall|j: int| 0 <= j < s.len() ==> s[j].0@ != k {
            assert forall|j: int| 0 <= j < s.drop_first().len() implies s.drop_first()[j].0@ != k by {
                assert(s.drop_first()[j] == s[j + 1]);
            }
        }
    }
}

/// A key is found at the first entry holding it.
proof fn lemma_lookup_found<V>(s: Seq<(String, V)>, i: int, k: Seq<char>)
    requires
        0 <= i < s.len(),
        s[i].0@ == k,
        forall|j: int| 0 <= j < i ==> s[j].0@ != k,
    ensures
        lookup(s, k) == Some(s[i].1),
    decreases s.len(),
{
    if i > 0 {
        lemma_lookup_found(s.drop_first(), i - 1, k);
    }
}

/// A found key is held by some entry.
proof fn lemma_lookup_none_or_other<V>(s: Seq<(String, V)>, k: Seq<char>)
    ensures
        lookup(s, k) is Some ==> exists|j: int| 0 <= j < s.len() && s[j].0@ == k,
    decreases s.len(),
{
    if s.len() > 0 && s[0].0@ != k {
        lemma_lookup_none_or_other(s.drop_first(), k);
        if lookup(s, k) is Some {
            let j = choose|j: int| 0 <= j < s.drop_first().len() && s.drop_first()[j].0@ == k;
            assert(s[j + 1].0@ == k);
        }
    }
}

/// Whether some text of the list is `x`.
pub open spec fn holds_text(s: Seq<String>, x: Seq<char>) -> bool {
    exists|j: int| 0 <= j < s.len() && s[j]@ == x
}

/// A list with one more text holds that text and the ones it held.
proof fn lemma_holds_push(s: Seq<String>, e: String, x: Seq<char>)
    ensures
        holds_text(s.push(e), x) <==> (holds_text(s, x) || e@ == x),
{
    let t = s.push(e);
    if holds_text(s, x) {
        let j = choose|j: int| 0 <= j < s.len() && s[j]@ == x;
        assert(t[j] == s[j]);
    }
    if e@ == x {
        assert(t[s.len() as int] == e);
    }
    if holds_text(t, x) {
        let j = choose|j: int| 0 <= j < t.len() && t[j]@ == x;
        if j < s.len() {
            assert(t[j] == s[j]);
        }
    }
}

/// A set of texts.
pub struct TextSet {
    items: Vec<String>,
}

impl TextSet {
    /// The texts held.
    pub closed spec fn view_set(&self) -> Set<Seq<char>> {
        Set::new(|k: Seq<char>| holds_text(self.items@, k))
    }

    /// The texts held, as a list.
    pub closed spec fn items_spec(&self) -> Seq<String> {
        self.items@
    }

    /// The texts listed are the texts held.
    pub proof fn lemma_items(&self)
        ensures
            forall|k: Seq<char>|
                #[trigger] self.view_set().contains(k) <==> holds_text(self.items_spec(), k),
    {
    }

    /// The empty set.
    pub fn new() -> (r: TextSet)
        ensures
            r.view_set() == Set::<Seq<char>>::empty(),
    {
        let r = TextSet { items: Vec::new() };
        assert(r.view_set() =~= Set::<Seq<char>>::empty());
        r
    }

    /// Whether `key` is held.
    pub fn contains(&self, key: &str) -> (r: bool)
        ensures
            r == self.view_set().contains(key@),
    {
        let n = self.items.len();
        let mut i: usize = 0;
        while i < n
            invariant
                n == self.items@.len(),
                i <= n,
                forall|j: int| 0 <= j < i ==> self.items@[j]@ != key@,
            decreases n - i,
        {
            if text_eq(self.items[i].as_str(), key) {
                return true;
            }
            i += 1;
        }
        false
    }

    /// Adds `key`.
    pub fn insert(&mut self, key: String)
        ensures
            final(self).view_set() == old(self).view_set().insert(key@),
    {
        if !self.contains(key.as_str()) {
            let ghost k = key@;
            self.items.push(key);
            proof {
                assert forall|x: Seq<char>| #[trigger]
                    self.view_set().contains(x) == old(self).view_set().insert(k).contains(x) by {
                    if x == k {
                        assert(self.items@[self.items@.len() - 1]@ == k);
                    }
                    if old(self).view_set().contains(x) {
                        let i = choose|i: int|
                            0 <= i < old(self).items@.len() && old(self).items@[i]@ == x;
                        assert(self.items@[i] == old(self).items@[i]);
                    }
                }
                assert(self.view_set() =~= old(self).view_set().insert(k));
            }
        } else {
            assert(self.view_set() =~= old(self).view_set().insert(key@));
        }
    }

    /// Removes `key`.
    pub fn remove(&mut self, key: &str)
        ensures
            final(self).view_set() == old(self).view_set().remove(key@),
    {
        let mut kept: Vec<String> = Vec::new();
        let n = self.items.len();
        let mut i: usize = 0;
        assert(self.items@.subrange(0, 0) =~= Seq::<String>::empty());
        while i < n
            invariant
                n == self.items@.len(),
                i <= n,
                forall|x: Seq<char>|
                    #[trigger] holds_text(kept@, x) <==> (x != key@ && holds_text(
                        self.items@.subrange(0, i as int),
                        x,
                    )),
            decreases n - i,
        {
            let ghost prefix = self.items@.subrange(0, i as int);
            let ghost kept_before = kept@;
            let item = self.items[i].clone();
            let keep = !text_eq(item.as_str(), key);
            if keep {
                kept.push(item);
            }
            proof {
                let next = self.items@.subrange(0, i + 1);
                assert(next =~= prefix.push(self.items@[i as int]));
                assert forall|x: Seq<char>|
                    #[trigger] holds_text(kept@, x) <==> (x != key@ && holds_text(next, x)) by {
                    lemma_holds_push(prefix, self.items@[i as int], x);
                    if keep {
                        lemma_holds_push(kept_before, self.items@[i as int], x);
                    }
                }
            }
            i += 1;
        }
        let ghost old_set = self.view_set();
        assert(self.items@.subrange(0, n as int) =~= self.items@);
        self.items = kept;
        assert(self.view_set() =~= old_set.remove(key@));
    }

    /// The texts held, as a list.
    pub fn items(&self) -> (r: &Vec<String>)
        ensures
            r@ == self.items_spec(),
    {
        &self.items
    }
}

} // verus!
