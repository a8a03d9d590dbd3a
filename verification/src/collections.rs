//! String-keyed collections that hold the contract's persistent state.
//!
//! Both are plain vectors without repeated keys; their views are the
//! mathematical set and map that the contracts of the contract methods use.
use vstd::prelude::*;

verus! {

/// No two entries of `s` are equal strings.
pub open spec fn distinct_strings(s: Seq<String>) -> bool {
    forall|i: int, j: int| 0 <= i < s.len() && 0 <= j < s.len() && i != j ==> s[i]@ != s[j]@
}

/// The texts of the strings in `s`.
pub open spec fn strings_set(s: Seq<String>) -> Set<Seq<char>> {
    Set::new(|k: Seq<char>| exists|i: int| 0 <= i < s.len() && s[i]@ == k)
}

/// Adding a string to a sequence adds its text to `strings_set`.
pub proof fn lemma_strings_set_push(s: Seq<String>, x: String)
    ensures
        strings_set(s.push(x)) == strings_set(s).insert(x@),
{
    assert forall|k: Seq<char>| #[trigger] strings_set(s.push(x)).contains(k) == strings_set(s).insert(x@).contains(k) by {
        if strings_set(s).contains(k) {
            let i = choose|i: int| 0 <= i < s.len() && s[i]@ == k;
            assert(s.push(x)[i]@ == k);
        }
        if k == x@ {
            assert(s.push(x)[s.len() as int]@ == k);
        }
        if strings_set(s.push(x)).contains(k) {
            let i = choose|i: int| 0 <= i < s.push(x).len() && s.push(x)[i]@ == k;
            if i < s.len() {
                assert(s[i]@ == k);
            }
        }
    }
    assert(strings_set(s.push(x)) =~= strings_set(s).insert(x@));
}

/// A set of strings (account IDs, task IDs, skills).
pub struct StrSet {
    items: Vec<String>,
}

impl View for StrSet {
    type V = Set<Seq<char>>;

    closed spec fn view(&self) -> Set<Seq<char>> {
        strings_set(self.items@)
    }
}

impl StrSet {
    /// The set holds no string twice.
    pub closed spec fn wf(&self) -> bool {
        distinct_strings(self.items@)
    }

    /// Creates an empty set.
    pub fn new() -> (s: Self)
        ensures
            s.wf(),
            s@ == Set::<Seq<char>>::empty(),
    {
        let s = StrSet { items: Vec::new() };
        assert(s@ =~= Set::<Seq<char>>::empty());
        s
    }

    fn position(&self, k: &String) -> (r: Option<usize>)
        ensures
            match r {
                Some(i) => i < self.items@.len() && self.items@[i as int]@ == k@,
                None => forall|i: int| 0 <= i < self.items@.len() ==> self.items@[i]@ != k@,
            },
    {
        let n = self.items.len();
        let mut i: usize = 0;
        while i < n
            invariant
                n == self.items@.len(),
                i <= n,
                forall|j: int| 0 <= j < i ==> self.items@[j]@ != k@,
            decreases n - i,
        {
            if self.items[i] == *k {
                return Some(i);
            }
            i = i + 1;
        }
        None
    }

    /// Whether `k` is in the set.
    pub fn contains(&self, k: &String) -> (b: bool)
        ensures
            b == self@.contains(k@),
    {
        match self.position(k) {
            Some(i) => {
                assert(self.items@[i as int]@ == k@);
                true
            },
            None => false,
        }
    }

    /// Adds `k`; returns whether it was not in the set before.
    pub fn insert(&mut self, k: String) -> (added: bool)
        requires
            old(self).wf(),
        ensures
            final(self).wf(),
            final(self)@ == old(self)@.insert(k@),
            added == !old(self)@.contains(k@),
    {
        match self.position(&k) {
            Some(i) => {
                assert(self.items@[i as int]@ == k@);
                assert(self@ =~= old(self)@.insert(k@));
                false
            },
            None => {
                let ghost old_items = self.items@;
                let ghost kv = k@;
                self.items.push(k);
                assert(self.items@ == old_items.push(k));
                assert forall|x: Seq<char>| #[trigger] self@.contains(x) == old(self)@.insert(kv).contains(x) by {
                    if x == kv {
                        assert(self.items@[old_items.len() as int]@ == x);
                    } else if old(self)@.contains(x) {
                        let j = choose|j: int| 0 <= j < old_items.len() && old_items[j]@ == x;
                        assert(self.items@[j]@ == x);
                    }
                }
                assert(self@ =~= old(self)@.insert(kv));
                true
            },
        }
    }
}

impl StrSet {
    /// The strings of the set, each once, in no particular order.
    pub fn into_vec(self) -> (r: Vec<String>)
        requires
            self.wf(),
        ensures
            distinct_strings(r@),
            strings_set(r@) == self@,
    {
        self.items
    }
}

/// A map from strings (account IDs, task IDs) to values.
#[verifier::reject_recursive_types(V)]
pub struct StrMap<V> {
    entries: Vec<(String, V)>,
}

impl<V> View for StrMap<V> {
    type V = Map<Seq<char>, V>;

    closed spec fn view(&self) -> Map<Seq<char>, V> {
        Map::new(
            |k: Seq<char>| exists|i: int| 0 <= i < self.entries@.len() && self.entries@[i].0@ == k,
            |k: Seq<char>|
                self.entries@[choose|i: int| 0 <= i < self.entries@.len() && self.entries@[i].0@ == k].1,
        )
    }
}

impl<V> StrMap<V> {
    /// The map holds no key twice.
    pub closed spec fn wf(&self) -> bool {
        forall|i: int, j: int|
            0 <= i < self.entries@.len() && 0 <= j < self.entries@.len() && i != j
                ==> self.entries@[i].0@ != self.entries@[j].0@
    }

    proof fn lemma_entry(&self, i: int)
        requires
            self.wf(),
            0 <= i < self.entries@.len(),
        ensures
            self@.contains_key(self.entries@[i].0@),
            self@[self.entries@[i].0@] == self.entries@[i].1,
    {
        let k = self.entries@[i].0@;
        assert(self@.dom().contains(k));
        let j = choose|j: int| 0 <= j < self.entries@.len() && self.entries@[j].0@ == k;
        assert(j == i);
    }

    /// Creates an empty map.
    pub fn new() -> (m: Self)
        ensures
            m.wf(),
            m@ == Map::<Seq<char>, V>::empty(),
    {
        let m = StrMap { entries: Vec::new() };
        assert(m@ =~= Map::<Seq<char>, V>::empty());
        m
    }

    fn position(&self, k: &String) -> (r: Option<usize>)
        ensures
            match r {
                Some(i) => i < self.entries@.len() && self.entries@[i as int].0@ == k@,
                None => forall|i: int| 0 <= i < self.entries@.len() ==> self.entries@[i].0@ != k@,
            },
    {
        let n = self.entries.len();
        let mut i: usize = 0;
        while i < n
            invariant
                n == self.entries@.len(),
                i <= n,
                forall|j: int| 0 <= j < i ==> self.entries@[j].0@ != k@,
            decreases n - i,
        {
            if self.entries[i].0 == *k {
                return Some(i);
            }
            i = i + 1;
        }
        None
    }

    /// Whether `k` is a key of the map.
    pub fn contains_key(&self, k: &String) -> (b: bool)
        ensures
            b == self@.contains_key(k@),
    {
        match self.position(k) {
            Some(i) => {
                assert(self@.dom().contains(self.entries@[i as int].0@));
                true
            },
            None => false,
        }
    }

    /// The value stored under `k`, if any.
    pub fn get(&self, k: &String) -> (r: Option<&V>)
        requires
            self.wf(),
        ensures
            match r {
                Some(v) => self@.contains_key(k@) && *v == self@[k@],
                None => !self@.contains_key(k@),
            },
    {
        match self.position(k) {
            Some(i) => {
                proof {
                    self.lemma_entry(i as int);
                }
                Some(&self.entries[i].1)
            },
            None => None,
        }
    }

    /// Stores `v` under `k`; returns the value that was stored there before.
    pub fn insert(&mut self, k: String, v: V) -> (r: Option<V>)
        requires
            old(self).wf(),
        ensures
            final(self).wf(),
            final(self)@ == old(self)@.insert(k@, v),
            r == (if old(self)@.contains_key(k@) { Some(old(self)@[k@]) } else { None::<V> }),
    {
        let ghost kv = k@;
        let ghost old_entries = self.entries@;
        match self.position(&k) {
            Some(i) => {
                proof {
                    old(self).lemma_entry(i as int);
                }
                let mut entry = (k, v);
                self.entries.set_and_swap(i, &mut entry);
                assert(self.entries@[i as int].0@ == kv);
                assert(self.entries@.len() == old_entries.len());
                assert(forall|a: int| 0 <= a < old_entries.len() && a != i ==> self.entries@[a] == old_entries[a]);
                let (_, previous) = entry;
                proof {
                    assert forall|a: int, b: int|
                        0 <= a < self.entries@.len() && 0 <= b < self.entries@.len() && a != b
                            implies self.entries@[a].0@ != self.entries@[b].0@ by {
                        if a != i && b != i {
                            assert(self.entries@[a] == old_entries[a]);
                            assert(self.entries@[b] == old_entries[b]);
                        } else if a == i {
                            assert(self.entries@[b] == old_entries[b]);
                        } else {
                            assert(self.entries@[a] == old_entries[a]);
                        }
                    }
                    assert forall|x: Seq<char>| #[trigger] self@.contains_key(x) == old(self)@.insert(kv, v).contains_key(x) by {
                        if x == kv {
                            assert(self.entries@[i as int].0@ == x);
                        } else if old(self)@.contains_key(x) {
                            let j = choose|j: int| 0 <= j < old_entries.len() && old_entries[j].0@ == x;
                            assert(self.entries@[j] == old_entries[j]);
                        } else if self@.contains_key(x) {
                            let j = choose|j: int| 0 <= j < self.entries@.len() && self.entries@[j].0@ == x;
                            assert(self.entries@[j] == old_entries[j]);
                        }
                    }
                    assert forall|x: Seq<char>| #[trigger] self@.contains_key(x) implies self@[x] == old(self)@.insert(kv, v)[x] by {
                        let j = choose|j: int| 0 <= j < self.entries@.len() && self.entries@[j].0@ == x;
                        self.lemma_entry(j);
                        if j != i {
                            assert(self.entries@[j] == old_entries[j]);
                            old(self).lemma_entry(j);
                        }
                    }
                    assert(self@ =~= old(self)@.insert(kv, v));
                }
                Some(previous)
            },
            None => {
                self.entries.push((k, v));
                proof {
                    assert(self.entries@ == old_entries.push((self.entries@[old_entries.len() as int].0, v)));
                    assert forall|x: Seq<char>| #[trigger] self@.contains_key(x) == old(self)@.insert(kv, v).contains_key(x) by {
                        if x == kv {
                            assert(self.entries@[old_entries.len() as int].0@ == x);
                        } else if old(self)@.contains_key(x) {
                            let j = choose|j: int| 0 <= j < old_entries.len() && old_entries[j].0@ == x;
                            assert(self.entries@[j] == old_entries[j]);
                        } else if self@.contains_key(x) {
                            let j = choose|j: int| 0 <= j < self.entries@.len() && self.entries@[j].0@ == x;
                            assert(self.entries@[j] == old_entries[j]);
                        }
                    }
                    assert forall|x: Seq<char>| #[trigger] self@.contains_key(x) implies self@[x] == old(self)@.insert(kv, v)[x] by {
                        let j = choose|j: int| 0 <= j < self.entries@.len() && self.entries@[j].0@ == x;
                        self.lemma_entry(j);
                        if j < old_entries.len() {
                            assert(self.entries@[j] == old_entries[j]);
                            old(self).lemma_entry(j);
                        }
                    }
                    assert(self@ =~= old(self)@.insert(kv, v));
                }
                None
            },
        }
    }

    /// The entries of the map, each key once, in no particular order.
    pub fn into_entries(self) -> (r: Vec<(String, V)>)
        requires
            self.wf(),
        ensures
            forall|i: int, j: int| 0 <= i < r@.len() && 0 <= j < r@.len() && i != j ==> r@[i].0@ != r@[j].0@,
            forall|i: int| 0 <= i < r@.len() ==> #[trigger] self@.contains_key(r@[i].0@) && self@[r@[i].0@] == r@[i].1,
            forall|k: Seq<char>| #[trigger] self@.contains_key(k) ==> exists|i: int| 0 <= i < r@.len() && r@[i].0@ == k,
    {
        proof {
            assert forall|i: int| 0 <= i < self.entries@.len() implies #[trigger] self@.contains_key(self.entries@[i].0@)
                && self@[self.entries@[i].0@] == self.entries@[i].1 by {
                self.lemma_entry(i);
            }
        }
        self.entries
    }

    /// Takes the value stored under `k` out of the map, if any.
    pub fn remove(&mut self, k: &String) -> (r: Option<V>)
        requires
            old(self).wf(),
        ensures
            final(self).wf(),
            final(self)@ == old(self)@.remove(k@),
            r == (if old(self)@.contains_key(k@) { Some(old(self)@[k@]) } else { None::<V> }),
    {
        let ghost old_entries = self.entries@;
        match self.position(k) {
            Some(i) => {
                proof {
                    old(self).lemma_entry(i as int);
                }
                let (_, v) = self.entries.remove(i);
                proof {
                    assert(self.entries@ == old_entries.remove(i as int));
                    assert forall|a: int| 0 <= a < self.entries@.len() implies
                        #[trigger] self.entries@[a] == old_entries[if a < i { a } else { a + 1 }] by {}
                    assert forall|x: Seq<char>| #[trigger] self@.contains_key(x) == old(self)@.remove(k@).contains_key(x) by {
                        if self@.contains_key(x) {
                            let j = choose|j: int| 0 <= j < self.entries@.len() && self.entries@[j].0@ == x;
                            let oj = if j < i { j } else { j + 1 };
                            assert(self.entries@[j] == old_entries[oj]);
                            assert(old_entries[oj].0@ == x);
                            assert(x != k@);
                        } else if old(self)@.contains_key(x) && x != k@ {
                            let j = choose|j: int| 0 <= j < old_entries.len() && old_entries[j].0@ == x;
                            let nj = if j < i { j } else { j - 1 };
                            assert(self.entries@[nj] == old_entries[j]);
                        }
                    }
                    assert forall|a: int, b: int|
                        0 <= a < self.entries@.len() && 0 <= b < self.entries@.len() && a != b
                            implies self.entries@[a].0@ != self.entries@[b].0@ by {
                        let oa = if a < i { a } else { a + 1 };
                        let ob = if b < i { b } else { b + 1 };
                        assert(self.entries@[a] == old_entries[oa]);
                        assert(self.entries@[b] == old_entries[ob]);
                    }
                    assert forall|x: Seq<char>| #[trigger] self@.contains_key(x) implies self@[x] == old(self)@.remove(k@)[x] by {
                        let j = choose|j: int| 0 <= j < self.entries@.len() && self.entries@[j].0@ == x;
                        self.lemma_entry(j);
                        let oj = if j < i { j } else { j + 1 };
                        assert(self.entries@[j] == old_entries[oj]);
                        old(self).lemma_entry(oj);
                    }
                    assert(self@ =~= old(self)@.remove(k@));
                }
                Some(v)
            },
            None => {
                assert(self@ =~= old(self)@.remove(k@));
                None
            },
        }
    }
}

} // verus!
