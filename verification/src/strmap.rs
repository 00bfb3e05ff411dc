//! A map keyed by text, holding each key once.
//!
//! It stands for the `BTreeMap<String, V>` of the wire shapes: what callers
//! rely on is the mapping from keys to values, which is its view.
use vstd::prelude::*;
use crate::text::str_equal;
use vstd::std_specs::cmp::{PartialEqSpec, PartialEqSpecImpl};

verus! {

/// No key occurs twice in a list of pairs.
pub open spec fn distinct_keys<V>(p: Seq<(Seq<char>, V)>) -> bool {
    forall|i: int, j: int| 0 <= i < j < p.len() ==> #[trigger] p[i].0 != #[trigger] p[j].0
}

/// The map that a list of pairs with distinct keys describes.
pub open spec fn pairs_map<V>(p: Seq<(Seq<char>, V)>) -> Map<Seq<char>, V> {
    Map::new(
        |k: Seq<char>| exists|i: int| 0 <= i < p.len() && #[trigger] p[i].0 == k,
        |k: Seq<char>| p[choose|i: int| 0 <= i < p.len() && #[trigger] p[i].0 == k].1,
    )
}

/// Each pair of a list with distinct keys is an entry of its map, and the map
/// holds nothing else.
pub proof fn lemma_pairs_map<V>(p: Seq<(Seq<char>, V)>)
    requires
        distinct_keys(p),
    ensures
        forall|i: int|
            0 <= i < p.len() ==> #[trigger] pairs_map(p).contains_key(p[i].0) && pairs_map(p)[p[i].0]
                == p[i].1,
        forall|k: Seq<char>|
            #[trigger] pairs_map(p).contains_key(k) ==> exists|i: int|
                0 <= i < p.len() && #[trigger] p[i].0 == k,
{
    assert forall|i: int| 0 <= i < p.len() implies #[trigger] pairs_map(p).contains_key(p[i].0)
        && pairs_map(p)[p[i].0] == p[i].1 by {
        let k = p[i].0;
        assert(exists|j: int| 0 <= j < p.len() && #[trigger] p[j].0 == k);
        let j = choose|j: int| 0 <= j < p.len() && #[trigger] p[j].0 == k;
        if j != i {
            if j < i {
                assert(p[j].0 != p[i].0);
            } else {
                assert(p[i].0 != p[j].0);
            }
        }
    }
}

/// A text-keyed map; each key occurs once.
#[derive(Debug)]
pub struct StrMap<V> {
    entries: Vec<(String, V)>,
}

impl<V> StrMap<V> {
    /// The entries, in the order they were first inserted.
    pub closed spec fn pairs(self) -> Seq<(Seq<char>, V)> {
        self.entries@.map_values(|e: (String, V)| (e.0@, e.1))
    }

    #[verifier::type_invariant]
    closed spec fn keys_once(self) -> bool {
        distinct_keys(self.pairs())
    }

    /// An empty map.
    pub fn new() -> (m: Self)
        ensures
            m@ == Map::<Seq<char>, V>::empty(),
            m.pairs().len() == 0,
    {
        let m = StrMap { entries: Vec::new() };
        assert(m.pairs() =~= Seq::<(Seq<char>, V)>::empty());
        assert(m@ =~= Map::<Seq<char>, V>::empty());
        m
    }

    /// Number of entries; also states that no key occurs twice.
    pub fn len(&self) -> (n: usize)
        ensures
            n == self.pairs().len(),
            distinct_keys(self.pairs()),
            self@ == pairs_map(self.pairs()),
    {
        proof {
            use_type_invariant(self);
        }
        self.entries.len()
    }

    /// The key of the `i`-th entry.
    pub fn key_at(&self, i: usize) -> (k: &String)
        requires
            i < self.pairs().len(),
        ensures
            k@ == self.pairs()[i as int].0,
    {
        &self.entries[i].0
    }

    /// The value of the `i`-th entry.
    pub fn value_at(&self, i: usize) -> (v: &V)
        requires
            i < self.pairs().len(),
        ensures
            *v == self.pairs()[i as int].1,
    {
        &self.entries[i].1
    }

    /// The value under a key, if any.
    pub open spec fn lookup(self, key: Seq<char>) -> Option<V> {
        if self@.contains_key(key) {
            Some(self@[key])
        } else {
            None
        }
    }

    /// Looks a key up.
    pub fn get(&self, key: &str) -> (r: Option<&V>)
        ensures
            match r {
                Some(v) => self.lookup(key@) == Some(*v),
                None => self.lookup(key@) is None,
            },
            match r {
                Some(v) => self@.contains_key(key@) && *v == self@[key@],
                None => !self@.contains_key(key@),
            },
    {
        proof {
            use_type_invariant(self);
            lemma_pairs_map(self.pairs());
        }
        let n = self.entries.len();
        let mut i: usize = 0;
        while i < n
            invariant
                n == self.pairs().len(),
                i <= n,
                distinct_keys(self.pairs()),
                forall|j: int| 0 <= j < i ==> #[trigger] self.pairs()[j].0 != key@,
            decreases n - i,
        {
            if str_equal(self.entries[i].0.as_str(), key) {
                proof {
                    lemma_pairs_map(self.pairs());
                    assert(self.pairs()[i as int].0 == key@);
                }
                return Some(&self.entries[i].1);
            }
            i = i + 1;
        }
        proof {
            lemma_pairs_map(self.pairs());
            if self@.contains_key(key@) {
                let j = choose|j: int| 0 <= j < self.pairs().len() && #[trigger] self.pairs()[j].0 == key@;
                assert(self.pairs()[j].0 != key@);
            }
        }
        None
    }

    /// Sets the value of a key: replaces it where the key is present, else adds it.
    pub fn insert(&mut self, key: String, value: V)
        ensures
            final(self)@ == old(self)@.insert(key@, value),
    {
        proof {
            use_type_invariant(&*self);
        }
        let ghost before = self.pairs();
        let mut entries: Vec<(String, V)> = Vec::new();
        std::mem::swap(&mut entries, &mut self.entries);
        assert(entries@.map_values(|e: (String, V)| (e.0@, e.1)) == before);
        let n = entries.len();
        let mut i: usize = 0;
        while i < n
            invariant
                n == entries@.len(),
                before == entries@.map_values(|e: (String, V)| (e.0@, e.1)),
                before == old(self).pairs(),
                distinct_keys(before),
                i <= n,
                forall|j: int| 0 <= j < i ==> #[trigger] before[j].0 != key@,
            decreases n - i,
        {
            if entries[i].0 == key {
                let ghost k = key@;
                entries.set(i, (key, value));
                proof {
                    assert(entries@.map_values(|e: (String, V)| (e.0@, e.1)) =~= before.update(
                        i as int,
                        (k, value),
                    ));
                    lemma_replace_value(before, i as int, k, value);
                }
                self.entries = entries;
                return;
            }
            i = i + 1;
        }
        let ghost k = key@;
        entries.push((key, value));
        proof {
            assert(entries@.map_values(|e: (String, V)| (e.0@, e.1)) =~= before.push((k, value)));
            lemma_add_key(before, k, value);
        }
        self.entries = entries;
    }
}

/// Replacing the value of a present key keeps the keys distinct and updates the map.
proof fn lemma_replace_value<V>(p: Seq<(Seq<char>, V)>, i: int, k: Seq<char>, v: V)
    requires
        distinct_keys(p),
        0 <= i < p.len(),
        p[i].0 == k,
    ensures
        distinct_keys(p.update(i, (k, v))),
        pairs_map(p.update(i, (k, v))) == pairs_map(p).insert(k, v),
{
    let q = p.update(i, (k, v));
    assert forall|a: int, b: int| 0 <= a < b < q.len() implies #[trigger] q[a].0 != #[trigger] q[b].0 by {
        assert(p[a].0 != p[b].0);
    }
    lemma_pairs_map(p);
    lemma_pairs_map(q);
    let m = pairs_map(p).insert(k, v);
    assert forall|x: Seq<char>| #[trigger] pairs_map(q).contains_key(x) implies m.contains_key(x) by {
        let j = choose|j: int| 0 <= j < q.len() && #[trigger] q[j].0 == x;
        if j != i {
            assert(p[j].0 == x);
        }
    }
    assert forall|x: Seq<char>| #[trigger] m.contains_key(x) implies pairs_map(q).contains_key(x) by {
        if x != k {
            let j = choose|j: int| 0 <= j < p.len() && #[trigger] p[j].0 == x;
            assert(q[j].0 == x);
        } else {
            assert(q[i].0 == x);
        }
    }
    assert forall|x: Seq<char>| #[trigger] pairs_map(q).contains_key(x) implies pairs_map(q)[x] == m[x] by {
        let j = choose|j: int| 0 <= j < q.len() && #[trigger] q[j].0 == x;
        if j != i {
            assert(p[j].0 == x);
        }
    }
    assert(pairs_map(q) =~= m);
}

/// Adding an absent key keeps the keys distinct and extends the map.
proof fn lemma_add_key<V>(p: Seq<(Seq<char>, V)>, k: Seq<char>, v: V)
    requires
        distinct_keys(p),
        forall|j: int| 0 <= j < p.len() ==> #[trigger] p[j].0 != k,
    ensures
        distinct_keys(p.push((k, v))),
        pairs_map(p.push((k, v))) == pairs_map(p).insert(k, v),
{
    let q = p.push((k, v));
    assert forall|a: int, b: int| 0 <= a < b < q.len() implies #[trigger] q[a].0 != #[trigger] q[b].0 by {
        if b < p.len() {
            assert(p[a].0 != p[b].0);
        } else {
            assert(p[a].0 != k);
        }
    }
    lemma_pairs_map(p);
    lemma_pairs_map(q);
    let m = pairs_map(p).insert(k, v);
    assert forall|x: Seq<char>| #[trigger] pairs_map(q).contains_key(x) implies m.contains_key(x) by {
        let j = choose|j: int| 0 <= j < q.len() && #[trigger] q[j].0 == x;
        if j < p.len() {
            assert(p[j].0 == x);
        }
    }
    assert forall|x: Seq<char>| #[trigger] m.contains_key(x) implies pairs_map(q).contains_key(x) by {
        if x != k {
            let j = choose|j: int| 0 <= j < p.len() && #[trigger] p[j].0 == x;
            assert(q[j].0 == x);
        } else {
            assert(q[p.len() as int].0 == x);
        }
    }
    assert forall|x: Seq<char>| #[trigger] pairs_map(q).contains_key(x) implies pairs_map(q)[x] == m[x] by {
        let j = choose|j: int| 0 <= j < q.len() && #[trigger] q[j].0 == x;
        if j < p.len() {
            assert(p[j].0 == x);
        }
    }
    assert(pairs_map(q) =~= m);
}

impl<V: Clone> Clone for StrMap<V> {
    /// A copy with the same keys in the same order, each value cloned.
    fn clone(&self) -> (r: Self)
        ensures
            r@.dom() == self@.dom(),
            r.pairs().len() == self.pairs().len(),
            forall|i: int|
                0 <= i < self.pairs().len() ==> #[trigger] r.pairs()[i].0 == self.pairs()[i].0
                    && cloned::<V>(self.pairs()[i].1, r.pairs()[i].1),
            forall|k: Seq<char>| #[trigger] r@.contains_key(k) ==> cloned::<V>(self@[k], r@[k]),
    {
        proof {
            use_type_invariant(self);
        }
        let n = self.entries.len();
        let mut entries: Vec<(String, V)> = Vec::new();
        let mut i: usize = 0;
        while i < n
            invariant
                n == self.pairs().len(),
                distinct_keys(self.pairs()),
                i <= n,
                entries@.len() == i,
                forall|j: int| 0 <= j < i ==> #[trigger] entries@[j].0@ == self.pairs()[j].0,
                forall|j: int| 0 <= j < i ==> cloned::<V>(self.pairs()[j].1, #[trigger] entries@[j].1),
            decreases n - i,
        {
            let k = self.entries[i].0.clone();
            let v = self.entries[i].1.clone();
            entries.push((k, v));
            i = i + 1;
        }
        let ghost p = entries@.map_values(|e: (String, V)| (e.0@, e.1));
        proof {
            assert forall|a: int, b: int| 0 <= a < b < p.len() implies #[trigger] p[a].0 != #[trigger] p[b].0 by {
                assert(self.pairs()[a].0 != self.pairs()[b].0);
            }
            lemma_pairs_map(p);
            lemma_pairs_map(self.pairs());
            assert forall|x: Seq<char>| #[trigger] pairs_map(p).contains_key(x) implies self@.contains_key(x) && cloned::<V>(self@[x], pairs_map(p)[x]) by {
                let j = choose|j: int| 0 <= j < p.len() && #[trigger] p[j].0 == x;
                assert(self.pairs()[j].0 == x);
                assert(cloned::<V>(self.pairs()[j].1, entries@[j].1));
            }
            assert forall|x: Seq<char>| #[trigger] self@.contains_key(x) implies pairs_map(p).contains_key(x) by {
                let j = choose|j: int| 0 <= j < self.pairs().len() && #[trigger] self.pairs()[j].0 == x;
                assert(p[j].0 == x);
            }
            assert(pairs_map(p).dom() =~= self@.dom());
        }
        StrMap { entries }
    }
}

/// Two maps are equal when they hold the same keys, with equal values under
/// each; the order in which keys were inserted does not matter.
impl<V: PartialEq> PartialEq for StrMap<V> {
    fn eq(&self, other: &Self) -> (r: bool) {
        proof {
            use_type_invariant(self);
            use_type_invariant(other);
            lemma_pairs_map(self.pairs());
            lemma_pairs_map(other.pairs());
        }
        let n = self.entries.len();
        let mut i: usize = 0;
        while i < n
            invariant
                n == self.pairs().len(),
                i <= n,
                distinct_keys(self.pairs()),
                forall|j: int|
                    0 <= j < i ==> #[trigger] other@.contains_key(self.pairs()[j].0) && (
                    V::obeys_eq_spec() ==> self.pairs()[j].1.eq_spec(&other@[self.pairs()[j].0])),
            decreases n - i,
        {
            proof {
                lemma_pairs_map(self.pairs());
            }
            match other.get(self.entries[i].0.as_str()) {
                Some(v) => {
                    let same = self.entries[i].1.eq(v);
                    proof {
                        assert(self.entries@[i as int].1 == self.pairs()[i as int].1);
                        assert(*v == other@[self.pairs()[i as int].0]);
                    }
                    if !same {
                        proof {
                            assert(self@[self.pairs()[i as int].0] == self.pairs()[i as int].1);
                        }
                        return false;
                    }
                    assert(other@.contains_key(self.pairs()[i as int].0));
                },
                None => {
                    proof {
                        assert(self@.contains_key(self.pairs()[i as int].0));
                    }
                    return false;
                },
            }
            i = i + 1;
        }
        let m = other.entries.len();
        let mut j: usize = 0;
        while j < m
            invariant
                m == other.pairs().len(),
                j <= m,
                distinct_keys(other.pairs()),
                forall|t: int| 0 <= t < j ==> #[trigger] self@.contains_key(other.pairs()[t].0),
            decreases m - j,
        {
            proof {
                lemma_pairs_map(other.pairs());
            }
            match self.get(other.entries[j].0.as_str()) {
                Some(_) => {},
                None => {
                    proof {
                        assert(other@.contains_key(other.pairs()[j as int].0));
                    }
                    return false;
                },
            }
            j = j + 1;
        }
        proof {
            lemma_pairs_map(self.pairs());
            lemma_pairs_map(other.pairs());
            assert forall|k: Seq<char>| #[trigger] self@.contains_key(k) implies other@.contains_key(k) && (
            V::obeys_eq_spec() ==> self@[k].eq_spec(&other@[k])) by {
                let t = choose|t: int| 0 <= t < self.pairs().len() && #[trigger] self.pairs()[t].0 == k;
                assert(other@.contains_key(self.pairs()[t].0));
            }
            assert forall|k: Seq<char>| #[trigger] other@.contains_key(k) implies self@.contains_key(k) by {
                let t = choose|t: int| 0 <= t < other.pairs().len() && #[trigger] other.pairs()[t].0 == k;
                assert(self@.contains_key(other.pairs()[t].0));
            }
            assert(self@.dom() =~= other@.dom());
        }
        true
    }
}

impl<V: PartialEq> PartialEqSpecImpl for StrMap<V> {
    open spec fn obeys_eq_spec() -> bool {
        V::obeys_eq_spec()
    }

    open spec fn eq_spec(&self, other: &Self) -> bool {
        &&& self@.dom() == other@.dom()
        &&& forall|k: Seq<char>| #[trigger] self@.contains_key(k) ==> self@[k].eq_spec(&other@[k])
    }
}

impl<V: Eq> Eq for StrMap<V> {

}

/// A read gives back the last write to a key and is blind to writes to
/// other keys: `after` is `before` with `k` set to `v`, as `insert` leaves it.
pub proof fn law_read_after_insert<V>(
    before: StrMap<V>,
    after: StrMap<V>,
    k: Seq<char>,
    v: V,
    other: Seq<char>,
)
    requires
        after@ == before@.insert(k, v),
        other != k,
    ensures
        after.lookup(k) == Some(v),
        after.lookup(other) == before.lookup(other),
{
}

impl<V> View for StrMap<V> {
    type V = Map<Seq<char>, V>;

    closed spec fn view(&self) -> Map<Seq<char>, V> {
        pairs_map(self.pairs())
    }
}

} // verus!
