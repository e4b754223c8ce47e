//! The `[dependencies]` table: names mapped to their specs, kept in
//! ascending name order (the order `Smidr.toml` lists them in, and the
//! order they are resolved in).

use vstd::prelude::*;
use crate::config::DependencySpec;
use crate::text::{
    compare_str, lemma_str_less_asymmetric, lemma_str_less_irreflexive,
    lemma_str_less_transitive, str_less,
};

verus! {

/// The entries as (name, spec) pairs.
pub open spec fn pairs_of(v: Seq<(String, DependencySpec)>) -> Seq<(Seq<char>, DependencySpec)> {
    v.map_values(|e: (String, DependencySpec)| (e.0@, e.1))
}

/// Names strictly ascending: sorted, and no name twice.
pub open spec fn keys_sorted(p: Seq<(Seq<char>, DependencySpec)>) -> bool {
    forall|i: int, j: int| 0 <= i < j < p.len() ==> str_less(#[trigger] p[i].0, #[trigger] p[j].0)
}

pub open spec fn has_key(p: Seq<(Seq<char>, DependencySpec)>, k: Seq<char>) -> bool {
    exists|i: int| 0 <= i < p.len() && #[trigger] p[i].0 == k
}

/// The map that a list of pairs stands for.
pub open spec fn pairs_map(p: Seq<(Seq<char>, DependencySpec)>) -> Map<Seq<char>, DependencySpec> {
    Map::new(
        |k: Seq<char>| has_key(p, k),
        |k: Seq<char>| p[choose|i: int| 0 <= i < p.len() && #[trigger] p[i].0 == k].1,
    )
}

/// In a sorted list, entry `i` is what the map holds for its name.
pub proof fn lemma_map_at(p: Seq<(Seq<char>, DependencySpec)>, i: int)
    requires
        keys_sorted(p),
        0 <= i < p.len(),
    ensures
        pairs_map(p).contains_key(p[i].0),
        pairs_map(p)[p[i].0] == p[i].1,
{
    assert(has_key(p, p[i].0));
    let j = choose|j: int| 0 <= j < p.len() && #[trigger] p[j].0 == p[i].0;
    if j < i {
        assert(str_less(p[j].0, p[i].0));
        lemma_str_less_irreflexive(p[i].0);
    } else if j > i {
        assert(str_less(p[i].0, p[j].0));
        lemma_str_less_irreflexive(p[i].0);
    }
}

pub struct DependencyTable {
    entries: Vec<(String, DependencySpec)>,
}

impl DependencyTable {
    /// The entries, in order, as (name, spec) pairs.
    pub closed spec fn pairs(&self) -> Seq<(Seq<char>, DependencySpec)> {
        pairs_of(self.entries@)
    }

    #[verifier::type_invariant]
    closed spec fn sorted(&self) -> bool {
        keys_sorted(self.pairs())
    }
}

impl View for DependencyTable {
    type V = Map<Seq<char>, DependencySpec>;

    open spec fn view(&self) -> Map<Seq<char>, DependencySpec> {
        pairs_map(self.pairs())
    }
}

/// Where `key` is, or would go, among the sorted names of `v`.
fn locate(v: &Vec<(String, DependencySpec)>, key: &str) -> (r: (usize, bool))
    requires
        keys_sorted(pairs_of(v@)),
    ensures
        r.0 <= v@.len(),
        forall|i: int| 0 <= i < r.0 ==> str_less(#[trigger] pairs_of(v@)[i].0, key@),
        r.1 ==> r.0 < v@.len() && pairs_of(v@)[r.0 as int].0 == key@,
        !r.1 ==> (r.0 < v@.len() ==> str_less(key@, pairs_of(v@)[r.0 as int].0)),
{
    let ghost p = pairs_of(v@);
    let mut i: usize = 0;
    while i < v.len()
        invariant
            i <= v@.len(),
            p == pairs_of(v@),
            keys_sorted(p),
            forall|j: int| 0 <= j < i ==> str_less(#[trigger] p[j].0, key@),
        decreases v.len() - i,
    {
        let c = compare_str(v[i].0.as_str(), key);
        assert(p[i as int].0 == v@[i as int].0@);
        if c == 0 {
            return (i, true);
        }
        if c > 0 {
            return (i, false);
        }
        i = i + 1;
    }
    (i, false)
}

impl DependencyTable {
    /// An empty table.
    pub fn new() -> (t: DependencyTable)
        ensures
            t@ == Map::<Seq<char>, DependencySpec>::empty(),
    {
        let t = DependencyTable { entries: Vec::new() };
        assert(t@ =~= Map::<Seq<char>, DependencySpec>::empty());
        t
    }

    /// Number of entries.
    pub fn len(&self) -> (r: usize)
        ensures
            r == self@.len(),
            r == self@.dom().len(),
    {
        proof {
            use_type_invariant(self);
            self.lemma_dom_finite_len();
        }
        self.entries.len()
    }

    proof fn lemma_dom_finite_len(&self)
        requires
            keys_sorted(self.pairs()),
        ensures
            self@.dom().finite(),
            self@.dom().len() == self.pairs().len(),
    {
        let p = self.pairs();
        let ks = p.map_values(|e: (Seq<char>, DependencySpec)| e.0);
        assert(self@.dom() =~= ks.to_set()) by {
            assert forall|k: Seq<char>| self@.dom().contains(k) implies ks.to_set().contains(k) by {
                let i = choose|i: int| 0 <= i < p.len() && #[trigger] p[i].0 == k;
                assert(ks[i] == k);
            }
            assert forall|k: Seq<char>| ks.to_set().contains(k) implies self@.dom().contains(k) by {
                let i = choose|i: int| 0 <= i < ks.len() && ks[i] == k;
                assert(p[i].0 == k);
            }
        }
        assert(ks.no_duplicates()) by {
            assert forall|i: int, j: int| 0 <= i < ks.len() && 0 <= j < ks.len() && i != j implies ks[i]
                != ks[j] by {
                if i < j {
                    assert(str_less(p[i].0, p[j].0));
                    lemma_str_less_irreflexive(p[i].0);
                } else {
                    assert(str_less(p[j].0, p[i].0));
                    lemma_str_less_irreflexive(p[j].0);
                }
            }
        }
        ks.unique_seq_to_set();
    }

    /// Whether `key` has an entry.
    pub fn contains_key(&self, key: &str) -> (r: bool)
        ensures
            r == self@.contains_key(key@),
    {
        proof {
            use_type_invariant(self);
        }
        let (i, found) = locate(&self.entries, key);
        proof {
            self.lemma_absent(key@, i as int, found);
        }
        found
    }

    /// The spec recorded for `key`, if any.
    pub fn get(&self, key: &str) -> (r: Option<&DependencySpec>)
        ensures
            r matches Some(v) ==> self@.contains_key(key@) && *v == self@[key@],
            r is None ==> !self@.contains_key(key@),
    {
        proof {
            use_type_invariant(self);
        }
        let (i, found) = locate(&self.entries, key);
        proof {
            self.lemma_absent(key@, i as int, found);
        }
        if found {
            proof {
                lemma_map_at(self.pairs(), i as int);
            }
            Some(&self.entries[i].1)
        } else {
            None
        }
    }

    proof fn lemma_absent(&self, key: Seq<char>, i: int, found: bool)
        requires
            keys_sorted(self.pairs()),
            0 <= i <= self.pairs().len(),
            forall|j: int| 0 <= j < i ==> str_less(#[trigger] self.pairs()[j].0, key),
            found ==> i < self.pairs().len() && self.pairs()[i].0 == key,
            !found ==> (i < self.pairs().len() ==> str_less(key, self.pairs()[i].0)),
        ensures
            found == self@.contains_key(key),
    {
        let p = self.pairs();
        if found {
            assert(has_key(p, key));
        } else if has_key(p, key) {
            let j = choose|j: int| 0 <= j < p.len() && #[trigger] p[j].0 == key;
            if j < i {
                lemma_str_less_irreflexive(key);
            } else if j == i {
                lemma_str_less_irreflexive(key);
            } else {
                assert(str_less(p[i].0, p[j].0));
                lemma_str_less_asymmetric(key, p[i].0);
                lemma_str_less_transitive(key, p[i].0, p[j].0);
                lemma_str_less_irreflexive(key);
            }
        }
    }

    /// Set the spec of `key`, replacing any earlier one, which is returned.
    pub fn insert(&mut self, key: String, value: DependencySpec) -> (r: Option<DependencySpec>)
        ensures
            final(self)@ == old(self)@.insert(key@, value),
            r matches Some(v) ==> old(self)@.contains_key(key@) && v == old(self)@[key@],
            r is None ==> !old(self)@.contains_key(key@),
    {
        proof {
            use_type_invariant(&*self);
        }
        let ghost old_map = self@;
        let ghost p = self.pairs();
        let mut v: Vec<(String, DependencySpec)> = Vec::new();
        std::mem::swap(&mut v, &mut self.entries);
        assert(pairs_of(v@) == p);
        let (i, found) = locate(&v, key.as_str());
        proof {
            assert(p == pairs_of(v@));
            let t = DependencyTable { entries: v };
            lemma_absent_pairs(p, key@, i as int, found);
        }
        let ghost kv = key@;
        if found {
            let old_entry = v.remove(i);
            v.insert(i, (key, value));
            let ghost q = pairs_of(v@);
            proof {
                assert(q =~= p.update(i as int, (kv, value)));
                assert(keys_sorted(q)) by {
                    assert forall|a: int, b: int| 0 <= a < b < q.len() implies str_less(
                        #[trigger] q[a].0,
                        #[trigger] q[b].0,
                    ) by {
                        assert(q[a].0 == p[a].0);
                        assert(q[b].0 == p[b].0);
                    }
                }
                lemma_map_at(p, i as int);
                assert(pairs_map(q) =~= old_map.insert(kv, value)) by {
                    assert forall|k: Seq<char>| #[trigger]
                        pairs_map(q).contains_key(k) == old_map.insert(kv, value).contains_key(k) by {
                        if has_key(q, k) {
                            let j = choose|j: int| 0 <= j < q.len() && #[trigger] q[j].0 == k;
                            assert(p[j].0 == k);
                        }
                        if has_key(p, k) {
                            let j = choose|j: int| 0 <= j < p.len() && #[trigger] p[j].0 == k;
                            assert(q[j].0 == k);
                        }
                    }
                    assert forall|k: Seq<char>| #[trigger] pairs_map(q).contains_key(k) implies
                        pairs_map(q)[k] == old_map.insert(kv, value)[k] by {
                        let j = choose|j: int| 0 <= j < q.len() && #[trigger] q[j].0 == k;
                        lemma_map_at(q, j);
                        if j != i {
                            lemma_map_at(p, j);
                            assert(q[j] == p[j]);
                            if j < i {
                                assert(str_less(p[j].0, p[i as int].0));
                            } else {
                                assert(str_less(p[i as int].0, p[j].0));
                            }
                            lemma_str_less_irreflexive(kv);
                            assert(k != kv);
                        }
                    }
                }
            }
            self.entries = v;
            Some(old_entry.1)
        } else {
            v.insert(i, (key, value));
            let ghost q = pairs_of(v@);
            proof {
                assert(q =~= p.insert(i as int, (kv, value)));
                assert(keys_sorted(q)) by {
                    assert forall|a: int, b: int| 0 <= a < b < q.len() implies str_less(
                        #[trigger] q[a].0,
                        #[trigger] q[b].0,
                    ) by {
                        if b < i {
                            assert(q[a] == p[a] && q[b] == p[b]);
                        } else if b == i {
                            assert(q[a] == p[a]);
                        } else if a < i {
                            assert(q[a] == p[a] && q[b] == p[b - 1]);
                            assert(str_less(p[a].0, kv));
                            assert(str_less(kv, p[i as int].0));
                            if b - 1 > i {
                                assert(str_less(p[i as int].0, p[b - 1].0));
                                lemma_str_less_transitive(kv, p[i as int].0, p[b - 1].0);
                            }
                            lemma_str_less_transitive(p[a].0, kv, p[b - 1].0);
                        } else if a == i {
                            assert(q[b] == p[b - 1]);
                            if b - 1 > i {
                                assert(str_less(p[i as int].0, p[b - 1].0));
                                lemma_str_less_transitive(kv, p[i as int].0, p[b - 1].0);
                            }
                        } else {
                            assert(q[a] == p[a - 1] && q[b] == p[b - 1]);
                        }
                    }
                }
                assert(pairs_map(q) =~= old_map.insert(kv, value)) by {
                    assert forall|k: Seq<char>| #[trigger]
                        pairs_map(q).contains_key(k) == old_map.insert(kv, value).contains_key(k) by {
                        if has_key(q, k) {
                            let j = choose|j: int| 0 <= j < q.len() && #[trigger] q[j].0 == k;
                            if j < i {
                                assert(p[j].0 == k);
                            } else if j > i {
                                assert(p[j - 1].0 == k);
                            }
                        }
                        if has_key(p, k) {
                            let j = choose|j: int| 0 <= j < p.len() && #[trigger] p[j].0 == k;
                            if j < i {
                                assert(q[j].0 == k);
                            } else {
                                assert(q[j + 1].0 == k);
                            }
                        }
                        assert(q[i as int].0 == kv);
                    }
                    assert forall|k: Seq<char>| #[trigger] pairs_map(q).contains_key(k) implies
                        pairs_map(q)[k] == old_map.insert(kv, value)[k] by {
                        let j = choose|j: int| 0 <= j < q.len() && #[trigger] q[j].0 == k;
                        lemma_map_at(q, j);
                        if j < i {
                            lemma_map_at(p, j);
                        } else if j > i {
                            lemma_map_at(p, j - 1);
                        }
                    }
                }
            }
            self.entries = v;
            None
        }
    }

    /// Drop the entry of `key`, returning its spec if there was one.
    pub fn remove(&mut self, key: &str) -> (r: Option<DependencySpec>)
        ensures
            final(self)@ == old(self)@.remove(key@),
            r matches Some(v) ==> old(self)@.contains_key(key@) && v == old(self)@[key@],
            r is None ==> !old(self)@.contains_key(key@),
    {
        proof {
            use_type_invariant(&*self);
        }
        let ghost old_map = self@;
        let ghost p = self.pairs();
        let mut v: Vec<(String, DependencySpec)> = Vec::new();
        std::mem::swap(&mut v, &mut self.entries);
        let (i, found) = locate(&v, key);
        proof {
            lemma_absent_pairs(p, key@, i as int, found);
        }
        if !found {
            self.entries = v;
            assert(old_map.remove(key@) =~= old_map);
            return None;
        }
        let old_entry = v.remove(i);
        let ghost q = pairs_of(v@);
        proof {
            lemma_map_at(p, i as int);
            assert(q =~= p.remove(i as int));
            assert(keys_sorted(q)) by {
                assert forall|a: int, b: int| 0 <= a < b < q.len() implies str_less(
                    #[trigger] q[a].0,
                    #[trigger] q[b].0,
                ) by {
                    if b < i {
                        assert(q[a] == p[a] && q[b] == p[b]);
                    } else if a < i {
                        assert(q[a] == p[a] && q[b] == p[b + 1]);
                    } else {
                        assert(q[a] == p[a + 1] && q[b] == p[b + 1]);
                    }
                }
            }
            assert(pairs_map(q) =~= old_map.remove(key@)) by {
                assert forall|k: Seq<char>| #[trigger] pairs_map(q).contains_key(k)
                    == old_map.remove(key@).contains_key(k) by {
                    if has_key(q, k) {
                        let j = choose|j: int| 0 <= j < q.len() && #[trigger] q[j].0 == k;
                        if j < i {
                            assert(p[j].0 == k);
                            assert(str_less(p[j].0, p[i as int].0));
                            lemma_str_less_irreflexive(k);
                        } else {
                            assert(p[j + 1].0 == k);
                            assert(str_less(p[i as int].0, p[j + 1].0));
                            lemma_str_less_irreflexive(k);
                        }
                    }
                    if has_key(p, k) && k != key@ {
                        let j = choose|j: int| 0 <= j < p.len() && #[trigger] p[j].0 == k;
                        if j < i {
                            assert(q[j].0 == k);
                        } else {
                            assert(j != i);
                            assert(q[j - 1].0 == k);
                        }
                    }
                }
                assert forall|k: Seq<char>| #[trigger] pairs_map(q).contains_key(k) implies
                    pairs_map(q)[k] == old_map.remove(key@)[k] by {
                    let j = choose|j: int| 0 <= j < q.len() && #[trigger] q[j].0 == k;
                    lemma_map_at(q, j);
                    if j < i {
                        lemma_map_at(p, j);
                    } else {
                        lemma_map_at(p, j + 1);
                    }
                }
            }
        }
        self.entries = v;
        Some(old_entry.1)
    }

    /// The entries in ascending name order.
    pub fn entries(&self) -> (r: &Vec<(String, DependencySpec)>)
        ensures
            pairs_of(r@) == self.pairs(),
            keys_sorted(pairs_of(r@)),
            pairs_map(pairs_of(r@)) == self@,
    {
        proof {
            use_type_invariant(self);
        }
        &self.entries
    }
}

proof fn lemma_absent_pairs(p: Seq<(Seq<char>, DependencySpec)>, key: Seq<char>, i: int, found: bool)
    requires
        keys_sorted(p),
        0 <= i <= p.len(),
        forall|j: int| 0 <= j < i ==> str_less(#[trigger] p[j].0, key),
        found ==> i < p.len() && p[i].0 == key,
        !found ==> (i < p.len() ==> str_less(key, p[i].0)),
    ensures
        found == has_key(p, key),
        found == pairs_map(p).contains_key(key),
{
    if !found && has_key(p, key) {
        let j = choose|j: int| 0 <= j < p.len() && #[trigger] p[j].0 == key;
        if j <= i {
            lemma_str_less_irreflexive(key);
        } else {
            assert(str_less(p[i].0, p[j].0));
            lemma_str_less_transitive(key, p[i].0, p[j].0);
            lemma_str_less_irreflexive(key);
        }
    }
    if found {
        assert(p[i].0 == key);
    }
}

/// Adding a name that was not in the table and then removing it again
/// leaves the table as it was; removing never leaves the name behind, and
/// adding always records exactly the given spec.
pub proof fn law_insert_remove(m: Map<Seq<char>, DependencySpec>, k: Seq<char>, v: DependencySpec)
    ensures
        !m.contains_key(k) ==> m.insert(k, v).remove(k) == m,
        !m.insert(k, v).remove(k).contains_key(k),
        m.insert(k, v)[k] == v,
        forall|j: Seq<char>| j != k ==> #[trigger] m.insert(k, v).contains_key(j) == m.contains_key(j),
{
    if !m.contains_key(k) {
        assert(m.insert(k, v).remove(k) =~= m);
    }
}
} // verus!
