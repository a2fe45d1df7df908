//! The parameters of a repository update, as a map from names to values.
use vstd::prelude::*;

verus! {

/// Entries viewed as pairs of character sequences.
pub open spec fn entry_views(entries: Seq<(String, String)>) -> Seq<(Seq<char>, Seq<char>)> {
    entries.map_values(|e: (String, String)| (e.0@, e.1@))
}

/// Some entry has key `k`.
pub open spec fn has_key(p: Seq<(Seq<char>, Seq<char>)>, k: Seq<char>) -> bool {
    exists|i: int| 0 <= i < p.len() && (#[trigger] p[i]).0 == k
}

/// No key occurs twice.
pub open spec fn distinct_keys(p: Seq<(Seq<char>, Seq<char>)>) -> bool {
    forall|i: int, j: int| 0 <= i < p.len() && 0 <= j < p.len() && i != j ==> (#[trigger] p[i]).0 != (#[trigger] p[j]).0
}

/// The value stored under `k`.
pub open spec fn value_of(p: Seq<(Seq<char>, Seq<char>)>, k: Seq<char>) -> Seq<char> {
    p[choose|i: int| 0 <= i < p.len() && (#[trigger] p[i]).0 == k].1
}

/// The map that a list of distinct keys denotes.
pub open spec fn as_map(p: Seq<(Seq<char>, Seq<char>)>) -> Map<Seq<char>, Seq<char>> {
    Map::new(|k: Seq<char>| has_key(p, k), |k: Seq<char>| value_of(p, k))
}

/// The value under a key is the one of the entry that holds it.
pub proof fn lemma_value_at(p: Seq<(Seq<char>, Seq<char>)>, i: int)
    requires
        distinct_keys(p),
        0 <= i < p.len(),
    ensures
        has_key(p, p[i].0),
        value_of(p, p[i].0) == p[i].1,
{
    let k = p[i].0;
    assert(0 <= i < p.len() && p[i].0 == k);
    let j = choose|j: int| 0 <= j < p.len() && (#[trigger] p[j]).0 == k;
    if j != i {
        assert(p[i].0 != p[j].0);
    }
}

/// A map from names to values, each name at most once.
pub struct UpdateEnv {
    entries: Vec<(String, String)>,
}

impl View for UpdateEnv {
    type V = Map<Seq<char>, Seq<char>>;

    closed spec fn view(&self) -> Map<Seq<char>, Seq<char>> {
        as_map(entry_views(self.entries@))
    }
}

impl UpdateEnv {
    #[verifier::type_invariant]
    spec fn keys_distinct(self) -> bool {
        distinct_keys(entry_views(self.entries@))
    }

    /// The empty map.
    pub fn new() -> (r: UpdateEnv)
        ensures
            r@ == Map::<Seq<char>, Seq<char>>::empty(),
    {
        let r = UpdateEnv { entries: Vec::new() };
        assert(r@ =~= Map::<Seq<char>, Seq<char>>::empty());
        r
    }

    /// The position of the entry with key `k`.
    fn position(&self, k: &str) -> (r: Option<usize>)
        ensures
            match r {
                Some(i) => i < self.entries@.len() && self.entries@[i as int].0@ == k@,
                None => !has_key(entry_views(self.entries@), k@),
            },
    {
        let ghost p = entry_views(self.entries@);
        let key = String::from_str(k);
        let mut i: usize = 0;
        while i < self.entries.len()
            invariant
                i <= self.entries@.len(),
                p == entry_views(self.entries@),
                key@ == k@,
                forall|j: int| 0 <= j < i ==> p[j].0 != k@,
            decreases self.entries.len() - i,
        {
            if self.entries[i].0 == key {
                return Some(i);
            }
            i += 1;
        }
        assert(!has_key(p, k@)) by {
            if has_key(p, k@) {
                let j = choose|j: int| 0 <= j < p.len() && (#[trigger] p[j]).0 == k@;
                assert(p[j].0 != k@);
            }
        }
        None
    }

    /// The value under `k`, if there is one (`HashMap::get`).
    pub fn get(&self, k: &str) -> (r: Option<&String>)
        ensures
            match r {
                Some(v) => self@.contains_key(k@) && self@[k@] == v@,
                None => !self@.contains_key(k@),
            },
    {
        proof {
            use_type_invariant(self);
        }
        match self.position(k) {
            Some(i) => {
                proof {
                    lemma_value_at(entry_views(self.entries@), i as int);
                }
                Some(&self.entries[i].1)
            },
            None => None,
        }
    }

    /// Stores `v` under `k`, in place of what was there (`HashMap::insert`).
    pub fn insert(&mut self, k: String, v: String)
        ensures
            final(self)@ == old(self)@.insert(k@, v@),
    {
        proof {
            use_type_invariant(&*self);
        }
        let ghost p = entry_views(self.entries@);
        let ghost kv = k@;
        let ghost vv = v@;
        match self.position(k.as_str()) {
            Some(i) => {
                let mut entries: Vec<(String, String)> = Vec::new();
                std::mem::swap(&mut entries, &mut self.entries);
                entries.set(i, (k, v));
                let ghost q = entry_views(entries@);
                assert(q =~= p.update(i as int, (kv, vv)));
                assert(distinct_keys(q)) by {
                    assert forall|a: int, b: int|
                        0 <= a < q.len() && 0 <= b < q.len() && a != b implies (#[trigger] q[a]).0
                        != (#[trigger] q[b]).0 by {
                        if a != i && b != i {
                            assert(q[a] == p[a] && q[b] == p[b]);
                        } else if a == i {
                            assert(p[a].0 != p[b].0);
                        } else {
                            assert(p[a].0 != p[b].0);
                        }
                    }
                }
                assert(as_map(q) =~= as_map(p).insert(kv, vv)) by {
                    lemma_value_at(q, i as int);
                    assert forall|key: Seq<char>| #[trigger] has_key(q, key) == (has_key(p, key) || key == kv) by {
                        if has_key(p, key) {
                            let j = choose|j: int| 0 <= j < p.len() && (#[trigger] p[j]).0 == key;
                            if j != i {
                                assert(q[j].0 == key);
                            }
                        }
                        if has_key(q, key) {
                            let j = choose|j: int| 0 <= j < q.len() && (#[trigger] q[j]).0 == key;
                            if j != i {
                                assert(p[j].0 == key);
                            }
                        }
                    }
                    assert forall|key: Seq<char>| has_key(q, key) && key != kv implies #[trigger] value_of(q, key) == value_of(p, key) by {
                        let j = choose|j: int| 0 <= j < q.len() && (#[trigger] q[j]).0 == key;
                        assert(j != i);
                        lemma_value_at(q, j);
                        lemma_value_at(p, j);
                    }
                }
                self.entries = entries;
            },
            None => {
                let mut entries: Vec<(String, String)> = Vec::new();
                std::mem::swap(&mut entries, &mut self.entries);
                entries.push((k, v));
                let ghost q = entry_views(entries@);
                assert(q =~= p.push((kv, vv)));
                assert(distinct_keys(q)) by {
                    assert forall|a: int, b: int|
                        0 <= a < q.len() && 0 <= b < q.len() && a != b implies (#[trigger] q[a]).0
                        != (#[trigger] q[b]).0 by {
                        if a < p.len() && b < p.len() {
                            assert(q[a] == p[a] && q[b] == p[b]);
                        } else if a == p.len() {
                            assert(q[b] == p[b]);
                        } else {
                            assert(q[a] == p[a]);
                        }
                    }
                }
                assert(as_map(q) =~= as_map(p).insert(kv, vv)) by {
                    lemma_value_at(q, p.len() as int);
                    assert forall|key: Seq<char>| #[trigger] has_key(q, key) == (has_key(p, key) || key == kv) by {
                        if has_key(p, key) {
                            let j = choose|j: int| 0 <= j < p.len() && (#[trigger] p[j]).0 == key;
                            assert(q[j].0 == key);
                        }
                        if has_key(q, key) {
                            let j = choose|j: int| 0 <= j < q.len() && (#[trigger] q[j]).0 == key;
                            if j != p.len() {
                                assert(p[j].0 == key);
                            }
                        }
                    }
                    assert forall|key: Seq<char>| has_key(q, key) && key != kv implies #[trigger] value_of(q, key) == value_of(p, key) by {
                        let j = choose|j: int| 0 <= j < q.len() && (#[trigger] q[j]).0 == key;
                        assert(j != p.len());
                        lemma_value_at(q, j);
                        lemma_value_at(p, j);
                    }
                }
                self.entries = entries;
            },
        }
    }
}

} // verus!
