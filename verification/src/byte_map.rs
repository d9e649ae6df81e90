use vstd::prelude::*;

use crate::address::{bytes_eq, copy_bytes};

verus! {

/// Whether no two entries share a key.
pub open spec fn keys_distinct(s: Seq<(Vec<u8>, Vec<u8>)>) -> bool {
    forall|i: int, j: int|
        0 <= i < s.len() && 0 <= j < s.len() && i != j ==> #[trigger] s[i].0@ != #[trigger] s[j].0@
}

/// Whether some entry has key `k`.
pub open spec fn has_key(s: Seq<(Vec<u8>, Vec<u8>)>, k: Seq<u8>) -> bool {
    exists|i: int| 0 <= i < s.len() && #[trigger] s[i].0@ == k
}

/// The value of the entry with key `k` (meaningful where `has_key` holds).
pub open spec fn value_of(s: Seq<(Vec<u8>, Vec<u8>)>, k: Seq<u8>) -> Seq<u8> {
    s[choose|i: int| 0 <= i < s.len() && #[trigger] s[i].0@ == k].1@
}

/// The map that a list of entries with distinct keys stands for.
pub open spec fn entries_map(s: Seq<(Vec<u8>, Vec<u8>)>) -> Map<Seq<u8>, Seq<u8>> {
    Map::new(|k: Seq<u8>| has_key(s, k), |k: Seq<u8>| value_of(s, k))
}

/// A finite map from byte strings to byte strings (keyed storage slots such
/// as offering metadata and prices).
pub struct ByteMap {
    entries: Vec<(Vec<u8>, Vec<u8>)>,
}

impl View for ByteMap {
    type V = Map<Seq<u8>, Seq<u8>>;

    closed spec fn view(&self) -> Map<Seq<u8>, Seq<u8>> {
        entries_map(self.entries@)
    }
}

impl ByteMap {
    #[verifier::type_invariant]
    closed spec fn inv(&self) -> bool {
        keys_distinct(self.entries@)
    }

    /// The empty map.
    pub fn new() -> (r: ByteMap)
        ensures
            r@ == Map::<Seq<u8>, Seq<u8>>::empty(),
    {
        let r = ByteMap { entries: Vec::new() };
        assert(r@ =~= Map::<Seq<u8>, Seq<u8>>::empty());
        r
    }

    /// Index of the entry with key `key`, if any.
    fn find(&self, key: &Vec<u8>) -> (r: Option<usize>)
        ensures
            match r {
                Some(i) => i < self.entries@.len() && self.entries@[i as int].0@ == key@,
                None => !has_key(self.entries@, key@),
            },
    {
        let mut i: usize = 0;
        while i < self.entries.len()
            invariant
                i <= self.entries@.len(),
                forall|j: int| 0 <= j < i ==> self.entries@[j].0@ != key@,
            decreases self.entries@.len() - i,
        {
            if bytes_eq(&self.entries[i].0, key) {
                return Some(i);
            }
            i = i + 1;
        }
        None
    }

    /// The value stored under `key`, if any.
    pub fn get(&self, key: &Vec<u8>) -> (r: Option<Vec<u8>>)
        ensures
            match r {
                Some(v) => self@.contains_key(key@) && v@ == self@[key@],
                None => !self@.contains_key(key@),
            },
    {
        proof {
            use_type_invariant(self);
        }
        match self.find(key) {
            Some(i) => {
                let v = copy_bytes(&self.entries[i].1);
                proof {
                    let s = self.entries@;
                    let c = choose|j: int| 0 <= j < s.len() && #[trigger] s[j].0@ == key@;
                    assert(s[i as int].0@ == key@);
                    assert(c == i);
                }
                Some(v)
            },
            None => None,
        }
    }

    /// Store `value` under `key`, replacing any earlier value.
    pub fn insert(&mut self, key: Vec<u8>, value: Vec<u8>)
        ensures
            final(self)@ == old(self)@.insert(key@, value@),
    {
        proof {
            use_type_invariant(&*self);
        }
        let ghost k = key@;
        let ghost vv = value@;
        let ghost s0 = self.entries@;
        match self.find(&key) {
            Some(i) => {
                let mut entries: Vec<(Vec<u8>, Vec<u8>)> = Vec::new();
                std::mem::swap(&mut entries, &mut self.entries);
                entries.set(i, (key, value));
                let ghost s1 = entries@;
                assert(keys_distinct(s1));
                self.entries = entries;
                proof {
                    assert forall|x: Seq<u8>| #[trigger] has_key(s1, x) == (x == k || has_key(s0, x)) by {
                        if has_key(s0, x) {
                            let j = choose|j: int| 0 <= j < s0.len() && #[trigger] s0[j].0@ == x;
                            if j != i {
                                assert(s1[j].0@ == x);
                            } else {
                                assert(s1[i as int].0@ == x);
                            }
                        }
                        if x == k {
                            assert(s1[i as int].0@ == x);
                        }
                        if has_key(s1, x) {
                            let j = choose|j: int| 0 <= j < s1.len() && #[trigger] s1[j].0@ == x;
                            if j != i {
                                assert(s0[j].0@ == x);
                            }
                        }
                    }
                    assert forall|x: Seq<u8>| #[trigger] has_key(s1, x) implies value_of(s1, x) == (if x == k {
                        vv
                    } else {
                        value_of(s0, x)
                    }) by {
                        let j = choose|j: int| 0 <= j < s1.len() && #[trigger] s1[j].0@ == x;
                        if x == k {
                            assert(j == i);
                        } else {
                            assert(j != i);
                            assert(s0[j].0@ == x);
                            let j0 = choose|j0: int| 0 <= j0 < s0.len() && #[trigger] s0[j0].0@ == x;
                            assert(j0 == j);
                        }
                    }
                    assert(self@ =~= old(self)@.insert(k, vv));
                }
            },
            None => {
                let mut entries: Vec<(Vec<u8>, Vec<u8>)> = Vec::new();
                std::mem::swap(&mut entries, &mut self.entries);
                entries.push((key, value));
                self.entries = entries;
                proof {
                    let s1 = self.entries@;
                    assert(s1.len() == s0.len() + 1);
                    assert forall|x: Seq<u8>| #[trigger] has_key(s1, x) == (x == k || has_key(s0, x)) by {
                        if has_key(s0, x) {
                            let j = choose|j: int| 0 <= j < s0.len() && #[trigger] s0[j].0@ == x;
                            assert(s1[j].0@ == x);
                        }
                        if x == k {
                            assert(s1[s0.len() as int].0@ == x);
                        }
                        if has_key(s1, x) {
                            let j = choose|j: int| 0 <= j < s1.len() && #[trigger] s1[j].0@ == x;
                            if j < s0.len() {
                                assert(s0[j].0@ == x);
                            }
                        }
                    }
                    assert forall|x: Seq<u8>| #[trigger] has_key(s1, x) implies value_of(s1, x) == (if x == k {
                        vv
                    } else {
                        value_of(s0, x)
                    }) by {
                        let j = choose|j: int| 0 <= j < s1.len() && #[trigger] s1[j].0@ == x;
                        if x == k {
                            assert(j == s0.len());
                        } else {
                            assert(j < s0.len());
                            assert(s0[j].0@ == x);
                            let j0 = choose|j0: int| 0 <= j0 < s0.len() && #[trigger] s0[j0].0@ == x;
                            assert(j0 == j);
                        }
                    }
                    assert(self@ =~= old(self)@.insert(k, vv));
                }
            },
        }
    }
}

} // verus!
