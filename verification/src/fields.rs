//! A small map from text to text, kept as a list in which no key occurs
//! twice.

use vstd::prelude::*;

verus! {

/// Whether no key occurs twice among the pairs.
pub open spec fn keys_distinct(pairs: Seq<(String, String)>) -> bool {
    forall|i: int, j: int| 0 <= i < j < pairs.len() ==> pairs[i].0@ != pairs[j].0@
}

/// Whether `key` is the key of the pair at index `i`.
pub open spec fn key_at(pairs: Seq<(String, String)>, key: Seq<char>, i: int) -> bool {
    0 <= i < pairs.len() && pairs[i].0@ == key
}

/// The map that a list of pairs stands for: each key goes to the value that
/// stands beside it.
pub open spec fn map_of(pairs: Seq<(String, String)>) -> Map<Seq<char>, Seq<char>> {
    Map::new(
        |key: Seq<char>| exists|i: int| key_at(pairs, key, i),
        |key: Seq<char>| pairs[choose|i: int| key_at(pairs, key, i)].1@,
    )
}

/// The keys of a list of pairs, in order.
pub open spec fn keys_of(pairs: Seq<(String, String)>) -> Seq<Seq<char>> {
    Seq::new(pairs.len(), |i: int| pairs[i].0@)
}

/// A list of pairs in which no key occurs twice stands for a map with as
/// many keys as there are pairs.
pub proof fn lemma_one_key_per_pair(pairs: Seq<(String, String)>)
    requires
        keys_distinct(pairs),
    ensures
        map_of(pairs).dom().finite(),
        map_of(pairs).dom().len() == pairs.len(),
{
    let keys = keys_of(pairs);
    assert(keys.no_duplicates());
    assert forall|key: Seq<char>| map_of(pairs).dom().contains(key) <==> keys.to_set().contains(
        key,
    ) by {
        if map_of(pairs).dom().contains(key) {
            let i = choose|i: int| key_at(pairs, key, i);
            assert(keys[i] == key);
        }
        if keys.to_set().contains(key) {
            let i = choose|i: int| 0 <= i < keys.len() && keys[i] == key;
            assert(key_at(pairs, key, i));
        }
    }
    assert(map_of(pairs).dom() =~= keys.to_set());
    keys.unique_seq_to_set();
    vstd::seq_lib::seq_to_set_is_finite(keys);
}

/// A map from text to text.
#[derive(Debug)]
pub struct Fields {
    entries: Vec<(String, String)>,
}

impl View for Fields {
    type V = Map<Seq<char>, Seq<char>>;

    closed spec fn view(&self) -> Map<Seq<char>, Seq<char>> {
        map_of(self.entries@)
    }
}

impl Fields {
    #[verifier::type_invariant]
    spec fn well_formed(self) -> bool {
        keys_distinct(self.entries@)
    }

    /// The map without any key.
    pub fn new() -> (fields: Fields)
        ensures
            fields@ == Map::<Seq<char>, Seq<char>>::empty(),
    {
        let fields = Fields { entries: Vec::new() };
        assert(fields@ =~= Map::<Seq<char>, Seq<char>>::empty());
        fields
    }

    /// The number of keys.
    pub fn len(&self) -> (n: usize)
        ensures
            self@.dom().finite(),
            n == self@.dom().len(),
    {
        proof {
            use_type_invariant(self);
            lemma_one_key_per_pair(self.entries@);
        }
        self.entries.len()
    }

    /// The index at which `key` stands, if it does.
    fn position(&self, key: &String) -> (at: Option<usize>)
        ensures
            match at {
                Some(i) => key_at(self.entries@, key@, i as int),
                None => forall|i: int| !key_at(self.entries@, key@, i),
            },
    {
        let mut i: usize = 0;
        while i < self.entries.len()
            invariant
                i <= self.entries.len(),
                forall|k: int| 0 <= k < i ==> self.entries@[k].0@ != key@,
            decreases self.entries.len() - i,
        {
            if self.entries[i].0 == *key {
                return Some(i);
            }
            i += 1;
        }
        None
    }

    /// The value that stands under `key`.
    pub fn get(&self, key: &str) -> (value: Option<&String>)
        ensures
            match value {
                Some(v) => self@.contains_key(key@) && self@[key@] == v@,
                None => !self@.contains_key(key@),
            },
    {
        proof {
            use_type_invariant(self);
        }
        let owned = key.to_string();
        match self.position(&owned) {
            Some(i) => {
                proof {
                    let c = choose|k: int| key_at(self.entries@, key@, k);
                    assert(key_at(self.entries@, key@, i as int));
                    assert(c == i);
                }
                Some(&self.entries[i].1)
            },
            None => None,
        }
    }

    /// Puts `value` under `key`, in place of what stood there.
    pub fn insert(&mut self, key: String, value: String)
        ensures
            final(self)@ == old(self)@.insert(key@, value@),
    {
        proof {
            use_type_invariant(&*self);
        }
        let ghost before = self.entries@;
        let at = self.position(&key);
        let mut taken = Fields { entries: Vec::new() };
        std::mem::swap(self, &mut taken);
        let mut entries = taken.entries;
        assert(entries@ == before);
        match at {
            Some(i) => {
                let ghost k = key@;
                entries.set(i, (key, value));
                proof {
                    let after = entries@;
                    assert(keys_distinct(after)) by {
                        assert forall|a: int, b: int| 0 <= a < b < after.len() implies after[a].0@
                            != after[b].0@ by {
                            assert(before[a].0@ != before[b].0@);
                        }
                    }
                    assert forall|q: Seq<char>, n: int| key_at(after, q, n) <==> key_at(
                        before,
                        q,
                        n,
                    ) by {}
                    assert forall|q: Seq<char>| #[trigger]
                        map_of(before).insert(k, value@).contains_key(q) implies map_of(
                        after,
                    ).contains_key(q) && map_of(after)[q] == map_of(before).insert(k, value@)[q] by {
                        if q == k {
                            assert(key_at(after, q, i as int));
                            let c = choose|n: int| key_at(after, q, n);
                            assert(c == i);
                        } else {
                            let b = choose|n: int| key_at(before, q, n);
                            assert(key_at(after, q, b));
                            let c = choose|n: int| key_at(after, q, n);
                            assert(c == b);
                        }
                    }
                    assert(map_of(after) =~= map_of(before).insert(k, value@));
                }
            },
            None => {
                let ghost k = key@;
                entries.push((key, value));
                proof {
                    let after = entries@;
                    let last = before.len() as int;
                    assert(key_at(after, k, last));
                    assert(keys_distinct(after)) by {
                        assert forall|a: int, b: int| 0 <= a < b < after.len() implies after[a].0@
                            != after[b].0@ by {
                            if b < last {
                                assert(before[a].0@ != before[b].0@);
                            } else {
                                assert(!key_at(before, k, a));
                            }
                        }
                    }
                    assert forall|q: Seq<char>, n: int| key_at(before, q, n) implies key_at(
                        after,
                        q,
                        n,
                    ) by {}
                    assert forall|q: Seq<char>| #[trigger]
                        map_of(before).insert(k, value@).contains_key(q) implies map_of(
                        after,
                    ).contains_key(q) && map_of(after)[q] == map_of(before).insert(k, value@)[q] by {
                        if q == k {
                            let c = choose|n: int| key_at(after, q, n);
                            if c < last {
                                assert(key_at(before, k, c));
                            }
                            assert(c == last);
                        } else {
                            let b = choose|n: int| key_at(before, q, n);
                            assert(key_at(after, q, b));
                            let c = choose|n: int| key_at(after, q, n);
                            assert(c == b);
                        }
                    }
                    assert forall|q: Seq<char>| #[trigger]
                        map_of(after).contains_key(q) implies map_of(before).insert(
                        k,
                        value@,
                    ).contains_key(q) by {
                        let c = choose|n: int| key_at(after, q, n);
                        if c < last {
                            assert(key_at(before, q, c));
                        }
                    }
                    assert(map_of(after) =~= map_of(before).insert(k, value@));
                }
            },
        }
        *self = Fields { entries };
    }

    /// The pairs of the map, each key once.
    pub fn pairs(&self) -> (pairs: &Vec<(String, String)>)
        ensures
            keys_distinct(pairs@),
            map_of(pairs@) == self@,
            pairs@.len() == self@.dom().len(),
    {
        proof {
            use_type_invariant(self);
            lemma_one_key_per_pair(self.entries@);
        }
        &self.entries
    }
}

} // verus!
