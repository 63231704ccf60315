//! A small map from strings to strings that keeps its entries in order.

use vstd::prelude::*;
use crate::text::str_eq;

verus! {

pub open spec fn pairs_get(entries: Seq<(String, String)>, key: Seq<char>) -> Option<Seq<char>>
    decreases entries.len(),
{
    if entries.len() == 0 {
        None
    } else if entries[0].0@ == key {
        Some(entries[0].1@)
    } else {
        pairs_get(entries.drop_first(), key)
    }
}

/// Index of the first entry with the key.
pub open spec fn pairs_find(entries: Seq<(String, String)>, key: Seq<char>) -> Option<int>
    decreases entries.len(),
{
    if entries.len() == 0 {
        None
    } else if entries[0].0@ == key {
        Some(0)
    } else {
        match pairs_find(entries.drop_first(), key) {
            Some(i) => Some(i + 1),
            None => None,
        }
    }
}

pub proof fn lemma_pairs_find(entries: Seq<(String, String)>, key: Seq<char>)
    ensures
        pairs_find(entries, key) matches Some(i) ==> 0 <= i < entries.len() && entries[i].0@ == key
            && pairs_get(entries, key) == Some(entries[i].1@) && forall|j: int|
            0 <= j < i ==> entries[j].0@ != key,
        pairs_find(entries, key) is None ==> pairs_get(entries, key) is None && forall|j: int|
            0 <= j < entries.len() ==> entries[j].0@ != key,
    decreases entries.len(),
{
    if entries.len() > 0 && entries[0].0@ != key {
        lemma_pairs_find(entries.drop_first(), key);
        assert forall|j: int| 1 <= j < entries.len() implies entries.drop_first()[j - 1] == entries[j] by {}
    }
}

/// Lookup in entries whose keys before index `i` all differ from `key`.
pub proof fn lemma_pairs_get_update(entries: Seq<(String, String)>, key: Seq<char>, i: int, e: (String, String))
    requires
        0 <= i < entries.len(),
        forall|j: int| 0 <= j < i ==> entries[j].0@ != key,
        entries[i].0@ == key,
        e.0@ == key,
    ensures
        pairs_get(entries.update(i, e), key) == Some(e.1@),
        forall|k: Seq<char>| k != key ==> pairs_get(entries.update(i, e), k) == pairs_get(entries, k),
    decreases entries.len(),
{
    if i > 0 {
        assert(entries.update(i, e).drop_first() =~= entries.drop_first().update(i - 1, e));
        lemma_pairs_get_update(entries.drop_first(), key, i - 1, e);
        assert forall|k: Seq<char>| k != key implies pairs_get(entries.update(i, e), k) == pairs_get(entries, k) by {
            assert(entries.update(i, e)[0] == entries[0]);
            assert(entries.update(i, e).drop_first() =~= entries.drop_first().update(i - 1, e));
            assert(pairs_get(entries.drop_first().update(i - 1, e), k) == pairs_get(entries.drop_first(), k));
        }
    } else {
        assert(entries.update(i, e).drop_first() =~= entries.drop_first());
        assert forall|k: Seq<char>| k != key implies pairs_get(entries.update(i, e), k) == pairs_get(entries, k) by {
            assert(entries.update(i, e)[0] == e);
        }
    }
}

pub proof fn lemma_pairs_get_push(entries: Seq<(String, String)>, key: Seq<char>, e: (String, String))
    requires
        forall|j: int| 0 <= j < entries.len() ==> entries[j].0@ != key,
        e.0@ == key,
    ensures
        pairs_get(entries.push(e), key) == Some(e.1@),
        forall|k: Seq<char>| k != key ==> pairs_get(entries.push(e), k) == pairs_get(entries, k),
    decreases entries.len(),
{
    if entries.len() > 0 {
        assert(entries.push(e).drop_first() =~= entries.drop_first().push(e));
        lemma_pairs_get_push(entries.drop_first(), key, e);
        assert forall|k: Seq<char>| k != key implies pairs_get(entries.push(e), k) == pairs_get(entries, k) by {
            assert(entries.push(e)[0] == entries[0]);
            assert(entries.push(e).drop_first() =~= entries.drop_first().push(e));
            assert(pairs_get(entries.drop_first().push(e), k) == pairs_get(entries.drop_first(), k));
        }
    } else {
        assert(entries.push(e).drop_first() =~= entries);
    }
}

/// Ordered map from strings to strings; inserting a present key replaces its value in place.
#[derive(Clone, Debug)]
pub struct StrMap {
    pub entries: Vec<(String, String)>,
}

impl StrMap {
    pub open spec fn spec_get(&self, key: Seq<char>) -> Option<Seq<char>> {
        pairs_get(self.entries@, key)
    }

    pub fn new() -> (m: StrMap)
        ensures
            m.entries@.len() == 0,
            forall|k: Seq<char>| m.spec_get(k) is None,
    {
        StrMap { entries: Vec::new() }
    }

    pub fn is_empty(&self) -> (r: bool)
        ensures
            r == (self.entries@.len() == 0),
    {
        self.entries.len() == 0
    }

    pub fn len(&self) -> (r: usize)
        ensures
            r == self.entries@.len(),
    {
        self.entries.len()
    }

    fn find(&self, key: &str) -> (r: Option<usize>)
        ensures
            r matches Some(i) ==> pairs_find(self.entries@, key@) == Some(i as int),
            r is None ==> pairs_find(self.entries@, key@) is None,
    {
        let mut i: usize = 0;
        while i < self.entries.len()
            invariant
                i <= self.entries@.len(),
                forall|j: int| 0 <= j < i ==> self.entries@[j].0@ != key@,
            decreases self.entries.len() - i,
        {
            if str_eq(self.entries[i].0.as_str(), key) {
                proof {
                    lemma_pairs_find(self.entries@, key@);
                    if pairs_find(self.entries@, key@) is None {
                        assert(self.entries@[i as int].0@ == key@);
                    }
                }
                return Some(i);
            }
            i = i + 1;
        }
        proof {
            lemma_pairs_find(self.entries@, key@);
        }
        None
    }

    /// The value of the key (`map.get(key)`).
    pub fn get(&self, key: &str) -> (r: Option<&str>)
        ensures
            match r {
                Some(v) => self.spec_get(key@) == Some(v@),
                None => self.spec_get(key@) is None,
            },
    {
        proof {
            lemma_pairs_find(self.entries@, key@);
        }
        match self.find(key) {
            Some(i) => Some(self.entries[i].1.as_str()),
            None => None,
        }
    }

    /// Sets the value of the key (`map.insert(key, value)`).
    pub fn insert(&mut self, key: String, value: String)
        ensures
            final(self).spec_get(key@) == Some(value@),
            forall|k: Seq<char>| k != key@ ==> final(self).spec_get(k) == old(self).spec_get(k),
    {
        proof {
            lemma_pairs_find(self.entries@, key@);
        }
        let ghost e = (key, value);
        match self.find(key.as_str()) {
            Some(i) => {
                proof {
                    lemma_pairs_get_update(self.entries@, key@, i as int, e);
                }
                self.entries[i] = (key, value);
            },
            None => {
                proof {
                    lemma_pairs_get_push(self.entries@, key@, e);
                }
                self.entries.push((key, value));
            },
        }
    }

    /// Removes every entry with the key (`map.remove(key)`).
    pub fn remove(&mut self, key: &str)
        ensures
            final(self).spec_get(key@) is None,
            forall|k: Seq<char>| k != key@ ==> final(self).spec_get(k) == old(self).spec_get(k),
    {
        let mut kept: Vec<(String, String)> = Vec::new();
        let n: usize = self.entries.len();
        let mut i: usize = 0;
        while i < n
            invariant
                n == self.entries@.len(),
                i <= n,
                forall|j: int| 0 <= j < kept@.len() ==> kept@[j].0@ != key@,
                forall|k: Seq<char>|
                    k != key@ ==> pairs_get(kept@, k) == pairs_get(
                        self.entries@.subrange(0, i as int),
                        k,
                    ),
            decreases n - i,
        {
            let ghost prefix = self.entries@.subrange(0, i as int);
            let ghost e = self.entries@[i as int];
            assert(self.entries@.subrange(0, i + 1) =~= prefix.push(e));
            proof {
                assert forall|k: Seq<char>| true implies pairs_get(prefix.push(e), k) == (
                if pairs_get(prefix, k) is Some { pairs_get(prefix, k) }
                else if e.0@ == k { Some(e.1@) } else { None }) by {
                    lemma_pairs_get_push_any(prefix, e, k);
                }
            }
            if !str_eq(self.entries[i].0.as_str(), key) {
                let ghost old_kept = kept@;
                kept.push((self.entries[i].0.clone(), self.entries[i].1.clone()));
                proof {
                    assert forall|k: Seq<char>| true implies pairs_get(old_kept.push(e), k) == (
                    if pairs_get(old_kept, k) is Some { pairs_get(old_kept, k) }
                    else if e.0@ == k { Some(e.1@) } else { None }) by {
                        lemma_pairs_get_push_any(old_kept, e, k);
                    }
                    assert(kept@ =~= old_kept.push(e));
                }
            }
            i = i + 1;
        }
        proof {
            assert(self.entries@.subrange(0, n as int) =~= self.entries@);
            lemma_pairs_find(kept@, key@);
        }
        self.entries = kept;
    }
}

pub proof fn lemma_pairs_get_push_any(entries: Seq<(String, String)>, e: (String, String), k: Seq<char>)
    ensures
        pairs_get(entries.push(e), k) == (if pairs_get(entries, k) is Some {
            pairs_get(entries, k)
        } else if e.0@ == k {
            Some(e.1@)
        } else {
            None
        }),
    decreases entries.len(),
{
    if entries.len() > 0 {
        assert(entries.push(e).drop_first() =~= entries.drop_first().push(e));
        lemma_pairs_get_push_any(entries.drop_first(), e, k);
    } else {
        assert(entries.push(e).drop_first() =~= entries);
    }
}

} // verus!
