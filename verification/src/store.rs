//! The persistent per-key store, modelled in memory.
//!
//! One entry per key, a plain string value, absence meaning "unset".  The
//! surrounding program keeps each entry durable (one storage unit per key);
//! this module owns the mapping itself and is the ground truth the session
//! engine reads and writes.

use vstd::prelude::*;

verus! {

/// Association list with unique keys, viewed as a `Map<Seq<char>, Seq<char>>`.
pub struct KeyStore {
    entries: Vec<(String, String)>,
}

/// The mapping an entry list denotes.
pub open spec fn map_of(s: Seq<(String, String)>) -> Map<Seq<char>, Seq<char>>
    decreases s.len(),
{
    if s.len() == 0 {
        Map::empty()
    } else {
        map_of(s.drop_last()).insert(s.last().0@, s.last().1@)
    }
}

/// No two entries share a key.
pub open spec fn unique_keys(s: Seq<(String, String)>) -> bool {
    forall|i: int, j: int| 0 <= i < j < s.len() ==> s[i].0@ != s[j].0@
}

proof fn lemma_absent_key(s: Seq<(String, String)>, k: Seq<char>)
    requires
        forall|i: int| 0 <= i < s.len() ==> s[i].0@ != k,
    ensures
        !map_of(s).contains_key(k),
    decreases s.len(),
{
    if s.len() > 0 {
        lemma_absent_key(s.drop_last(), k);
    }
}

proof fn lemma_present_key(s: Seq<(String, String)>, i: int)
    requires
        unique_keys(s),
        0 <= i < s.len(),
    ensures
        map_of(s).contains_key(s[i].0@),
        map_of(s)[s[i].0@] == s[i].1@,
    decreases s.len(),
{
    if i < s.len() - 1 {
        lemma_present_key(s.drop_last(), i);
        assert(s.drop_last()[i] == s[i]);
        assert(s[i].0@ != s.last().0@);
    }
}

proof fn lemma_contained_key_has_entry(s: Seq<(String, String)>, k: Seq<char>)
    requires
        map_of(s).contains_key(k),
    ensures
        exists|i: int| 0 <= i < s.len() && #[trigger] s[i].0@ == k,
    decreases s.len(),
{
    if s.len() > 0 {
        if s.last().0@ == k {
            assert(s[s.len() - 1].0@ == k);
        } else {
            lemma_contained_key_has_entry(s.drop_last(), k);
            let w = choose|w: int| 0 <= w < s.drop_last().len() && #[trigger] s.drop_last()[w].0@ == k;
            assert(s[w].0@ == k);
        }
    }
}

proof fn lemma_remove_entry(s: Seq<(String, String)>, i: int)
    requires
        unique_keys(s),
        0 <= i < s.len(),
    ensures
        map_of(s.remove(i)) =~= map_of(s).remove(s[i].0@),
        unique_keys(s.remove(i)),
    decreases s.len(),
{
    let k = s[i].0@;
    if i == s.len() - 1 {
        assert(s.remove(i) =~= s.drop_last());
        assert(forall|j: int| 0 <= j < s.drop_last().len() ==> s.drop_last()[j].0@ != k);
        lemma_absent_key(s.drop_last(), k);
        assert(map_of(s.drop_last()).insert(k, s[i].1@).remove(k) =~= map_of(s.drop_last()));
    } else {
        let dl = s.drop_last();
        assert(unique_keys(dl));
        lemma_remove_entry(dl, i);
        assert(s.remove(i).drop_last() =~= dl.remove(i));
        assert(s.remove(i).last() == s.last());
        assert(s.last().0@ != k);
        assert(map_of(dl).remove(k).insert(s.last().0@, s.last().1@) =~= map_of(dl).insert(
            s.last().0@,
            s.last().1@,
        ).remove(k));
    }
}

impl View for KeyStore {
    type V = Map<Seq<char>, Seq<char>>;

    closed spec fn view(&self) -> Map<Seq<char>, Seq<char>> {
        map_of(self.entries@)
    }
}

impl KeyStore {
    /// All operations keep the entry keys distinct.
    pub closed spec fn wf(&self) -> bool {
        unique_keys(self.entries@)
    }

    /// An empty store.
    pub fn new() -> (s: Self)
        ensures
            s.wf(),
            s@ == Map::<Seq<char>, Seq<char>>::empty(),
    {
        KeyStore { entries: Vec::new() }
    }

    /// Index of the entry holding `key`, if one exists.
    fn find_index(&self, key: &str) -> (r: Option<usize>)
        ensures
            r matches Some(i) ==> i < self.entries@.len() && self.entries@[i as int].0@ == key@,
            r is None ==> forall|j: int|
                0 <= j < self.entries@.len() ==> self.entries@[j].0@ != key@,
    {
        let n: usize = self.entries.len();
        let mut i: usize = 0;
        while i < n
            invariant
                0 <= i <= n,
                n == self.entries@.len(),
                forall|j: int| 0 <= j < i ==> self.entries@[j].0@ != key@,
            decreases n - i,
        {
            if crate::text::str_eq(self.entries[i].0.as_str(), key) {
                return Some(i);
            }
            i = i + 1;
        }
        None
    }

    /// The value stored under `key`, if any.
    pub fn get(&self, key: &str) -> (r: Option<String>)
        requires
            self.wf(),
        ensures
            r is Some == self@.contains_key(key@),
            r matches Some(v) ==> v@ == self@[key@],
    {
        match self.find_index(key) {
            Some(i) => {
                proof {
                    lemma_present_key(self.entries@, i as int);
                }
                Some(self.entries[i].1.clone())
            },
            None => {
                proof {
                    lemma_absent_key(self.entries@, key@);
                }
                None
            },
        }
    }

    /// Stores `value` under `key`, replacing any previous value.
    pub fn put(&mut self, key: &str, value: &str)
        requires
            old(self).wf(),
        ensures
            final(self).wf(),
            final(self)@ == old(self)@.insert(key@, value@),
    {
        let ghost s0 = self.entries@;
        match self.find_index(key) {
            Some(i) => {
                proof {
                    lemma_remove_entry(s0, i as int);
                }
                self.entries.remove(i);
            },
            None => {
                proof {
                    lemma_absent_key(s0, key@);
                    assert(map_of(s0).remove(key@) =~= map_of(s0));
                }
            },
        }
        let ghost s1 = self.entries@;
        assert(map_of(s1) == map_of(s0).remove(key@));
        assert(forall|j: int| 0 <= j < s1.len() ==> #[trigger] s1[j].0@ != key@) by {
            assert(unique_keys(s0));
        }
        let pair: (String, String) = (String::from_str(key), String::from_str(value));
        self.entries.push(pair);
        proof {
            assert(self.entries@.drop_last() =~= s1);
            assert(map_of(self.entries@) == map_of(s1).insert(key@, value@));
            assert(map_of(s0).remove(key@).insert(key@, value@) =~= map_of(s0).insert(
                key@,
                value@,
            ));
            assert forall|i: int, j: int| 0 <= i < j < self.entries@.len() implies self.entries@[
                i
            ].0@ != self.entries@[j].0@ by {
                if j == self.entries@.len() - 1 {
                    assert(self.entries@[i] == s1[i]);
                }
            }
        }
    }

    /// A snapshot of every entry, for the surrounding program to mirror to
    /// durable storage.
    pub fn pairs(&self) -> (r: Vec<(String, String)>)
        requires
            self.wf(),
        ensures
            forall|i: int|
                0 <= i < r@.len() ==> self@.contains_key(#[trigger] r@[i].0@) && self@[r@[i].0@]
                    == r@[i].1@,
            forall|k: Seq<char>|
                self@.contains_key(k) ==> exists|i: int| 0 <= i < r@.len() && #[trigger] r@[i].0@
                    == k,
    {
        let n: usize = self.entries.len();
        let mut out: Vec<(String, String)> = Vec::new();
        let mut i: usize = 0;
        while i < n
            invariant
                0 <= i <= n,
                n == self.entries@.len(),
                out@.len() == i,
                self.wf(),
                forall|j: int| 0 <= j < i ==> out@[j] == self.entries@[j],
            decreases n - i,
        {
            let pair: (String, String) = (self.entries[i].0.clone(), self.entries[i].1.clone());
            out.push(pair);
            i = i + 1;
        }
        proof {
            assert forall|j: int| 0 <= j < out@.len() implies self@.contains_key(
                #[trigger] out@[j].0@,
            ) && self@[out@[j].0@] == out@[j].1@ by {
                lemma_present_key(self.entries@, j);
            }
            assert forall|k: Seq<char>| self@.contains_key(k) implies exists|i2: int|
                0 <= i2 < out@.len() && #[trigger] out@[i2].0@ == k by {
                lemma_contained_key_has_entry(self.entries@, k);
                let w = choose|w: int|
                    0 <= w < self.entries@.len() && self.entries@[w].0@ == k;
                assert(out@[w].0@ == k);
            }
        }
        out
    }

    /// Deletes the entry under `key`; deleting an absent key changes nothing.
    pub fn remove(&mut self, key: &str)
        requires
            old(self).wf(),
        ensures
            final(self).wf(),
            final(self)@ == old(self)@.remove(key@),
    {
        let ghost s0 = self.entries@;
        match self.find_index(key) {
            Some(i) => {
                proof {
                    lemma_remove_entry(s0, i as int);
                }
                self.entries.remove(i);
            },
            None => {
                proof {
                    lemma_absent_key(s0, key@);
                    assert(map_of(s0).remove(key@) =~= map_of(s0));
                }
            },
        }
    }
}

} // verus!
