//! A map keyed by strings, kept as the list of its insertions: a key maps
//! to the value of its latest insertion, as with `HashMap::insert`.

use vstd::prelude::*;
use vstd::string::StringExecFns;

verus! {

/// The index of the latest entry of `s` whose key is `k`.
pub open spec fn last_index<V>(s: Seq<(String, V)>, k: Seq<char>) -> Option<int>
    decreases s.len(),
{
    if s.len() == 0 {
        None
    } else if s.last().0@ == k {
        Some(s.len() - 1)
    } else {
        last_index(s.drop_last(), k)
    }
}

pub proof fn lemma_last_index_range<V>(s: Seq<(String, V)>, k: Seq<char>)
    ensures
        last_index(s, k) matches Some(i) ==> 0 <= i < s.len() && s[i].0@ == k && forall|j: int|
            i < j < s.len() ==> #[trigger] s[j].0@ != k,
        last_index(s, k) is None ==> forall|j: int| 0 <= j < s.len() ==> #[trigger] s[j].0@ != k,
    decreases s.len(),
{
    if s.len() > 0 {
        let t = s.drop_last();
        lemma_last_index_range(t, k);
        assert forall|j: int| 0 <= j < s.len() - 1 implies #[trigger] s[j] == t[j] by {}
        if s.last().0@ != k {
            assert(last_index(s, k) == last_index(t, k));
            if let Some(i) = last_index(t, k) {
                assert forall|j: int| i < j < s.len() implies #[trigger] s[j].0@ != k by {
                    if j < s.len() - 1 {
                        assert(s[j] == t[j]);
                    }
                }
            } else {
                assert forall|j: int| 0 <= j < s.len() implies #[trigger] s[j].0@ != k by {
                    if j < s.len() - 1 {
                        assert(s[j] == t[j]);
                    }
                }
            }
        }
    }
}

/// The value of `k` in the insertions `s`.
pub open spec fn lookup<V>(s: Seq<(String, V)>, k: Seq<char>) -> Option<V> {
    match last_index(s, k) {
        Some(i) => Some(s[i].1),
        None => None,
    }
}

/// String-keyed map; `entries` are the insertions in order.
pub struct StrMap<V> {
    pub entries: Vec<(String, V)>,
}

impl<V> StrMap<V> {
    /// The index of the entry that holds the value of `k`.
    pub open spec fn index_of(&self, k: Seq<char>) -> Option<int> {
        last_index(self.entries@, k)
    }

    /// The value of `k`.
    pub open spec fn spec_get(&self, k: Seq<char>) -> Option<V> {
        lookup(self.entries@, k)
    }

    /// The empty map.
    pub fn new() -> (r: StrMap<V>)
        ensures
            r.entries@.len() == 0,
            forall|k: Seq<char>| #[trigger] r.spec_get(k) is None,
    {
        StrMap { entries: Vec::new() }
    }

    /// Maps `k` to `v`, replacing any earlier value of `k`.
    pub fn insert(&mut self, k: String, v: V)
        ensures
            final(self).entries@ == old(self).entries@.push((k, v)),
            final(self).spec_get(k@) == Some(v),
            forall|k2: Seq<char>| k2 != k@ ==> #[trigger] final(self).spec_get(k2) == old(self).spec_get(k2),
    {
        let ghost old_entries = self.entries@;
        self.entries.push((k, v));
        proof {
            assert(self.entries@.drop_last() =~= old_entries);
            assert forall|k2: Seq<char>| k2 != k@ implies #[trigger] self.spec_get(k2) == old(self).spec_get(k2) by {
                lemma_last_index_range(old_entries, k2);
                assert(last_index(self.entries@, k2) == last_index(old_entries, k2));
                if let Some(i) = last_index(old_entries, k2) {
                    assert(self.entries@[i] == old_entries[i]);
                }
            }
        }
    }

    /// Finds the entry that holds the value of `k`.
    pub fn find(&self, k: &str) -> (r: Option<usize>)
        ensures
            r matches Some(i) ==> self.index_of(k@) == Some(i as int) && i < self.entries@.len(),
            r is None ==> self.index_of(k@) is None,
    {
        let key = String::from_str(k);
        let mut i: usize = self.entries.len();
        assert(self.entries@.take(i as int) =~= self.entries@);
        while i > 0
            invariant
                i <= self.entries@.len(),
                key@ == k@,
                self.index_of(k@) == last_index(self.entries@.take(i as int), k@),
            decreases i,
        {
            let ghost t = self.entries@.take(i as int);
            assert(t.drop_last() =~= self.entries@.take(i - 1));
            assert(t.last() == self.entries@[i - 1]);
            if self.entries[i - 1].0 == key {
                return Some(i - 1);
            }
            i = i - 1;
        }
        None
    }

    /// The value of `k`, if any.
    pub fn get(&self, k: &str) -> (r: Option<&V>)
        ensures
            r matches Some(v) ==> self.spec_get(k@) == Some(*v),
            r is None ==> self.spec_get(k@) is None,
    {
        match self.find(k) {
            Some(i) => Some(&self.entries[i].1),
            None => None,
        }
    }

    /// The stored key and the value of `k`, if any.
    pub fn get_key_value(&self, k: &str) -> (r: Option<(&String, &V)>)
        ensures
            r matches Some((kk, v)) ==> self.spec_get(k@) == Some(*v) && kk@ == k@,
            r is None ==> self.spec_get(k@) is None,
    {
        match self.find(k) {
            Some(i) => {
                proof {
                    lemma_last_index_range(self.entries@, k@);
                }
                Some((&self.entries[i].0, &self.entries[i].1))
            },
            None => None,
        }
    }

    /// Whether `k` has a value.
    pub fn contains_key(&self, k: &str) -> (r: bool)
        ensures
            r == self.spec_get(k@) is Some,
    {
        self.find(k).is_some()
    }
}

} // verus!
