//! A small map keyed by repository full name, kept as a list of entries with
//! distinct keys.
use vstd::prelude::*;

use crate::ids::RepoFullName;
use crate::text::str_eq;

verus! {

/// The value of the first entry with key `k`.
pub open spec fn lookup<V>(s: Seq<(RepoFullName, V)>, k: Seq<char>) -> Option<V>
    decreases s.len(),
{
    if s.len() == 0 {
        None
    } else if s[0].0@ == k {
        Some(s[0].1)
    } else {
        lookup(s.drop_first(), k)
    }
}

/// No two entries share a key.
pub open spec fn distinct_keys<V>(s: Seq<(RepoFullName, V)>) -> bool {
    forall|i: int, j: int| 0 <= i < j < s.len() ==> (#[trigger] s[i]).0@ != (#[trigger] s[j]).0@
}

proof fn lemma_lookup_at<V>(s: Seq<(RepoFullName, V)>, k: Seq<char>, i: int)
    requires
        0 <= i <= s.len(),
        forall|j: int| 0 <= j < i ==> (#[trigger] s[j]).0@ != k,
        i < s.len() ==> s[i].0@ == k,
    ensures
        lookup(s, k) == if i < s.len() {
            Some(s[i].1)
        } else {
            None::<V>
        },
    decreases s.len(),
{
    if s.len() > 0 && i > 0 {
        assert forall|j: int| 0 <= j < i - 1 implies (#[trigger] s.drop_first()[j]).0@ != k by {
            assert(s.drop_first()[j] == s[j + 1]);
        }
        lemma_lookup_at(s.drop_first(), k, i - 1);
    }
}

proof fn lemma_lookup_absent<V>(s: Seq<(RepoFullName, V)>, k: Seq<char>)
    requires
        forall|j: int| 0 <= j < s.len() ==> (#[trigger] s[j]).0@ != k,
    ensures
        lookup(s, k) is None,
{
    lemma_lookup_at(s, k, s.len() as int);
}

proof fn lemma_lookup_found<V>(s: Seq<(RepoFullName, V)>, i: int)
    requires
        distinct_keys(s),
        0 <= i < s.len(),
    ensures
        lookup(s, s[i].0@) == Some(s[i].1),
{
    assert forall|j: int| 0 <= j < i implies (#[trigger] s[j]).0@ != s[i].0@ by {}
    lemma_lookup_at(s, s[i].0@, i);
}

/// `lookup` either finds the key at some index, or no entry has it.
proof fn lemma_lookup_cases<V>(s: Seq<(RepoFullName, V)>, k: Seq<char>)
    requires
        distinct_keys(s),
    ensures
        lookup(s, k) is None <==> forall|j: int| 0 <= j < s.len() ==> (#[trigger] s[j]).0@ != k,
        lookup(s, k) matches Some(v) ==> exists|j: int|
            0 <= j < s.len() && (#[trigger] s[j]).0@ == k && s[j].1 == v,
{
    if exists|j: int| 0 <= j < s.len() && (#[trigger] s[j]).0@ == k {
        let j = choose|j: int| 0 <= j < s.len() && (#[trigger] s[j]).0@ == k;
        lemma_lookup_found(s, j);
    } else {
        lemma_lookup_absent(s, k);
    }
}

/// A map from repository full names to values.
#[derive(Debug)]
pub struct RepoMap<V> {
    entries: Vec<(RepoFullName, V)>,
}

impl<V> RepoMap<V> {
    pub closed spec fn entries(&self) -> Seq<(RepoFullName, V)> {
        self.entries@
    }

    /// Keys are distinct.
    #[verifier::type_invariant]
    spec fn inv(&self) -> bool {
        distinct_keys(self.entries@)
    }

    /// The value stored under the key with view `k`.
    pub closed spec fn get_spec(&self, k: Seq<char>) -> Option<V> {
        lookup(self.entries@, k)
    }

    /// How many keys are stored.
    pub closed spec fn size(&self) -> nat {
        self.entries@.len()
    }

    pub fn new() -> (r: Self)
        ensures
            r.size() == 0,
            forall|k: Seq<char>| r.get_spec(k) is None,
    {
        RepoMap { entries: Vec::new() }
    }

    fn find(&self, key: &RepoFullName) -> (r: usize)
        ensures
            r <= self.entries@.len(),
            forall|j: int| 0 <= j < r ==> (#[trigger] self.entries@[j]).0@ != key@,
            r < self.entries@.len() ==> self.entries@[r as int].0@ == key@,
    {
        let mut i: usize = 0;
        while i < self.entries.len() && !str_eq(self.entries[i].0.as_str(), key.as_str())
            invariant
                i <= self.entries@.len(),
                forall|j: int| 0 <= j < i ==> (#[trigger] self.entries@[j]).0@ != key@,
            decreases self.entries@.len() - i,
        {
            i = i + 1;
        }
        i
    }

    pub fn get(&self, key: &RepoFullName) -> (r: Option<&V>)
        ensures
            match self.get_spec(key@) {
                Some(v) => r == Some(&v),
                None => r is None,
            },
    {
        let i = self.find(key);
        proof {
            lemma_lookup_at(self.entries@, key@, i as int);
        }
        if i < self.entries.len() {
            Some(&self.entries[i].1)
        } else {
            None
        }
    }

    pub fn contains_key(&self, key: &RepoFullName) -> (r: bool)
        ensures
            r == self.get_spec(key@) is Some,
    {
        let i = self.find(key);
        proof {
            lemma_lookup_at(self.entries@, key@, i as int);
        }
        i < self.entries.len()
    }

    pub fn len(&self) -> (r: usize)
        ensures
            r == self.size(),
    {
        self.entries.len()
    }

    /// The `i`-th stored key and its value; every key is the one of exactly
    /// one position below `len()`.
    pub fn entry_at(&self, i: usize) -> (r: (&RepoFullName, &V))
        requires
            i < self.size(),
        ensures
            *r.0 == self.entries()[i as int].0,
            *r.1 == self.entries()[i as int].1,
            self.get_spec(r.0@) == Some(*r.1),
    {
        proof {
            use_type_invariant(self);
            lemma_lookup_found(self.entries@, i as int);
        }
        (&self.entries[i].0, &self.entries[i].1)
    }

    /// Store `value` under `key`, replacing what was there.
    pub fn insert(&mut self, key: RepoFullName, value: V)
        ensures
            final(self).get_spec(key@) == Some(value),
            forall|k: Seq<char>| k != key@ ==> final(self).get_spec(k) == old(self).get_spec(k),
            final(self).size() == if old(self).get_spec(key@) is Some {
                old(self).size()
            } else {
                old(self).size() + 1
            },
    {
        proof {
            use_type_invariant(&*self);
        }
        let i = self.find(&key);
        proof {
            lemma_lookup_at(self.entries@, key@, i as int);
        }
        let ghost old_entries = self.entries@;
        let ghost kv = key@;
        let mut entries: Vec<(RepoFullName, V)> = Vec::new();
        std::mem::swap(&mut entries, &mut self.entries);
        if i < entries.len() {
            entries.set(i, (key, value));
            proof {
                let s = entries@;
                assert(distinct_keys(s)) by {
                    assert forall|a: int, b: int| 0 <= a < b < s.len() implies (#[trigger] s[a]).0@
                        != (#[trigger] s[b]).0@ by {
                        assert(old_entries[a].0@ != old_entries[b].0@);
                    }
                }
                lemma_lookup_found(s, i as int);
                assert forall|k: Seq<char>| k != kv implies lookup(s, k) == lookup(
                    old_entries,
                    k,
                ) by {
                    lemma_lookup_cases(s, k);
                    lemma_lookup_cases(old_entries, k);
                    if lookup(old_entries, k) is Some {
                        let j = choose|j: int|
                            0 <= j < old_entries.len() && (#[trigger] old_entries[j]).0@ == k;
                        assert(s[j] == old_entries[j]);
                        lemma_lookup_found(s, j);
                        lemma_lookup_found(old_entries, j);
                    } else if lookup(s, k) is Some {
                        let j = choose|j: int| 0 <= j < s.len() && (#[trigger] s[j]).0@ == k;
                        assert(s[j] == old_entries[j]);
                    }
                }
            }
        } else {
            entries.push((key, value));
            proof {
                let s = entries@;
                assert(distinct_keys(s)) by {
                    assert forall|a: int, b: int| 0 <= a < b < s.len() implies (#[trigger] s[a]).0@
                        != (#[trigger] s[b]).0@ by {
                        if b < old_entries.len() {
                            assert(old_entries[a].0@ != old_entries[b].0@);
                        } else {
                            assert(s[a] == old_entries[a]);
                        }
                    }
                }
                lemma_lookup_found(s, i as int);
                assert forall|k: Seq<char>| k != kv implies lookup(s, k) == lookup(
                    old_entries,
                    k,
                ) by {
                    lemma_lookup_cases(s, k);
                    lemma_lookup_cases(old_entries, k);
                    if lookup(old_entries, k) is Some {
                        let j = choose|j: int|
                            0 <= j < old_entries.len() && (#[trigger] old_entries[j]).0@ == k;
                        assert(s[j] == old_entries[j]);
                        lemma_lookup_found(s, j);
                        lemma_lookup_found(old_entries, j);
                    } else if lookup(s, k) is Some {
                        let j = choose|j: int| 0 <= j < s.len() && (#[trigger] s[j]).0@ == k;
                        assert(s[j] == old_entries[j]);
                    }
                }
            }
        }
        self.entries = entries;
    }

    /// Take out what is stored under `key`.
    pub fn remove(&mut self, key: &RepoFullName) -> (r: Option<V>)
        ensures
            r == old(self).get_spec(key@),
            r is Some ==> old(self).size() >= 1,
            final(self).get_spec(key@) is None,
            forall|k: Seq<char>| k != key@ ==> final(self).get_spec(k) == old(self).get_spec(k),
            final(self).size() == if r is Some {
                (old(self).size() - 1) as nat
            } else {
                old(self).size()
            },
    {
        proof {
            use_type_invariant(&*self);
        }
        let i = self.find(key);
        proof {
            lemma_lookup_at(self.entries@, key@, i as int);
        }
        let ghost old_entries = self.entries@;
        if i < self.entries.len() {
            let mut entries: Vec<(RepoFullName, V)> = Vec::new();
            std::mem::swap(&mut entries, &mut self.entries);
            let (_, v) = entries.remove(i);
            proof {
                let s = entries@;
                assert(s =~= old_entries.remove(i as int));
                assert forall|a: int| 0 <= a < s.len() implies #[trigger] s[a] == if a < i {
                    old_entries[a]
                } else {
                    old_entries[a + 1]
                } by {}
                assert(distinct_keys(s)) by {
                    assert forall|a: int, b: int| 0 <= a < b < s.len() implies (#[trigger] s[a]).0@
                        != (#[trigger] s[b]).0@ by {
                        if a < i && b < i {
                            assert(old_entries[a].0@ != old_entries[b].0@);
                        } else if a < i {
                            assert(old_entries[a].0@ != old_entries[b + 1].0@);
                        } else {
                            assert(old_entries[a + 1].0@ != old_entries[b + 1].0@);
                        }
                    }
                }
                assert forall|j: int| 0 <= j < s.len() implies (#[trigger] s[j]).0@ != key@ by {
                    if j < i {
                        assert(old_entries[j].0@ != old_entries[i as int].0@);
                    } else {
                        assert(old_entries[i as int].0@ != old_entries[j + 1].0@);
                    }
                }
                lemma_lookup_absent(s, key@);
                assert forall|k: Seq<char>| k != key@ implies lookup(s, k) == lookup(
                    old_entries,
                    k,
                ) by {
                    lemma_lookup_cases(s, k);
                    lemma_lookup_cases(old_entries, k);
                    if lookup(old_entries, k) is Some {
                        let j = choose|j: int|
                            0 <= j < old_entries.len() && (#[trigger] old_entries[j]).0@ == k;
                        lemma_lookup_found(old_entries, j);
                        if j < i {
                            lemma_lookup_found(s, j);
                        } else {
                            assert(j != i);
                            lemma_lookup_found(s, j - 1);
                        }
                    } else if lookup(s, k) is Some {
                        let j = choose|j: int| 0 <= j < s.len() && (#[trigger] s[j]).0@ == k;
                        if j < i {
                            assert(old_entries[j] == s[j]);
                        } else {
                            assert(old_entries[j + 1] == s[j]);
                        }
                    }
                }
            }
            self.entries = entries;
            Some(v)
        } else {
            None
        }
    }
}

} // verus!
