//! In-memory key-value storage backend mapping a peer identity to its
//! registration record.
//!
//! The registry consults storage through the four operations `init`,
//! `contains`, `add` and `delete`; any backend satisfying their contracts
//! (here proved for the in-memory one) can stand behind the registry.  The
//! abstract state of a store is a map from peer identity to registration
//! flag, and a peer identity absent from the map is treated exactly as a
//! record whose flag is `false`.

use vstd::prelude::*;

use crate::errors::ProviderError;

verus! {

/// Whether peer `peer` is effectively registered in abstract store state
/// `m`: a record for it exists and its flag is set.  Absence of a record is
/// equivalent to a record with the flag cleared.
pub open spec fn registered(m: Map<Seq<char>, bool>, peer: Seq<char>) -> bool {
    m.contains_key(peer) && m[peer]
}

/// Whether some record of `s` is keyed by `k`.
spec fn has_key(s: Seq<(String, bool)>, k: Seq<char>) -> bool {
    exists|i: int| 0 <= i < s.len() && #[trigger] s[i].0@ == k
}

/// An index of the record of `s` keyed by `k` (meaningful only when one
/// exists).
spec fn key_index(s: Seq<(String, bool)>, k: Seq<char>) -> int {
    choose|i: int| 0 <= i < s.len() && #[trigger] s[i].0@ == k
}

/// Every pair of distinct records carries distinct keys.
spec fn keys_unique(s: Seq<(String, bool)>) -> bool {
    forall|i: int, j: int|
        0 <= i < s.len() && 0 <= j < s.len() && i != j ==> #[trigger] s[i].0@ != #[trigger] s[j].0@
}

/// The abstract map held by a sequence of records.
spec fn map_of(s: Seq<(String, bool)>) -> Map<Seq<char>, bool> {
    Map::new(|k: Seq<char>| has_key(s, k), |k: Seq<char>| s[key_index(s, k)].1)
}

/// The record at a valid index of a duplicate-free sequence is what the
/// abstract map reports for its key.
proof fn lemma_value_at(s: Seq<(String, bool)>, i: int)
    requires
        keys_unique(s),
        0 <= i < s.len(),
    ensures
        map_of(s).contains_key(s[i].0@),
        map_of(s)[s[i].0@] == s[i].1,
{
    assert(has_key(s, s[i].0@));
    let j = key_index(s, s[i].0@);
    assert(0 <= j < s.len() && s[j].0@ == s[i].0@);
    assert(j == i);
}

/// A key carried by no record is absent from the abstract map.
proof fn lemma_absent(s: Seq<(String, bool)>, k: Seq<char>)
    requires
        forall|i: int| 0 <= i < s.len() ==> #[trigger] s[i].0@ != k,
    ensures
        !map_of(s).contains_key(k),
{
}

/// Removing the record at a valid index of a duplicate-free sequence
/// removes exactly its key from the abstract map.
proof fn lemma_remove_at(s: Seq<(String, bool)>, i: int)
    requires
        keys_unique(s),
        0 <= i < s.len(),
    ensures
        keys_unique(s.remove(i)),
        map_of(s.remove(i)) == map_of(s).remove(s[i].0@),
        forall|j: int| 0 <= j < s.remove(i).len() ==> #[trigger] s.remove(i)[j].0@ != s[i].0@,
{
    let t = s.remove(i);
    let k0 = s[i].0@;
    assert forall|j: int| 0 <= j < t.len() implies #[trigger] t[j].0@ != k0 by {
        if j < i {
            assert(t[j] == s[j]);
        } else {
            assert(t[j] == s[j + 1]);
        }
    }
    assert forall|a: int, b: int|
        0 <= a < t.len() && 0 <= b < t.len() && a != b implies #[trigger] t[a].0@
        != #[trigger] t[b].0@ by {
        let a0 = if a < i { a } else { a + 1 };
        let b0 = if b < i { b } else { b + 1 };
        assert(t[a] == s[a0] && t[b] == s[b0]);
    }
    let m1 = map_of(t);
    let m2 = map_of(s).remove(k0);
    assert forall|k: Seq<char>| m1.contains_key(k) implies m2.contains_key(k) && m1[k] == m2[k] by {
        let j = key_index(t, k);
        assert(0 <= j < t.len() && t[j].0@ == k);
        let j0 = if j < i { j } else { j + 1 };
        assert(t[j] == s[j0]);
        lemma_value_at(s, j0);
        lemma_value_at(t, j);
    }
    assert forall|k: Seq<char>| m2.contains_key(k) implies m1.contains_key(k) by {
        let j0 = key_index(s, k);
        assert(0 <= j0 < s.len() && s[j0].0@ == k);
        let j = if j0 < i { j0 } else { j0 - 1 };
        assert(t[j] == s[j0]);
        assert(has_key(t, k));
    }
    assert(m1 =~= m2);
}

/// Appending a record whose key no existing record carries inserts exactly
/// that record into the abstract map.
proof fn lemma_push(s: Seq<(String, bool)>, p: (String, bool))
    requires
        keys_unique(s),
        forall|j: int| 0 <= j < s.len() ==> #[trigger] s[j].0@ != p.0@,
    ensures
        keys_unique(s.push(p)),
        map_of(s.push(p)) == map_of(s).insert(p.0@, p.1),
{
    let t = s.push(p);
    assert forall|a: int, b: int|
        0 <= a < t.len() && 0 <= b < t.len() && a != b implies #[trigger] t[a].0@
        != #[trigger] t[b].0@ by {
        if a < s.len() {
            assert(t[a] == s[a]);
        }
        if b < s.len() {
            assert(t[b] == s[b]);
        }
    }
    let m1 = map_of(t);
    let m2 = map_of(s).insert(p.0@, p.1);
    assert forall|k: Seq<char>| m1.contains_key(k) implies m2.contains_key(k) && m1[k] == m2[k] by {
        let j = key_index(t, k);
        assert(0 <= j < t.len() && t[j].0@ == k);
        lemma_value_at(t, j);
        if j < s.len() {
            assert(t[j] == s[j]);
            lemma_value_at(s, j);
        } else {
            assert(t[j] == p);
        }
    }
    assert forall|k: Seq<char>| m2.contains_key(k) implies m1.contains_key(k) by {
        if k == p.0@ {
            assert(t[s.len() as int] == p);
            assert(has_key(t, k));
        } else {
            let j = key_index(s, k);
            assert(0 <= j < s.len() && s[j].0@ == k);
            assert(t[j] == s[j]);
            assert(has_key(t, k));
        }
    }
    assert(m1 =~= m2);
}

/// The in-memory storage backend: one record per registered peer identity.
pub struct Storage {
    entries: Vec<(String, bool)>,
}

impl View for Storage {
    type V = Map<Seq<char>, bool>;

    closed spec fn view(&self) -> Map<Seq<char>, bool> {
        map_of(self.entries@)
    }
}

impl Storage {
    /// Internal well-formedness: at most one record per peer identity.
    pub closed spec fn wf(&self) -> bool {
        keys_unique(self.entries@)
    }

    /// Creates an empty store.
    pub fn new() -> (s: Storage)
        ensures
            s.wf(),
            s@ == Map::<Seq<char>, bool>::empty(),
    {
        let s = Storage { entries: Vec::new() };
        proof {
            assert(s@ =~= Map::<Seq<char>, bool>::empty());
        }
        s
    }

    /// Idempotent creation of the backing structure; safe to call any
    /// number of times.  The in-memory structure exists from construction
    /// onward, so the call changes nothing and always succeeds.
    pub fn init(&mut self) -> (r: Result<(), ProviderError>)
        requires
            old(self).wf(),
        ensures
            final(self).wf(),
            final(self)@ == old(self)@,
            r == Ok::<(), ProviderError>(()),
    {
        Ok(())
    }

    /// The index of the record keyed by `peer_id`, if one exists.
    fn find(&self, peer_id: &String) -> (r: Option<usize>)
        ensures
            match r {
                Some(i) => i < self.entries@.len() && self.entries@[i as int].0@ == peer_id@,
                None => forall|j: int|
                    0 <= j < self.entries@.len() ==> #[trigger] self.entries@[j].0@ != peer_id@,
            },
    {
        let n = self.entries.len();
        let mut i: usize = 0;
        while i < n
            invariant
                n == self.entries@.len(),
                i <= n,
                forall|j: int| 0 <= j < i ==> #[trigger] self.entries@[j].0@ != peer_id@,
            decreases n - i,
        {
            if self.entries[i].0 == *peer_id {
                return Some(i);
            }
            i = i + 1;
        }
        None
    }

    /// Drops the record keyed by `peer_id`, if one exists.
    fn purge(&mut self, peer_id: &String)
        requires
            old(self).wf(),
        ensures
            final(self).wf(),
            final(self)@ == old(self)@.remove(peer_id@),
            forall|j: int|
                0 <= j < final(self).entries@.len()
                ==> #[trigger] final(self).entries@[j].0@ != peer_id@,
    {
        match self.find(peer_id) {
            Some(i) => {
                proof {
                    lemma_remove_at(self.entries@, i as int);
                }
                self.entries.remove(i);
            },
            None => {
                proof {
                    lemma_absent(self.entries@, peer_id@);
                    assert(old(self)@.remove(peer_id@) =~= old(self)@);
                }
            },
        }
    }

    /// Whether `peer_id` is registered.  Never fails on a missing record:
    /// absence reads as not registered.
    pub fn contains(&self, peer_id: String) -> (r: Result<bool, ProviderError>)
        requires
            self.wf(),
        ensures
            r == Ok::<bool, ProviderError>(registered(self@, peer_id@)),
    {
        match self.find(&peer_id) {
            Some(i) => {
                proof {
                    lemma_value_at(self.entries@, i as int);
                }
                Ok(self.entries[i].1)
            },
            None => {
                proof {
                    lemma_absent(self.entries@, peer_id@);
                }
                Ok(false)
            },
        }
    }

    /// Upserts the record for `peer_id` with the given registration flag,
    /// replacing any existing record under the same identity.
    pub fn add(&mut self, peer_id: String, is_registered: bool) -> (r: Result<(), ProviderError>)
        requires
            old(self).wf(),
        ensures
            final(self).wf(),
            final(self)@ == old(self)@.insert(peer_id@, is_registered),
            r == Ok::<(), ProviderError>(()),
    {
        self.purge(&peer_id);
        proof {
            lemma_push(self.entries@, (peer_id, is_registered));
            assert(old(self)@.remove(peer_id@).insert(peer_id@, is_registered)
                =~= old(self)@.insert(peer_id@, is_registered));
        }
        self.entries.push((peer_id, is_registered));
        Ok(())
    }

    /// Removes the record for `peer_id`; succeeds whether or not one is
    /// present.
    pub fn delete(&mut self, peer_id: String) -> (r: Result<(), ProviderError>)
        requires
            old(self).wf(),
        ensures
            final(self).wf(),
            final(self)@ == old(self)@.remove(peer_id@),
            r == Ok::<(), ProviderError>(()),
    {
        self.purge(&peer_id);
        Ok(())
    }
}

} // verus!
