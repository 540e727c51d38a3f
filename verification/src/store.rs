//! The challenge store: keyed storage of outstanding challenge
//! records, abstractly a map from identifier to challenge content.
//!
//! This store lives in one process's memory: records do not survive a
//! restart, which is adequate only for a single-process,
//! non-restarting deployment.

use vstd::prelude::*;
use vstd::map::*;
use crate::challenge::{Challenge, ChallengeData, expired};

verus! {

/// Failure of a store mutation. An in-memory store is always
/// reachable, so the only failure left is an identifier collision.
#[derive(Clone, Copy, Debug, PartialEq, Eq, Structural)]
pub enum StoreError {
    /// An insert found an existing record under the same identifier.
    DuplicateId,
}

/// True when `s` holds a record keyed by `id`.
pub open spec fn has_id(s: Seq<Challenge>, id: u128) -> bool {
    exists|i: int| 0 <= i < s.len() && (#[trigger] s[i]).id == id
}

/// The index of the record keyed by `id`; meaningful when `has_id`
/// holds and the identifiers of `s` are pairwise distinct.
pub open spec fn index_of_id(s: Seq<Challenge>, id: u128) -> int {
    choose|i: int| 0 <= i < s.len() && (#[trigger] s[i]).id == id
}

/// Pairwise distinct identifiers: each id keys at most one record.
pub open spec fn distinct_ids(s: Seq<Challenge>) -> bool {
    forall|i: int, j: int| 0 <= i < j < s.len() ==> (#[trigger] s[i]).id != (#[trigger] s[j]).id
}

/// The map a record sequence denotes: each stored id to its content.
pub open spec fn seq_as_map(s: Seq<Challenge>) -> Map<u128, ChallengeData> {
    Map::new(|id: u128| has_id(s, id), |id: u128| s[index_of_id(s, id)].model())
}

/// With distinct identifiers, `index_of_id` is the one index holding
/// the sought id.
proof fn lemma_index_of_id(s: Seq<Challenge>, id: u128)
    requires
        distinct_ids(s),
        has_id(s, id),
    ensures
        0 <= index_of_id(s, id) < s.len(),
        s[index_of_id(s, id)].id == id,
        forall|i: int| 0 <= i < s.len() && (#[trigger] s[i]).id == id ==> i == index_of_id(s, id),
{
    let k: int = index_of_id(s, id);
    assert(0 <= k < s.len() && s[k].id == id);
    assert forall|i: int| 0 <= i < s.len() && (#[trigger] s[i]).id == id implies i == k by {
        if i < k {
            assert(s[i].id != s[k].id);
        } else if k < i {
            assert(s[k].id != s[i].id);
        }
    }
}

/// In-memory challenge store. Its model is the map from each stored
/// identifier to that record's content; the invariant keeps at most
/// one record per identifier.
pub struct ChallengeStore {
    records: Vec<Challenge>,
}

impl View for ChallengeStore {
    type V = Map<u128, ChallengeData>;

    closed spec fn view(&self) -> Map<u128, ChallengeData> {
        seq_as_map(self.records@)
    }
}

impl ChallengeStore {
    /// Internal invariant: identifiers pairwise distinct, every
    /// record well-formed.
    pub closed spec fn wf(self) -> bool {
        &&& distinct_ids(self.records@)
        &&& forall|i: int| 0 <= i < self.records@.len() ==> (#[trigger] self.records@[i]).wf()
    }

    /// A fresh, empty store.
    pub fn new() -> (s: Self)
        ensures
            s.wf(),
            s@ == Map::<u128, ChallengeData>::empty(),
    {
        let s = ChallengeStore { records: Vec::new() };
        proof {
            assert(s@ =~= Map::<u128, ChallengeData>::empty());
        }
        s
    }

    /// The position of the record keyed by `id`, if one is stored.
    fn find_index(&self, id: u128) -> (r: Option<usize>)
        ensures
            match r {
                Some(i) => i < self.records@.len() && self.records@[i as int].id == id,
                None => !has_id(self.records@, id),
            },
    {
        let n: usize = self.records.len();
        let mut i: usize = 0;
        while i < n
            invariant
                i <= n,
                n == self.records@.len(),
                forall|j: int| 0 <= j < i ==> (#[trigger] self.records@[j]).id != id,
            decreases n - i,
        {
            if self.records[i].id == id {
                return Some(i);
            }
            i += 1;
        }
        None
    }

    /// Whether a record keyed by `id` is present.
    pub fn contains(&self, id: u128) -> (r: bool)
        ensures
            r == self@.contains_key(id),
    {
        match self.find_index(id) {
            Some(_) => true,
            None => false,
        }
    }

    /// Inserts a new record; rejects an identifier that is already
    /// present, leaving the store unchanged.
    pub fn put(&mut self, c: Challenge) -> (r: Result<(), StoreError>)
        requires
            old(self).wf(),
            c.wf(),
        ensures
            final(self).wf(),
            match r {
                Ok(()) => !old(self)@.contains_key(c.id)
                    && final(self)@ == old(self)@.insert(c.id, c.model()),
                Err(StoreError::DuplicateId) => old(self)@.contains_key(c.id)
                    && final(self)@ == old(self)@,
            },
    {
        if self.contains(c.id) {
            return Err(StoreError::DuplicateId);
        }
        let ghost s_old = self.records@;
        self.records.push(c);
        proof {
            let s_new = self.records@;
            assert forall|i: int, j: int| 0 <= i < j < s_new.len() implies
                (#[trigger] s_new[i]).id != (#[trigger] s_new[j]).id by {
                if j == s_old.len() {
                    if s_new[i].id == c.id {
                        assert(s_old[i].id == c.id);
                        assert(has_id(s_old, c.id));
                    }
                }
            }
            assert forall|i: int| 0 <= i < s_new.len() implies (#[trigger] s_new[i]).wf() by {
                if i < s_old.len() {
                    assert(s_old[i].wf());
                }
            }
            assert_maps_equal!(seq_as_map(s_new), seq_as_map(s_old).insert(c.id, c.model()), id => {
                if id == c.id {
                    assert(s_new[s_old.len() as int].id == id);
                    assert(has_id(s_new, id));
                    lemma_index_of_id(s_new, id);
                } else {
                    if has_id(s_old, id) {
                        lemma_index_of_id(s_old, id);
                        let i: int = index_of_id(s_old, id);
                        assert(s_new[i].id == id);
                        assert(has_id(s_new, id));
                        lemma_index_of_id(s_new, id);
                        assert(s_new[index_of_id(s_new, id)] == s_old[index_of_id(s_old, id)]);
                    } else if has_id(s_new, id) {
                        let i: int = index_of_id(s_new, id);
                        lemma_index_of_id(s_new, id);
                        assert(i < s_old.len());
                        assert(s_old[i].id == id);
                        assert(has_id(s_old, id));
                    }
                }
            });
        }
        Ok(())
    }

    /// Looks up the record keyed by `id` without mutating the store;
    /// absence is a normal outcome, not an error.
    pub fn get(&self, id: u128) -> (r: Option<Challenge>)
        requires
            self.wf(),
        ensures
            match r {
                Some(c) => self@.contains_key(id) && c.id == id && c.wf()
                    && c.model() == self@[id],
                None => !self@.contains_key(id),
            },
    {
        match self.find_index(id) {
            None => None,
            Some(i) => {
                proof {
                    assert(has_id(self.records@, id));
                    lemma_index_of_id(self.records@, id);
                }
                let c = self.records[i].duplicate();
                Some(c)
            }
        }
    }

    /// Expiry-aware lookup: a record past its time-to-live at
    /// `now_secs` is treated as absent, exactly as an unknown id is.
    pub fn get_fresh(&self, id: u128, now_secs: i64, ttl_secs: i64) -> (r: Option<Challenge>)
        requires
            self.wf(),
        ensures
            match r {
                Some(c) => self@.contains_key(id)
                    && !expired(self@[id], now_secs as int, ttl_secs as int)
                    && c.id == id && c.wf() && c.model() == self@[id],
                None => !self@.contains_key(id)
                    || expired(self@[id], now_secs as int, ttl_secs as int),
            },
    {
        match self.get(id) {
            None => None,
            Some(c) => {
                if c.is_expired(now_secs, ttl_secs) {
                    None
                } else {
                    Some(c)
                }
            },
        }
    }

    /// Removes and returns the record keyed by `id` in one step: the
    /// atomic consume that verification relies on.
    pub fn take(&mut self, id: u128) -> (r: Option<Challenge>)
        requires
            old(self).wf(),
        ensures
            final(self).wf(),
            final(self)@ == old(self)@.remove(id),
            match r {
                Some(c) => old(self)@.contains_key(id) && c.id == id && c.wf()
                    && c.model() == old(self)@[id],
                None => !old(self)@.contains_key(id),
            },
    {
        match self.find_index(id) {
            None => {
                proof {
                    assert(old(self)@.remove(id) =~= old(self)@);
                }
                None
            }
            Some(i) => {
                proof {
                    assert(has_id(self.records@, id));
                    lemma_index_of_id(self.records@, id);
                }
                let ghost s_old = self.records@;
                let c = self.records.remove(i);
                proof {
                    lemma_remove_keeps_others(s_old, i as int);
                }
                Some(c)
            }
        }
    }

    /// Removes the record keyed by `id`; deleting an absent id leaves
    /// the store as it was, so deletion is idempotent.
    pub fn delete(&mut self, id: u128)
        requires
            old(self).wf(),
        ensures
            final(self).wf(),
            final(self)@ == old(self)@.remove(id),
            !old(self)@.contains_key(id) ==> final(self)@ == old(self)@,
    {
        let _ = self.take(id);
        proof {
            if !old(self)@.contains_key(id) {
                assert(old(self)@.remove(id) =~= old(self)@);
            }
        }
    }
}

/// Removing the record at index `k` removes exactly its key from the
/// denoted map and keeps every other record.
proof fn lemma_remove_keeps_others(s: Seq<Challenge>, k: int)
    requires
        distinct_ids(s),
        0 <= k < s.len(),
        forall|i: int| 0 <= i < s.len() ==> (#[trigger] s[i]).wf(),
    ensures
        distinct_ids(s.remove(k)),
        forall|i: int| 0 <= i < s.remove(k).len() ==> (#[trigger] s.remove(k)[i]).wf(),
        seq_as_map(s.remove(k)) == seq_as_map(s).remove(s[k].id),
{
    let t = s.remove(k);
    s.remove_ensures(k);
    assert forall|i: int, j: int| 0 <= i < j < t.len() implies
        (#[trigger] t[i]).id != (#[trigger] t[j]).id by {
        let oi: int = if i < k { i } else { i + 1 };
        let oj: int = if j < k { j } else { j + 1 };
        assert(t[i] == s[oi]);
        assert(t[j] == s[oj]);
        assert(s[oi].id != s[oj].id);
    }
    assert forall|i: int| 0 <= i < t.len() implies (#[trigger] t[i]).wf() by {
        let oi: int = if i < k { i } else { i + 1 };
        assert(t[i] == s[oi]);
    }
    assert_maps_equal!(seq_as_map(t), seq_as_map(s).remove(s[k].id), id => {
        if id == s[k].id {
            if has_id(t, id) {
                let i: int = index_of_id(t, id);
                lemma_index_of_id(t, id);
                let oi: int = if i < k { i } else { i + 1 };
                assert(t[i] == s[oi]);
                assert(oi != k);
                if oi < k {
                    assert(s[oi].id != s[k].id);
                } else {
                    assert(s[k].id != s[oi].id);
                }
            }
        } else {
            if has_id(s, id) {
                lemma_index_of_id(s, id);
                let oi: int = index_of_id(s, id);
                assert(oi != k);
                let i: int = if oi < k { oi } else { oi - 1 };
                assert(t[i] == s[oi]);
                assert(has_id(t, id));
                lemma_index_of_id(t, id);
                assert(t[index_of_id(t, id)] == s[oi]) by {
                    let i2: int = index_of_id(t, id);
                    let oi2: int = if i2 < k { i2 } else { i2 + 1 };
                    assert(t[i2] == s[oi2]);
                    assert(s[oi2].id == id);
                }
            } else if has_id(t, id) {
                let i: int = index_of_id(t, id);
                lemma_index_of_id(t, id);
                let oi: int = if i < k { i } else { i + 1 };
                assert(t[i] == s[oi]);
                assert(s[oi].id == id);
                assert(has_id(s, id));
            }
        }
    });
}

} // verus!
