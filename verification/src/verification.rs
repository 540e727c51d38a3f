//! One-shot verification of a claimed answer against the stored
//! challenge record. Any attempt that finds a record consumes it,
//! correct or not, so a challenge can be used at most once.

use vstd::prelude::*;
use crate::challenge::{ChallengeData, expired};
use crate::store::ChallengeStore;

verus! {

/// The outcome of comparing a claimed answer to a stored challenge.
#[derive(Clone, Copy, Debug, PartialEq, Eq, Structural)]
pub enum Verdict {
    /// The claimed answer matched the stored answer exactly.
    Correct,
    /// A record was found, but the claimed answer did not match.
    Incorrect,
    /// No record exists for the claimed identifier: never issued,
    /// expired, or already consumed. The three are deliberately
    /// indistinguishable to the caller.
    Unknown,
}

/// The verdict a verification attempt yields on a store holding `m`:
/// `Unknown` without a record, else the result of an exact,
/// case-sensitive comparison with the stored answer.
pub open spec fn verdict_of(m: Map<u128, ChallengeData>, id: u128, claimed: Seq<u8>) -> Verdict {
    if !m.contains_key(id) {
        Verdict::Unknown
    } else if m[id].answer == claimed {
        Verdict::Correct
    } else {
        Verdict::Incorrect
    }
}

/// The store contents after a verification attempt: any record that
/// was found is consumed, whatever the verdict; an absent id mutates
/// nothing.
pub open spec fn store_after_verify(
    m: Map<u128, ChallengeData>,
    id: u128,
    claimed: Seq<u8>,
) -> Map<u128, ChallengeData> {
    if m.contains_key(id) {
        m.remove(id)
    } else {
        m
    }
}

/// Exact byte-sequence equality.
fn bytes_eq(a: &Vec<u8>, b: &Vec<u8>) -> (r: bool)
    ensures
        r == (a@ == b@),
{
    if a.len() != b.len() {
        return false;
    }
    let n: usize = a.len();
    let mut i: usize = 0;
    while i < n
        invariant
            i <= n,
            n == a@.len(),
            n == b@.len(),
            forall|j: int| 0 <= j < i ==> a@[j] == b@[j],
        decreases n - i,
    {
        if a[i] != b[i] {
            return false;
        }
        i += 1;
    }
    proof {
        assert(a@ =~= b@);
    }
    true
}

/// Looks up the record for `id`, consumes it if present, and compares
/// the claimed answer exactly (case-sensitive, no trimming) against
/// the stored one. Exactly one store mutation happens when a record
/// is found, none when it is absent.
pub fn verify(store: &mut ChallengeStore, id: u128, claimed: &Vec<u8>) -> (v: Verdict)
    requires
        old(store).wf(),
    ensures
        final(store).wf(),
        v == verdict_of(old(store)@, id, claimed@),
        final(store)@ == store_after_verify(old(store)@, id, claimed@),
{
    match store.take(id) {
        None => {
            proof {
                assert(old(store)@.remove(id) =~= old(store)@);
            }
            Verdict::Unknown
        }
        Some(c) => {
            if bytes_eq(&c.answer, claimed) {
                Verdict::Correct
            } else {
                Verdict::Incorrect
            }
        }
    }
}

/// The verdict of an expiry-aware attempt: an expired record counts
/// as absent, so it can never satisfy a verification.
pub open spec fn verdict_with_ttl(
    m: Map<u128, ChallengeData>,
    id: u128,
    claimed: Seq<u8>,
    now_secs: int,
    ttl_secs: int,
) -> Verdict {
    if m.contains_key(id) && expired(m[id], now_secs, ttl_secs) {
        Verdict::Unknown
    } else {
        verdict_of(m, id, claimed)
    }
}

/// Expiry-aware verification: as `verify`, but a record older than
/// `ttl_secs` seconds at `now_secs` is treated as absent. The stale
/// record is still removed on the way (the lazy check-on-read form
/// of garbage collection), so no answer lingers in storage past the
/// first attempt against it.
pub fn verify_with_ttl(
    store: &mut ChallengeStore,
    id: u128,
    claimed: &Vec<u8>,
    now_secs: i64,
    ttl_secs: i64,
) -> (v: Verdict)
    requires
        old(store).wf(),
    ensures
        final(store).wf(),
        v == verdict_with_ttl(old(store)@, id, claimed@, now_secs as int, ttl_secs as int),
        final(store)@ == store_after_verify(old(store)@, id, claimed@),
{
    match store.take(id) {
        None => {
            proof {
                assert(old(store)@.remove(id) =~= old(store)@);
            }
            Verdict::Unknown
        }
        Some(c) => {
            if c.is_expired(now_secs, ttl_secs) {
                Verdict::Unknown
            } else if bytes_eq(&c.answer, claimed) {
                Verdict::Correct
            } else {
                Verdict::Incorrect
            }
        }
    }
}

/// An expired record can never satisfy a verification, not even with
/// the right answer, and the attempt still consumes it.
pub proof fn lemma_expired_is_unknown(
    m: Map<u128, ChallengeData>,
    id: u128,
    a: Seq<u8>,
    now_secs: int,
    ttl_secs: int,
)
    requires
        m.contains_key(id),
        m[id].answer == a,
        expired(m[id], now_secs, ttl_secs),
    ensures
        verdict_with_ttl(m, id, a, now_secs, ttl_secs) == Verdict::Unknown,
        !store_after_verify(m, id, a).contains_key(id),
{
}

/// Single use: on a store holding the record for `id` with answer
/// `a`, submitting `a` yields `Correct`, and any second attempt on
/// the consumed store yields `Unknown` — two competing submissions,
/// taken in either order of their linearization, get exactly one
/// `Correct`.
pub proof fn lemma_single_use(m: Map<u128, ChallengeData>, id: u128, a: Seq<u8>, second: Seq<u8>)
    requires
        m.contains_key(id),
        m[id].answer == a,
    ensures
        verdict_of(m, id, a) == Verdict::Correct,
        verdict_of(store_after_verify(m, id, a), id, second) == Verdict::Unknown,
{
}

/// A wrong answer consumes the record too: submitting `b != a` yields
/// `Incorrect`, and the right answer afterwards yields `Unknown`.
pub proof fn lemma_wrong_answer_consumes(
    m: Map<u128, ChallengeData>,
    id: u128,
    a: Seq<u8>,
    b: Seq<u8>,
)
    requires
        m.contains_key(id),
        m[id].answer == a,
        b != a,
    ensures
        verdict_of(m, id, b) == Verdict::Incorrect,
        verdict_of(store_after_verify(m, id, b), id, a) == Verdict::Unknown,
{
}

/// An id without a record yields `Unknown` and leaves the store
/// untouched.
pub proof fn lemma_unknown_id(m: Map<u128, ChallengeData>, id: u128, claimed: Seq<u8>)
    requires
        !m.contains_key(id),
    ensures
        verdict_of(m, id, claimed) == Verdict::Unknown,
        store_after_verify(m, id, claimed) == m,
{
}

/// The ASCII-lowercase image of a byte.
pub open spec fn lower_byte(b: u8) -> u8 {
    if 65 <= b <= 90 {
        (b + 32) as u8
    } else {
        b
    }
}

/// The ASCII-lowercase image of a byte sequence.
pub open spec fn lower_bytes(s: Seq<u8>) -> Seq<u8> {
    s.map(|i: int, b: u8| lower_byte(b))
}

/// Case policy: comparison is case-sensitive, so when the stored
/// answer has an uppercase letter (at position `k`), submitting its
/// lowercase variant yields `Incorrect`, not `Correct`.
pub proof fn lemma_case_sensitive(m: Map<u128, ChallengeData>, id: u128, a: Seq<u8>, k: int)
    requires
        m.contains_key(id),
        m[id].answer == a,
        0 <= k < a.len(),
        65 <= a[k] <= 90,
    ensures
        verdict_of(m, id, lower_bytes(a)) == Verdict::Incorrect,
{
    assert(lower_bytes(a)[k] == lower_byte(a[k]));
    assert(lower_bytes(a)[k] != a[k]);
    assert(lower_bytes(a) != a);
}

/// Uniqueness as the store enforces it: when two challenges are
/// admitted in turn, each past the duplicate check, their ids differ.
pub proof fn lemma_admitted_ids_distinct(
    m: Map<u128, ChallengeData>,
    id1: u128,
    d1: ChallengeData,
    id2: u128,
)
    requires
        !m.contains_key(id1),
        !m.insert(id1, d1).contains_key(id2),
    ensures
        id1 != id2,
{
}

} // verus!
