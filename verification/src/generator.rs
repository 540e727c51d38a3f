//! Challenge generation: a random alphanumeric answer, randomized
//! distortion parameters for the rendered image, a fresh identifier
//! and a creation stamp. Rendering the image itself is an external
//! collaborator's job; generation persists a record only when an
//! image exists.

use vstd::prelude::*;
use chrono::Timelike;
use crate::challenge::{
    Challenge, Distortion, MAX_ANSWER_LEN, MIN_ANSWER_LEN, is_alphanumeric_byte, valid_answer,
};
use crate::store::{ChallengeStore, StoreError};

verus! {

/// Relies on rand::random_range on an integer range: a draw that
/// lies in [lo, hi). The call panics on an empty range, which the
/// precondition excludes.
#[verifier::external_body]
fn random_in_range(lo: u64, hi: u64) -> (r: u64)
    requires
        lo < hi,
    ensures
        lo <= r < hi,
{
    rand::random_range(lo..hi)
}

/// Relies on uuid::Uuid::new_v4 for a fresh random 128-bit
/// identifier (as_u128 carries its bits over). The value is random,
/// so nothing is assumed of it.
#[verifier::external_body]
fn fresh_id() -> u128 {
    uuid::Uuid::new_v4().as_u128()
}

/// Relies on chrono::Utc::now, with timestamp and
/// Timelike::nanosecond: the clock's whole seconds since the Unix
/// epoch and the sub-second nanoseconds, which chrono documents as at
/// most 1_999_999_999 (the excess marking a leap second).
#[verifier::external_body]
fn now_timestamp() -> (r: (i64, u32))
    ensures
        r.1 < 2_000_000_000,
{
    let now = chrono::Utc::now();
    (now.timestamp(), now.nanosecond())
}

/// The alphabet answers are drawn from: digits, then lowercase, then
/// uppercase letters, as ASCII bytes.
pub open spec fn spec_alphanumeric_byte(i: int) -> u8 {
    if i < 10 {
        (48 + i) as u8
    } else if i < 36 {
        (97 + (i - 10)) as u8
    } else {
        (65 + (i - 36)) as u8
    }
}

/// The `i`-th character of the answer alphabet.
fn alphanumeric_byte(i: u64) -> (b: u8)
    requires
        i < 62,
    ensures
        b == spec_alphanumeric_byte(i as int),
        is_alphanumeric_byte(b),
{
    if i < 10 {
        48 + (i as u8)
    } else if i < 36 {
        97 + ((i - 10) as u8)
    } else {
        65 + ((i - 36) as u8)
    }
}

/// Draws a ground-truth answer: a length chosen from the configured
/// range, then that many characters from the alphanumeric alphabet.
/// Ambiguous glyphs (such as 0 and O) are not excluded.
pub fn draw_answer() -> (a: Vec<u8>)
    ensures
        valid_answer(a@),
{
    let len: u64 = random_in_range(MIN_ANSWER_LEN, MAX_ANSWER_LEN + 1);
    let mut a: Vec<u8> = Vec::new();
    let mut i: u64 = 0;
    while i < len
        invariant
            i <= len,
            MIN_ANSWER_LEN <= len <= MAX_ANSWER_LEN,
            a@.len() == i,
            forall|j: int| 0 <= j < a@.len() ==> is_alphanumeric_byte(#[trigger] a@[j]),
        decreases len - i,
    {
        let d: u64 = random_in_range(0, 62);
        let b: u8 = alphanumeric_byte(d);
        a.push(b);
        i += 1;
    }
    a
}

/// Draws the distortion parameters, each independently from its
/// bounded range.
pub fn draw_distortion() -> (d: Distortion)
    ensures
        d.wf(),
{
    Distortion {
        h_amplitude: random_in_range(1, 5),
        h_frequency: random_in_range(5, 20),
        v_amplitude: random_in_range(1, 5),
        v_frequency: random_in_range(5, 20),
        noise_tenths: random_in_range(2, 8),
    }
}

/// Failure of challenge generation.
#[derive(Clone, Copy, Debug, PartialEq, Eq, Structural)]
pub enum GenerateError {
    /// The image renderer produced no image; nothing was persisted
    /// and the caller surfaces a generic try-again response.
    RenderFailure,
    /// The fresh identifier collided with a stored record; nothing
    /// was persisted and the caller should retry generation.
    DuplicateId,
}

/// The decision step of generation, on plain values: given the drawn
/// answer, the renderer's outcome, a fresh identifier and the
/// current time, persists the record exactly when an image exists
/// and the identifier is unused. A failed rendering or a collision
/// persists nothing — no half-formed record is ever stored.
pub fn admit_challenge(
    store: &mut ChallengeStore,
    answer: Vec<u8>,
    rendered: Option<String>,
    id: u128,
    now_secs: i64,
    now_nanos: u32,
) -> (r: Result<(Challenge, String), GenerateError>)
    requires
        old(store).wf(),
        valid_answer(answer@),
        now_nanos < 2_000_000_000,
    ensures
        final(store).wf(),
        match r {
            Ok(p) => {
                &&& rendered == Some(p.1)
                &&& p.0.id == id
                &&& p.0.answer@ == answer@
                &&& p.0.created_at_secs == now_secs
                &&& p.0.created_at_nanos == now_nanos
                &&& p.0.wf()
                &&& !old(store)@.contains_key(id)
                &&& final(store)@ == old(store)@.insert(id, p.0.model())
            },
            Err(GenerateError::RenderFailure) => rendered is None
                && final(store)@ == old(store)@,
            Err(GenerateError::DuplicateId) => rendered is Some
                && old(store)@.contains_key(id)
                && final(store)@ == old(store)@,
        },
{
    let img: String = match rendered {
        None => {
            return Err(GenerateError::RenderFailure);
        },
        Some(img) => img,
    };
    let c = Challenge { id, answer, created_at_secs: now_secs, created_at_nanos: now_nanos };
    match store.put(c.duplicate()) {
        Ok(()) => Ok((c, img)),
        Err(StoreError::DuplicateId) => Err(GenerateError::DuplicateId),
    }
}

/// Wraps the decision step with a fresh random identifier and the
/// current clock reading. Whatever identifier the draw produced: on
/// `Ok` exactly the returned record was persisted under a previously
/// unused id, and on any error the store is unchanged.
pub fn finish_generation(
    store: &mut ChallengeStore,
    answer: Vec<u8>,
    rendered: Option<String>,
) -> (r: Result<(Challenge, String), GenerateError>)
    requires
        old(store).wf(),
        valid_answer(answer@),
    ensures
        final(store).wf(),
        match r {
            Ok(p) => {
                &&& rendered == Some(p.1)
                &&& p.0.answer@ == answer@
                &&& p.0.wf()
                &&& !old(store)@.contains_key(p.0.id)
                &&& final(store)@ == old(store)@.insert(p.0.id, p.0.model())
            },
            Err(GenerateError::RenderFailure) => rendered is None
                && final(store)@ == old(store)@,
            Err(GenerateError::DuplicateId) => rendered is Some
                && final(store)@ == old(store)@,
        },
{
    let id: u128 = fresh_id();
    let now: (i64, u32) = now_timestamp();
    admit_challenge(store, answer, rendered, id, now.0, now.1)
}

} // verus!
