//! The central data model: a challenge record and the randomized
//! distortion parameters drawn for its rendered image.

use vstd::prelude::*;

verus! {

/// Inclusive lower bound on the number of characters in an answer.
pub const MIN_ANSWER_LEN: u64 = 5;

/// Inclusive upper bound on the number of characters in an answer.
pub const MAX_ANSWER_LEN: u64 = 7;

/// An ASCII digit, lowercase letter or uppercase letter.
pub open spec fn is_alphanumeric_byte(b: u8) -> bool {
    ||| 48 <= b <= 57
    ||| 65 <= b <= 90
    ||| 97 <= b <= 122
}

/// A ground-truth answer: 5 to 7 alphanumeric ASCII characters.
pub open spec fn valid_answer(s: Seq<u8>) -> bool {
    &&& MIN_ANSWER_LEN <= s.len() <= MAX_ANSWER_LEN
    &&& forall|i: int| 0 <= i < s.len() ==> is_alphanumeric_byte(#[trigger] s[i])
}

/// The mathematical content of a stored challenge record, as the
/// store's map model carries it: everything but the key.
pub ghost struct ChallengeData {
    /// The ground-truth answer bytes.
    pub answer: Seq<u8>,
    /// Creation time, in whole seconds since the Unix epoch.
    pub created_at_secs: int,
    /// Sub-second part of the creation time, in nanoseconds.
    pub created_at_nanos: int,
}

/// A challenge record: the unique identifier, the ground-truth answer
/// the rendered image encodes, and the creation time used for expiry
/// and audit. The answer leaves the system only inside the rendered
/// image, never in plaintext.
#[derive(Clone, Debug)]
pub struct Challenge {
    /// Opaque 128-bit identifier, the sole lookup key.
    pub id: u128,
    /// Ground-truth answer bytes (ASCII alphanumeric).
    pub answer: Vec<u8>,
    /// Creation time, in whole seconds since the Unix epoch.
    pub created_at_secs: i64,
    /// Sub-second part of the creation time, in nanoseconds.
    pub created_at_nanos: u32,
}

impl Challenge {
    /// A well-formed record holds a valid answer and a nanosecond
    /// field in the range a calendar clock can produce (the upper
    /// bound leaves room for a leap second).
    pub open spec fn wf(self) -> bool {
        &&& valid_answer(self.answer@)
        &&& self.created_at_nanos < 2_000_000_000
    }

    /// The record's content, keyed in the store's map model.
    pub open spec fn model(self) -> ChallengeData {
        ChallengeData {
            answer: self.answer@,
            created_at_secs: self.created_at_secs as int,
            created_at_nanos: self.created_at_nanos as int,
        }
    }

    /// Whether this record is past the given time-to-live.
    pub fn is_expired(&self, now_secs: i64, ttl_secs: i64) -> (r: bool)
        ensures
            r == expired(self.model(), now_secs as int, ttl_secs as int),
    {
        (now_secs as i128) - (self.created_at_secs as i128) > (ttl_secs as i128)
    }

    /// An exact copy of the record.
    pub fn duplicate(&self) -> (c: Challenge)
        ensures
            c.id == self.id,
            c.model() == self.model(),
            self.wf() ==> c.wf(),
    {
        let n: usize = self.answer.len();
        let mut answer: Vec<u8> = Vec::new();
        let mut i: usize = 0;
        while i < n
            invariant
                i <= n,
                n == self.answer@.len(),
                answer@ == self.answer@.subrange(0, i as int),
            decreases n - i,
        {
            answer.push(self.answer[i]);
            proof {
                assert(answer@ =~= self.answer@.subrange(0, i + 1));
            }
            i += 1;
        }
        proof {
            assert(answer@ =~= self.answer@);
        }
        Challenge {
            id: self.id,
            answer,
            created_at_secs: self.created_at_secs,
            created_at_nanos: self.created_at_nanos,
        }
    }
}

/// Whether a record is past its time-to-live at time `now_secs`:
/// strictly more than `ttl_secs` whole seconds old.
pub open spec fn expired(d: ChallengeData, now_secs: int, ttl_secs: int) -> bool {
    now_secs - d.created_at_secs > ttl_secs
}

/// Randomized parameters for the two wave filters and the noise
/// filter that distort a rendered challenge image. Amplitudes and
/// frequencies are whole numbers; the noise intensity is kept in
/// tenths so that the model stays in integers.
#[derive(Clone, Copy, Debug)]
pub struct Distortion {
    /// Horizontal wave amplitude, drawn from [1, 5).
    pub h_amplitude: u64,
    /// Horizontal wave frequency, drawn from [5, 20).
    pub h_frequency: u64,
    /// Vertical wave amplitude, drawn from [1, 5).
    pub v_amplitude: u64,
    /// Vertical wave frequency, drawn from [5, 20).
    pub v_frequency: u64,
    /// Noise intensity in tenths, drawn from [2, 8).
    pub noise_tenths: u64,
}

/// Side length of the square canvas a challenge image is rendered at.
pub const CANVAS_SIDE: u64 = 280;

impl Distortion {
    /// Every parameter lies in its configured range.
    pub open spec fn wf(self) -> bool {
        &&& 1 <= self.h_amplitude < 5
        &&& 5 <= self.h_frequency < 20
        &&& 1 <= self.v_amplitude < 5
        &&& 5 <= self.v_frequency < 20
        &&& 2 <= self.noise_tenths < 8
    }
}

} // verus!
