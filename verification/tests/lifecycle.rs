use captcha_core::challenge::Challenge;
use captcha_core::store::{ChallengeStore, StoreError};
use captcha_core::verification::{verify, verify_with_ttl, Verdict};

fn record(id: u128, answer: &[u8]) -> Challenge {
    Challenge {
        id,
        answer: answer.to_vec(),
        created_at_secs: 1_700_000_000,
        created_at_nanos: 123_456_789,
    }
}

#[test]
fn single_use_correct_then_unknown() {
    let mut store = ChallengeStore::new();
    assert!(store.put(record(1, b"Xk3Qp")).is_ok());
    assert_eq!(verify(&mut store, 1, &b"Xk3Qp".to_vec()), Verdict::Correct);
    assert_eq!(verify(&mut store, 1, &b"Xk3Qp".to_vec()), Verdict::Unknown);
}

#[test]
fn wrong_answer_consumes_the_record() {
    let mut store = ChallengeStore::new();
    assert!(store.put(record(2, b"Xk3Qp")).is_ok());
    assert_eq!(verify(&mut store, 2, &b"aaaaa".to_vec()), Verdict::Incorrect);
    assert_eq!(verify(&mut store, 2, &b"Xk3Qp".to_vec()), Verdict::Unknown);
}

#[test]
fn unknown_id_returns_unknown() {
    let mut store = ChallengeStore::new();
    assert_eq!(verify(&mut store, 424242, &b"anything".to_vec()), Verdict::Unknown);
    assert!(store.put(record(3, b"abc12")).is_ok());
    assert_eq!(verify(&mut store, 999, &b"abc12".to_vec()), Verdict::Unknown);
    assert_eq!(verify(&mut store, 3, &b"abc12".to_vec()), Verdict::Correct);
}

#[test]
fn lowercase_variant_is_incorrect() {
    let mut store = ChallengeStore::new();
    assert!(store.put(record(4, b"Xk3Qp")).is_ok());
    assert_eq!(verify(&mut store, 4, &b"xk3qp".to_vec()), Verdict::Incorrect);
}

#[test]
fn duplicate_id_is_rejected_and_store_unchanged() {
    let mut store = ChallengeStore::new();
    assert!(store.put(record(5, b"abc12")).is_ok());
    assert_eq!(store.put(record(5, b"qq999")), Err(StoreError::DuplicateId));
    let got = store.get(5).expect("the first record stays");
    assert_eq!(got.answer, b"abc12".to_vec());
    assert_eq!(got.created_at_secs, 1_700_000_000);
}

#[test]
fn delete_is_idempotent() {
    let mut store = ChallengeStore::new();
    assert!(store.put(record(6, b"abc12")).is_ok());
    store.delete(6);
    assert!(store.get(6).is_none());
    store.delete(6);
    assert!(store.get(6).is_none());
}

#[test]
fn get_does_not_consume() {
    let mut store = ChallengeStore::new();
    assert!(store.put(record(7, b"abc12")).is_ok());
    assert!(store.get(7).is_some());
    assert!(store.get(7).is_some());
    assert_eq!(verify(&mut store, 7, &b"abc12".to_vec()), Verdict::Correct);
}

#[test]
fn take_consumes_in_one_step() {
    let mut store = ChallengeStore::new();
    assert!(store.put(record(8, b"abc12")).is_ok());
    let taken = store.take(8).expect("the record is present");
    assert_eq!(taken.answer, b"abc12".to_vec());
    assert!(store.take(8).is_none());
}

#[test]
fn race_has_exactly_one_winner() {
    // Two submissions of the correct answer for the same fresh id,
    // in the order the store linearizes them: one Correct, one
    // Unknown, never two Correct.
    let mut store = ChallengeStore::new();
    assert!(store.put(record(9, b"Xk3Qp")).is_ok());
    let first = verify(&mut store, 9, &b"Xk3Qp".to_vec());
    let second = verify(&mut store, 9, &b"Xk3Qp".to_vec());
    let wins = [first, second]
        .iter()
        .filter(|v| **v == Verdict::Correct)
        .count();
    assert_eq!(wins, 1);
    assert_eq!(second, Verdict::Unknown);
}

#[test]
fn expired_record_is_unknown_and_consumed() {
    let mut store = ChallengeStore::new();
    assert!(store.put(record(11, b"Xk3Qp")).is_ok());
    // The record was created at 1_700_000_000; an hour later it is
    // far past a 60-second time-to-live, even with the right answer.
    let v = verify_with_ttl(&mut store, 11, &b"Xk3Qp".to_vec(), 1_700_003_600, 60);
    assert_eq!(v, Verdict::Unknown);
    assert!(!store.contains(11));
}

#[test]
fn fresh_record_verifies_under_ttl() {
    let mut store = ChallengeStore::new();
    assert!(store.put(record(12, b"Xk3Qp")).is_ok());
    let v = verify_with_ttl(&mut store, 12, &b"Xk3Qp".to_vec(), 1_700_000_030, 60);
    assert_eq!(v, Verdict::Correct);
}

#[test]
fn expired_record_is_absent_for_get_fresh() {
    let mut store = ChallengeStore::new();
    assert!(store.put(record(13, b"abc12")).is_ok());
    assert!(store.get_fresh(13, 1_700_000_030, 60).is_some());
    assert!(store.get_fresh(13, 1_700_003_600, 60).is_none());
    // Plain get still sees the record: only the expiry-aware paths
    // hide it.
    assert!(store.get(13).is_some());
}

#[test]
fn contains_tracks_membership() {
    let mut store = ChallengeStore::new();
    assert!(!store.contains(10));
    assert!(store.put(record(10, b"abc12")).is_ok());
    assert!(store.contains(10));
    store.delete(10);
    assert!(!store.contains(10));
}
