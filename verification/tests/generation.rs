use std::time::{SystemTime, UNIX_EPOCH};

use captcha_core::generator::{admit_challenge, draw_answer, draw_distortion, finish_generation, GenerateError};
use captcha_core::store::ChallengeStore;
use captcha_core::verification::{verify, Verdict};

#[test]
fn end_to_end_scenario() {
    let mut store = ChallengeStore::new();
    let answer = b"Xk3Qp".to_vec();
    let (challenge, image) = finish_generation(&mut store, answer, Some("imagebytes".to_string()))
        .expect("generation with an image succeeds");
    assert_eq!(image, "imagebytes");
    assert_eq!(challenge.answer, b"Xk3Qp".to_vec());
    assert_eq!(verify(&mut store, challenge.id, &b"Xk3Qp".to_vec()), Verdict::Correct);
    assert_eq!(verify(&mut store, challenge.id, &b"Xk3Qp".to_vec()), Verdict::Unknown);
}

#[test]
fn render_failure_persists_nothing() {
    let mut store = ChallengeStore::new();
    let r = admit_challenge(&mut store, b"Xk3Qp".to_vec(), None, 77, 1_700_000_000, 0);
    assert!(matches!(r, Err(GenerateError::RenderFailure)));
    assert!(!store.contains(77));
}

#[test]
fn id_collision_leaves_the_stored_record() {
    let mut store = ChallengeStore::new();
    let first = admit_challenge(
        &mut store,
        b"abc12".to_vec(),
        Some("img1".to_string()),
        9,
        1_700_000_000,
        0,
    );
    assert!(first.is_ok());
    let second = admit_challenge(
        &mut store,
        b"zz999".to_vec(),
        Some("img2".to_string()),
        9,
        1_700_000_001,
        0,
    );
    assert!(matches!(second, Err(GenerateError::DuplicateId)));
    let got = store.get(9).expect("the first record stays");
    assert_eq!(got.answer, b"abc12".to_vec());
}

#[test]
fn drawn_answers_are_well_formed() {
    for _ in 0..200 {
        let a = draw_answer();
        assert!(5 <= a.len() && a.len() <= 7);
        assert!(a.iter().all(|b| b.is_ascii_alphanumeric()));
    }
}

#[test]
fn drawn_answer_lengths_cover_the_range() {
    let mut seen = [false; 8];
    for _ in 0..500 {
        let a = draw_answer();
        seen[a.len()] = true;
    }
    assert!(seen[5] && seen[6] && seen[7]);
}

#[test]
fn drawn_distortion_is_in_range() {
    for _ in 0..200 {
        let d = draw_distortion();
        assert!(1 <= d.h_amplitude && d.h_amplitude < 5);
        assert!(5 <= d.h_frequency && d.h_frequency < 20);
        assert!(1 <= d.v_amplitude && d.v_amplitude < 5);
        assert!(5 <= d.v_frequency && d.v_frequency < 20);
        assert!(2 <= d.noise_tenths && d.noise_tenths < 8);
    }
}

#[test]
fn generated_ids_are_pairwise_distinct() {
    let mut store = ChallengeStore::new();
    let mut ids: Vec<u128> = Vec::new();
    for _ in 0..100 {
        let (challenge, _image) =
            finish_generation(&mut store, b"abc12".to_vec(), Some("img".to_string()))
                .expect("generation with an image succeeds");
        ids.push(challenge.id);
    }
    let mut sorted = ids.clone();
    sorted.sort_unstable();
    sorted.dedup();
    assert_eq!(sorted.len(), ids.len());
}

#[test]
fn creation_stamp_tracks_the_clock() {
    let before = SystemTime::now()
        .duration_since(UNIX_EPOCH)
        .expect("the clock is past the epoch")
        .as_secs() as i64;
    let mut store = ChallengeStore::new();
    let (challenge, _image) =
        finish_generation(&mut store, b"abc12".to_vec(), Some("img".to_string()))
            .expect("generation with an image succeeds");
    let after = SystemTime::now()
        .duration_since(UNIX_EPOCH)
        .expect("the clock is past the epoch")
        .as_secs() as i64;
    assert!(before <= challenge.created_at_secs && challenge.created_at_secs <= after);
    assert!(challenge.created_at_nanos < 2_000_000_000);
}
