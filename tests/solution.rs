use sha2::{Digest, Sha256};
use wisdom_pow::solution::{Challenge, Solution, SolutionError, VerificationStatus};

#[test]
fn prove_verify() {
    let challenge = Challenge::random(2);
    let s = Solution::find(&challenge).unwrap();

    println!("Solution: {s:?}");

    let v = s.verify(&challenge);
    println!("Verification: {v:?}");

    assert!(matches!(v, Ok(VerificationStatus::Valid(_))));
}

#[test]
fn fake_verify() {
    let challenge = Challenge {
        value: 10,
        n_leading_zeros: 2,
    };
    let s = Solution::find(&challenge).unwrap();

    println!("Solution: {s:?}");

    let challenge = Challenge {
        value: 11,
        n_leading_zeros: 1,
    };
    let v = s.verify(&challenge);
    println!("Verification: {v:?}");

    assert!(matches!(
        v,
        Err(SolutionError::SolutionChallengeMismatch { .. })
    ));
}

fn digest_of(challenge: u64, nonce: u64) -> Vec<u8> {
    let mut bytes = challenge.to_le_bytes().to_vec();
    bytes.extend_from_slice(&nonce.to_le_bytes());
    Sha256::digest(&bytes).to_vec()
}

#[test]
fn bytes_are_the_fixed_layout() {
    let s = Solution { challenge: 0x0102_0304_0506_0708, nonce: 9 };
    assert_eq!(
        s.to_bytes(),
        vec![8, 7, 6, 5, 4, 3, 2, 1, 9, 0, 0, 0, 0, 0, 0, 0]
    );
    assert_eq!(s.to_bytes(), bincode::serialize(&(s.challenge, s.nonce)).unwrap());
}

#[test]
fn valid_outcome_carries_the_sha256_digest() {
    let challenge = Challenge { value: 42, n_leading_zeros: 0 };
    let s = Solution { challenge: 42, nonce: 5 };
    match s.verify(&challenge) {
        Ok(VerificationStatus::Valid(h)) => {
            assert_eq!(h.len(), 32);
            assert_eq!(h, digest_of(42, 5));
        }
        other => panic!("unexpected outcome {other:?}"),
    }
}

#[test]
fn found_solution_is_the_first_that_meets_the_target() {
    let challenge = Challenge { value: 42, n_leading_zeros: 1 };
    let s = Solution::find(&challenge).unwrap();
    assert_eq!(s.challenge, 42);
    assert_eq!(digest_of(42, s.nonce)[0], 0);
    for k in 0..s.nonce {
        assert_ne!(digest_of(42, k)[0], 0);
        let candidate = Solution { challenge: 42, nonce: k };
        assert!(matches!(candidate.verify(&challenge), Ok(VerificationStatus::Invalid)));
    }
    assert!(matches!(s.verify(&challenge), Ok(VerificationStatus::Valid(_))));
}

#[test]
fn solutions_verify_for_targets_zero_to_two() {
    for n in 0..=2u8 {
        for value in [0u64, 7, u64::MAX] {
            let challenge = Challenge { value, n_leading_zeros: n };
            let s = Solution::find(&challenge).unwrap();
            assert!(matches!(s.verify(&challenge), Ok(VerificationStatus::Valid(_))));
        }
    }
}

#[test]
fn zero_target_is_met_by_nonce_zero() {
    let challenge = Challenge { value: 123, n_leading_zeros: 0 };
    assert_eq!(
        Solution::find(&challenge).unwrap(),
        Solution { challenge: 123, nonce: 0 }
    );
}

#[test]
fn zero_target_accepts_any_bound_solution() {
    let challenge = Challenge { value: 77, n_leading_zeros: 0 };
    for nonce in [0u64, 1, 1000, u64::MAX] {
        let s = Solution { challenge: 77, nonce };
        assert!(matches!(s.verify(&challenge), Ok(VerificationStatus::Valid(_))));
    }
}

#[test]
fn target_above_maximum_is_refused() {
    let challenge = Challenge { value: 1, n_leading_zeros: 33 };
    assert_eq!(
        Solution::find(&challenge),
        Err(SolutionError::ChallengeTargetIncorrect(33))
    );
    let s = Solution { challenge: 2, nonce: 0 };
    assert!(matches!(
        s.verify(&challenge),
        Err(SolutionError::ChallengeTargetIncorrect(33))
    ));
    let challenge = Challenge { value: 1, n_leading_zeros: 255 };
    assert!(matches!(
        s.verify(&challenge),
        Err(SolutionError::ChallengeTargetIncorrect(255))
    ));
}

#[test]
fn mismatch_names_both_values() {
    let challenge = Challenge { value: 11, n_leading_zeros: 1 };
    let s = Solution { challenge: 10, nonce: 3 };
    assert!(matches!(
        s.verify(&challenge),
        Err(SolutionError::SolutionChallengeMismatch { challenge_value: 11, solution_value: 10 })
    ));
}

#[test]
fn random_challenge_keeps_the_target() {
    assert_eq!(Challenge::random(1).n_leading_zeros, 1);
    assert_eq!(Challenge::random(32).n_leading_zeros, 32);
}
