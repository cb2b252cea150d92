//! Puzzles that a responder hands out and the brute-force search that solves them.
use rand::Rng;
use sha2::{Digest, Sha256};
use vstd::bytes::{spec_u64_to_le_bytes, u64_to_le_bytes};
use vstd::prelude::*;

verus! {

/// The largest number of leading zero bytes a puzzle may ask for.
pub const MAX_LEADING_ZEROS: u8 = 32;

/// A puzzle: find a nonce whose digest, together with `value`, starts with
/// `n_leading_zeros` zero bytes.
#[derive(Debug, Clone, Copy, PartialEq, Eq, Structural)]
pub struct Challenge {
    pub value: u64,
    /// Number of leading zeros to meet.
    pub n_leading_zeros: u8,
}

/// A claimed answer to a puzzle, bound to the puzzle's value.
#[derive(Debug, Clone, Copy, PartialEq, Eq, Structural)]
pub struct Solution {
    pub challenge: u64,
    pub nonce: u64,
}

/// The outcome of checking a solution; a valid one carries its digest.
#[derive(Debug, Clone)]
pub enum VerificationStatus {
    Invalid,
    Valid(Vec<u8>),
}

#[derive(Debug, Clone, Copy, PartialEq, Eq, Structural)]
pub enum SolutionError {
    /// The puzzle asks for more leading zero bytes than allowed.
    ChallengeTargetIncorrect(u8),
    /// The solution was made for another puzzle.
    SolutionChallengeMismatch { challenge_value: u64, solution_value: u64 },
    /// Every nonce was tried and none met the target.
    NonceSpaceExhausted,
}

/// The SHA-256 digest of a byte sequence.
pub uninterp spec fn sha256_of(data: Seq<u8>) -> Seq<u8>;

/// Relies on `sha2::Sha256::digest`: the SHA-256 digest of `data`, which is
/// 32 bytes long and depends on `data` alone.
#[verifier::external_body]
fn sha256(data: &[u8]) -> (r: Vec<u8>)
    ensures
        r@ == sha256_of(data@),
        r@.len() == 32,
{
    Sha256::digest(data).to_vec()
}

/// Relies on `rand::thread_rng` and `Rng::gen`: a `u64` drawn from the
/// thread-local generator. Nothing is known of the value.
#[verifier::external_body]
fn random_u64() -> u64 {
    rand::thread_rng().gen()
}

/// The fixed layout a solution is hashed in: the puzzle value, then the
/// nonce, each as eight little-endian bytes.
pub open spec fn solution_bytes(s: Solution) -> Seq<u8> {
    spec_u64_to_le_bytes(s.challenge) + spec_u64_to_le_bytes(s.nonce)
}

pub open spec fn solution_digest(s: Solution) -> Seq<u8> {
    sha256_of(solution_bytes(s))
}

/// The first `n` bytes of `h` (or all of them, if fewer) are zero.
pub open spec fn has_leading_zero_bytes(h: Seq<u8>, n: nat) -> bool {
    forall|i: int| 0 <= i < n && i < h.len() ==> h[i] == 0
}

/// `s` answers `c`: it is bound to `c`, `c` is within range, and its digest
/// meets the target.
pub open spec fn is_valid_solution(s: Solution, c: Challenge) -> bool {
    &&& c.n_leading_zeros <= MAX_LEADING_ZEROS
    &&& s.challenge == c.value
    &&& has_leading_zero_bytes(solution_digest(s), c.n_leading_zeros as nat)
}

/// The candidate with the given nonce for puzzle `c`.
pub open spec fn candidate(c: Challenge, nonce: u64) -> Solution {
    Solution { challenge: c.value, nonce }
}

/// What checking `s` against `c` yields: an error, or whether the target is met.
pub open spec fn verify_outcome(s: Solution, c: Challenge) -> Result<bool, SolutionError> {
    if c.n_leading_zeros > MAX_LEADING_ZEROS {
        Err(SolutionError::ChallengeTargetIncorrect(c.n_leading_zeros))
    } else if s.challenge != c.value {
        Err(
            SolutionError::SolutionChallengeMismatch {
                challenge_value: c.value,
                solution_value: s.challenge,
            },
        )
    } else {
        Ok(has_leading_zero_bytes(solution_digest(s), c.n_leading_zeros as nat))
    }
}

/// `s` is the candidate with the smallest nonce that answers `c`.
pub open spec fn is_first_solution(s: Solution, c: Challenge) -> bool {
    &&& s == candidate(c, s.nonce)
    &&& is_valid_solution(s, c)
    &&& forall|k: u64| k < s.nonce ==> !is_valid_solution(#[trigger] candidate(c, k), c)
}

impl Challenge {
    /// A puzzle with a random value and the given target.
    pub fn random(n_leading_zeros: u8) -> (r: Challenge)
        ensures
            r.n_leading_zeros == n_leading_zeros,
    {
        Challenge { value: random_u64(), n_leading_zeros }
    }
}

impl Solution {
    /// The bytes the digest is taken over.
    pub fn to_bytes(&self) -> (r: Vec<u8>)
        ensures
            r@ == solution_bytes(*self),
    {
        let mut bytes = u64_to_le_bytes(self.challenge);
        let nonce = u64_to_le_bytes(self.nonce);
        bytes.extend_from_slice(nonce.as_slice());
        bytes
    }

    /// Searches the nonces upwards from zero for the first that meets the
    /// puzzle's target.
    pub fn find(challenge: &Challenge) -> (r: Result<Solution, SolutionError>)
        ensures
            challenge.n_leading_zeros > MAX_LEADING_ZEROS ==> r == Err::<Solution, SolutionError>(
                SolutionError::ChallengeTargetIncorrect(challenge.n_leading_zeros),
            ),
            match r {
                Ok(s) => is_first_solution(s, *challenge),
                Err(SolutionError::ChallengeTargetIncorrect(n)) => {
                    &&& n == challenge.n_leading_zeros
                    &&& n > MAX_LEADING_ZEROS
                },
                Err(SolutionError::NonceSpaceExhausted) => {
                    &&& challenge.n_leading_zeros <= MAX_LEADING_ZEROS
                    &&& forall|k: u64| !is_valid_solution(#[trigger] candidate(*challenge, k), *challenge)
                },
                Err(SolutionError::SolutionChallengeMismatch { .. }) => false,
            },
    {
        if challenge.n_leading_zeros > MAX_LEADING_ZEROS {
            return Err(SolutionError::ChallengeTargetIncorrect(challenge.n_leading_zeros));
        }
        let mut nonce: u64 = 0;
        loop
            invariant
                challenge.n_leading_zeros <= MAX_LEADING_ZEROS,
                forall|k: u64| k < nonce ==> !is_valid_solution(#[trigger] candidate(*challenge, k), *challenge),
            decreases u64::MAX - nonce,
        {
            let solution = Solution { challenge: challenge.value, nonce };
            match solution.verify(challenge) {
                Ok(VerificationStatus::Valid(_)) => {
                    return Ok(solution);
                },
                Ok(VerificationStatus::Invalid) => {},
                Err(e) => {
                    return Err(e);
                },
            }
            if nonce == u64::MAX {
                assert forall|k: u64| !is_valid_solution(#[trigger] candidate(*challenge, k), *challenge) by {
                    if k == nonce {
                        assert(candidate(*challenge, k) == solution);
                    }
                }
                return Err(SolutionError::NonceSpaceExhausted);
            }
            nonce = nonce + 1;
        }
    }

    /// Checks this solution against a puzzle.
    pub fn verify(&self, challenge: &Challenge) -> (r: Result<VerificationStatus, SolutionError>)
        ensures
            match r {
                Ok(VerificationStatus::Valid(h)) => {
                    &&& verify_outcome(*self, *challenge) == Ok::<bool, SolutionError>(true)
                    &&& h@ == solution_digest(*self)
                },
                Ok(VerificationStatus::Invalid) => verify_outcome(*self, *challenge) == Ok::<
                    bool,
                    SolutionError,
                >(false),
                Err(e) => verify_outcome(*self, *challenge) == Err::<bool, SolutionError>(e),
            },
    {
        if challenge.n_leading_zeros > MAX_LEADING_ZEROS {
            return Err(SolutionError::ChallengeTargetIncorrect(challenge.n_leading_zeros));
        }
        if self.challenge != challenge.value {
            return Err(
                SolutionError::SolutionChallengeMismatch {
                    challenge_value: challenge.value,
                    solution_value: self.challenge,
                },
            );
        }
        let bytes = self.to_bytes();
        let hash = sha256(bytes.as_slice());
        let n = challenge.n_leading_zeros as usize;
        let mut i: usize = 0;
        while i < n
            invariant
                n == challenge.n_leading_zeros,
                n <= MAX_LEADING_ZEROS,
                self.challenge == challenge.value,
                hash@.len() == 32,
                i <= n,
                hash@ == solution_digest(*self),
                forall|j: int| 0 <= j < i ==> hash@[j] == 0,
            decreases n - i,
        {
            if hash[i] != 0 {
                return Ok(VerificationStatus::Invalid);
            }
            i = i + 1;
        }
        Ok(VerificationStatus::Valid(hash))
    }
}

/// A solution that the search returns passes the check against its own
/// puzzle, for every target in range and every puzzle value.
pub proof fn lemma_found_solution_verifies(s: Solution, c: Challenge)
    requires
        c.n_leading_zeros <= MAX_LEADING_ZEROS,
        is_first_solution(s, c),
    ensures
        verify_outcome(s, c) == Ok::<bool, SolutionError>(true),
{
}

/// A solution found for puzzle `a` is refused with a mismatch by any puzzle
/// `b` with another value and an in-range target.
pub proof fn lemma_solution_bound_to_challenge(s: Solution, a: Challenge, b: Challenge)
    requires
        is_first_solution(s, a),
        b.value != a.value,
        b.n_leading_zeros <= MAX_LEADING_ZEROS,
    ensures
        verify_outcome(s, b) == Err::<bool, SolutionError>(
            SolutionError::SolutionChallengeMismatch { challenge_value: b.value, solution_value: a.value },
        ),
{
}

/// A target above the maximum is refused, whatever the solution and the
/// puzzle value.
pub proof fn lemma_target_out_of_range(s: Solution, c: Challenge)
    requires
        c.n_leading_zeros > MAX_LEADING_ZEROS,
    ensures
        verify_outcome(s, c) == Err::<bool, SolutionError>(
            SolutionError::ChallengeTargetIncorrect(c.n_leading_zeros),
        ),
{
}

/// With a target of zero, every solution bound to the puzzle is valid.
pub proof fn lemma_zero_target_always_valid(s: Solution, c: Challenge)
    requires
        c.n_leading_zeros == 0,
        s.challenge == c.value,
    ensures
        verify_outcome(s, c) == Ok::<bool, SolutionError>(true),
{
}

} // verus!
