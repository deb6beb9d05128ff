//! The proof-of-work primitive: challenge issuance, the brute-force solver
//! and the deterministic verifier.
//!
//! A nonce answers a challenge seed at a given difficulty when the digest of
//! the little-endian nonce followed by the seed starts with `difficulty` zero
//! bytes.

use crate::codec::{encode_challenge, spec_challenge_message, spec_u64_to_be_bytes, u64_to_be_bytes};
use sha2::Digest;
use vstd::bytes::*;
use vstd::prelude::*;
use vstd::slice::*;

verus! {

/// The system clock's error type, carried when a challenge cannot be issued.
#[verifier::external_type_specification]
#[verifier::external_body]
pub struct ExSystemTimeError(std::time::SystemTimeError);

/// The 32-byte digest that the hash primitive computes for a byte sequence;
/// it depends on the bytes alone.
pub uninterp spec fn sha256_of(bytes: Seq<u8>) -> Seq<u8>;

/// Relies on sha2::Sha256 (via the digest crate): a 32-byte digest
/// determined by the input bytes alone.
#[verifier::external_body]
pub fn hash(bytes: Vec<u8>) -> (r: Vec<u8>)
    ensures
        r@ == sha256_of(bytes@),
        r@.len() == 32,
{
    let mut hasher = sha2::Sha256::new();
    hasher.update(bytes);
    let digest = hasher.finalize();
    digest.to_vec()
}

/// Relies on std::time::SystemTime: the whole seconds between the Unix epoch
/// and now, or the clock's error when it reads earlier than the epoch.
#[verifier::external_body]
fn unix_seconds() -> Result<u64, std::time::SystemTimeError> {
    std::time::SystemTime::now().duration_since(std::time::UNIX_EPOCH).map(|d| d.as_secs())
}

/// The bytes whose digest decides a solution: the little-endian nonce
/// followed by the challenge seed.
pub open spec fn solution_digest(nonce: u64, challenge: Seq<u8>) -> Seq<u8> {
    sha256_of(spec_u64_to_le_bytes(nonce) + challenge)
}

/// Whether a digest starts with `difficulty` zero bytes.
pub open spec fn digest_has_leading_zeros(digest: Seq<u8>, difficulty: u8) -> bool {
    &&& difficulty as int <= digest.len()
    &&& forall|i: int| 0 <= i < difficulty as int ==> digest[i] == 0u8
}

/// Whether a nonce answers a challenge seed at a difficulty.
pub open spec fn solution_meets_challenge(nonce: u64, challenge: Seq<u8>, difficulty: u8) -> bool {
    digest_has_leading_zeros(solution_digest(nonce, challenge), difficulty)
}

/// Issues challenges at a fixed difficulty.
pub struct PowProvider {
    /// The number of leading zero bytes a solution's digest must show.
    pub difficulty: u8,
}

/// A candidate answer: the seed being answered and the nonce found for it.
pub struct PowSolution {
    /// The challenge seed the nonce claims to answer.
    pub challenge: Vec<u8>,
    /// The nonce submitted for that seed.
    pub nonce: u64,
}

/// Searches for a nonce answering one challenge seed at one difficulty.
pub struct PowSolver {
    /// The challenge seed to answer.
    pub challenge: Vec<u8>,
    /// The number of leading zero bytes required of the digest.
    pub difficulty: u8,
}

/// What can go wrong while solving or verifying a challenge.
#[derive(Debug)]
pub enum PowError {
    /// The submitted nonce does not meet the hash constraint.
    WrongSolutionError,
    /// The whole nonce range was searched without a match.
    SolutionNotFoundError,
    /// The system clock could not be read while issuing a challenge.
    SystemError(std::time::SystemTimeError),
}

impl PowProvider {
    /// Creates a provider that issues challenges at `difficulty`.
    pub fn new(difficulty: u8) -> (r: PowProvider)
        ensures
            r.difficulty == difficulty,
    {
        PowProvider { difficulty }
    }

    /// Issues a 9-byte challenge message: the current time in whole seconds
    /// as a big-endian seed, followed by the difficulty byte.
    pub fn generate_challenge(&self) -> (r: Result<Vec<u8>, PowError>)
        ensures
            r matches Ok(message) ==> {
                &&& message@.len() == 9
                &&& message@[8] == self.difficulty
                &&& exists|t: u64| message@ == spec_challenge_message(
                    spec_u64_to_be_bytes(t),
                    self.difficulty,
                )
            },
            r matches Err(e) ==> e is SystemError,
    {
        let timestamp = match unix_seconds() {
            Ok(t) => t,
            Err(e) => {
                return Err(PowError::SystemError(e));
            },
        };
        let seed = u64_to_be_bytes(timestamp);
        let message = encode_challenge(seed.as_slice(), self.difficulty);
        proof {
            assert(message@ == spec_challenge_message(
                spec_u64_to_be_bytes(timestamp),
                self.difficulty,
            ));
        }
        Ok(message)
    }

    /// Accepts a solution exactly when its nonce answers its seed at this
    /// provider's difficulty.
    pub fn check_solution(&self, solution: &PowSolution) -> (r: Result<(), PowError>)
        ensures
            r is Ok <==> solution_meets_challenge(
                solution.nonce,
                solution.challenge@,
                self.difficulty,
            ),
            r matches Err(e) ==> e is WrongSolutionError,
    {
        check_solution(solution.nonce, &solution.challenge, self.difficulty)
    }
}

impl PowSolution {
    /// Packs a seed and a nonce as a candidate solution.
    pub fn new(challenge: Vec<u8>, nonce: u64) -> (r: PowSolution)
        ensures
            r.challenge@ == challenge@,
            r.nonce == nonce,
    {
        PowSolution { challenge, nonce }
    }
}

impl PowSolver {
    /// Creates a solver for one challenge seed at one difficulty.
    pub fn new(challenge: Vec<u8>, difficulty: u8) -> (r: PowSolver)
        ensures
            r.challenge@ == challenge@,
            r.difficulty == difficulty,
    {
        PowSolver { challenge, difficulty }
    }

    /// Scans nonces from 0 upward and returns the first one that answers the
    /// challenge; fails only when the whole 64-bit range holds no answer.
    pub fn find_nonce(&self) -> (r: Result<u64, PowError>)
        ensures
            r is Ok <==> exists|n: u64| solution_meets_challenge(
                n,
                self.challenge@,
                self.difficulty,
            ),
            r matches Ok(n) ==> {
                &&& solution_meets_challenge(n, self.challenge@, self.difficulty)
                &&& forall|m: u64| m < n ==> !solution_meets_challenge(
                    m,
                    self.challenge@,
                    self.difficulty,
                )
            },
            r matches Err(e) ==> e is SolutionNotFoundError,
    {
        let mut nonce: u64 = 0;
        loop
            invariant
                forall|m: u64| m < nonce ==> !solution_meets_challenge(
                    m,
                    self.challenge@,
                    self.difficulty,
                ),
            decreases u64::MAX - nonce,
        {
            if check_solution(nonce, &self.challenge, self.difficulty).is_ok() {
                return Ok(nonce);
            }
            if nonce == u64::MAX {
                return Err(PowError::SolutionNotFoundError);
            }
            nonce = nonce + 1;
        }
    }
}

/// Accepts a nonce exactly when the digest of the little-endian nonce
/// followed by the challenge seed starts with `difficulty` zero bytes.
pub fn check_solution(nonce: u64, challenge: &Vec<u8>, difficulty: u8) -> (r: Result<
    (),
    PowError,
>)
    ensures
        r is Ok <==> solution_meets_challenge(nonce, challenge@, difficulty),
        r matches Err(e) ==> e is WrongSolutionError,
{
    let mut preimage = u64_to_le_bytes(nonce);
    let mut tail = slice_to_vec(challenge.as_slice());
    preimage.append(&mut tail);
    let digest = hash(preimage);
    if (difficulty as usize) > digest.len() {
        return Err(PowError::WrongSolutionError);
    }
    let mut i: usize = 0;
    while i < difficulty as usize
        invariant
            i <= difficulty as usize,
            difficulty as usize <= digest@.len(),
            digest@ == solution_digest(nonce, challenge@),
            forall|k: int| 0 <= k < i ==> digest@[k] == 0u8,
        decreases difficulty as usize - i,
    {
        if digest[i] != 0 {
            return Err(PowError::WrongSolutionError);
        }
        i = i + 1;
    }
    Ok(())
}

} // verus!
