//! The client side of the handshake: solving the challenge a server sends,
//! building the answering solution message, and reading the payload.
//!
//! The socket work around these steps — resolving, connecting, the reads and
//! writes themselves — lives outside this crate; the functions here take and
//! return the plain bytes and strings that cross the wire.

use crate::codec::{
    encode_solution, spec_solution_message, CHALLENGE_MESSAGE_LEN, SEED_LEN,
};
use crate::pow::{solution_meets_challenge, PowError, PowSolver};
use vstd::prelude::*;
use vstd::slice::*;

verus! {

/// What can go wrong on the client side of a connection.
#[derive(Debug)]
pub enum ClientError {
    /// Resolving the address, connecting, or writing failed.
    ConnectError(std::io::Error),
    /// Reading the server's message failed.
    ReadError(std::io::Error),
    /// No open stream to speak over.
    NoOpenStream,
    /// The nonce search failed.
    NoNonceFound(PowError),
    /// The server closed without a payload: the solution was rejected.
    WrongSolution,
}

/// Solves the challenge carried by a 9-byte challenge message: returns the
/// first nonce answering its seed at its difficulty byte.
pub fn solve(challenge: &Vec<u8>) -> (r: Result<u64, ClientError>)
    requires
        challenge@.len() == CHALLENGE_MESSAGE_LEN,
    ensures
        r is Ok <==> exists|n: u64| solution_meets_challenge(
            n,
            challenge@.subrange(0, SEED_LEN as int),
            challenge@[SEED_LEN as int],
        ),
        r matches Ok(n) ==> {
            &&& solution_meets_challenge(
                n,
                challenge@.subrange(0, SEED_LEN as int),
                challenge@[SEED_LEN as int],
            )
            &&& forall|m: u64| m < n ==> !solution_meets_challenge(
                m,
                challenge@.subrange(0, SEED_LEN as int),
                challenge@[SEED_LEN as int],
            )
        },
        r matches Err(e) ==> e is NoNonceFound,
{
    let seed = slice_to_vec(slice_subrange(challenge.as_slice(), 0, SEED_LEN));
    let difficulty = challenge[SEED_LEN];
    let solver = PowSolver::new(seed, difficulty);
    match solver.find_nonce() {
        Ok(nonce) => Ok(nonce),
        Err(e) => Err(ClientError::NoNonceFound(e)),
    }
}

/// Builds the 16-byte solution message answering a challenge message: the
/// little-endian nonce followed by the challenge's seed echoed verbatim.
pub fn build_solution_message(nonce: u64, challenge: &Vec<u8>) -> (message: Vec<u8>)
    requires
        challenge@.len() >= SEED_LEN,
    ensures
        message@ == spec_solution_message(nonce, challenge@.subrange(0, SEED_LEN as int)),
{
    encode_solution(nonce, slice_subrange(challenge.as_slice(), 0, SEED_LEN))
}

/// Interprets the payload read after submitting a solution: the server
/// writes nothing on rejection, so an empty payload is a rejection rather
/// than an empty success.
pub fn interpret_payload(payload: String) -> (r: Result<String, ClientError>)
    ensures
        r is Ok <==> payload@.len() > 0,
        r matches Ok(word) ==> word@ == payload@,
        r matches Err(e) ==> e is WrongSolution,
{
    if payload.as_str().is_empty() {
        Err(ClientError::WrongSolution)
    } else {
        Ok(payload)
    }
}

} // verus!
