//! Wire formats for the proof-of-work handshake.
//!
//! A challenge message is 9 bytes: an 8-byte big-endian seed followed by one
//! difficulty byte. A solution message is 16 bytes: the 8-byte little-endian
//! nonce followed by the 8-byte seed echoed verbatim.

use vstd::bytes::*;
use vstd::prelude::*;
use vstd::slice::*;

verus! {

/// Length in bytes of the seed carried by both wire messages.
pub const SEED_LEN: usize = 8;

/// Length in bytes of an encoded challenge message.
pub const CHALLENGE_MESSAGE_LEN: usize = 9;

/// Length in bytes of an encoded solution message.
pub const SOLUTION_MESSAGE_LEN: usize = 16;

/// The bytes of a challenge message: the seed followed by the difficulty byte.
pub open spec fn spec_challenge_message(seed: Seq<u8>, difficulty: u8) -> Seq<u8> {
    seed.push(difficulty)
}

/// The bytes of a solution message: the little-endian nonce, then the seed
/// echoed verbatim.
pub open spec fn spec_solution_message(nonce: u64, seed: Seq<u8>) -> Seq<u8> {
    spec_u64_to_le_bytes(nonce) + seed
}

/// The big-endian bytes of a 64-bit value, most significant byte first.
pub open spec fn spec_u64_to_be_bytes(x: u64) -> Seq<u8> {
    seq![
        ((x >> 56) & 0xff) as u8,
        ((x >> 48) & 0xff) as u8,
        ((x >> 40) & 0xff) as u8,
        ((x >> 32) & 0xff) as u8,
        ((x >> 24) & 0xff) as u8,
        ((x >> 16) & 0xff) as u8,
        ((x >> 8) & 0xff) as u8,
        (x & 0xff) as u8,
    ]
}

/// The decoding of a challenge message: the seed bytes and the difficulty
/// byte, or nothing when the message has the wrong length.
pub open spec fn spec_decode_challenge(message: Seq<u8>) -> Option<(Seq<u8>, u8)> {
    if message.len() == CHALLENGE_MESSAGE_LEN {
        Some((message.subrange(0, SEED_LEN as int), message[SEED_LEN as int]))
    } else {
        None
    }
}

/// The decoding of a solution message: the nonce and the echoed seed bytes,
/// or nothing when the message has the wrong length.
pub open spec fn spec_decode_solution(message: Seq<u8>) -> Option<(u64, Seq<u8>)> {
    if message.len() == SOLUTION_MESSAGE_LEN {
        Some(
            (
                spec_u64_from_le_bytes(message.subrange(0, SEED_LEN as int)),
                message.subrange(SEED_LEN as int, SOLUTION_MESSAGE_LEN as int),
            ),
        )
    } else {
        None
    }
}

/// Encodes a 64-bit value as 8 big-endian bytes.
pub fn u64_to_be_bytes(x: u64) -> (s: Vec<u8>)
    ensures
        s@ == spec_u64_to_be_bytes(x),
        s@.len() == 8,
{
    let s: Vec<u8> = vec![
        ((x >> 56) & 0xff) as u8,
        ((x >> 48) & 0xff) as u8,
        ((x >> 40) & 0xff) as u8,
        ((x >> 32) & 0xff) as u8,
        ((x >> 24) & 0xff) as u8,
        ((x >> 16) & 0xff) as u8,
        ((x >> 8) & 0xff) as u8,
        (x & 0xff) as u8,
    ];
    proof {
        assert(s@ =~= spec_u64_to_be_bytes(x));
    }
    s
}

/// Builds the 9-byte challenge message for a seed and a difficulty.
pub fn encode_challenge(seed: &[u8], difficulty: u8) -> (message: Vec<u8>)
    requires
        seed@.len() == SEED_LEN,
    ensures
        message@ == spec_challenge_message(seed@, difficulty),
        message@.len() == CHALLENGE_MESSAGE_LEN,
{
    let mut message = slice_to_vec(seed);
    message.push(difficulty);
    message
}

/// Splits a 9-byte challenge message into its seed and difficulty.
pub fn decode_challenge(message: &[u8]) -> (r: Option<(Vec<u8>, u8)>)
    ensures
        r is Some <==> message@.len() == CHALLENGE_MESSAGE_LEN,
        r matches Some((seed, difficulty)) ==> Some((seed@, difficulty))
            == spec_decode_challenge(message@),
{
    if message.len() != CHALLENGE_MESSAGE_LEN {
        return None;
    }
    let seed = slice_to_vec(slice_subrange(message, 0, SEED_LEN));
    let difficulty = *slice_index_get(message, SEED_LEN);
    Some((seed, difficulty))
}

/// Builds the 16-byte solution message for a nonce and the seed it answers.
pub fn encode_solution(nonce: u64, seed: &[u8]) -> (message: Vec<u8>)
    requires
        seed@.len() == SEED_LEN,
    ensures
        message@ == spec_solution_message(nonce, seed@),
        message@.len() == SOLUTION_MESSAGE_LEN,
{
    let mut message = u64_to_le_bytes(nonce);
    let mut echoed = slice_to_vec(seed);
    message.append(&mut echoed);
    message
}

/// Splits a 16-byte solution message into its nonce and echoed seed.
pub fn decode_solution(message: &[u8]) -> (r: Option<(u64, Vec<u8>)>)
    ensures
        r is Some <==> message@.len() == SOLUTION_MESSAGE_LEN,
        r matches Some((nonce, seed)) ==> Some((nonce, seed@)) == spec_decode_solution(message@),
{
    if message.len() != SOLUTION_MESSAGE_LEN {
        return None;
    }
    let nonce = u64_from_le_bytes(slice_subrange(message, 0, SEED_LEN));
    let seed = slice_to_vec(slice_subrange(message, SEED_LEN, SOLUTION_MESSAGE_LEN));
    Some((nonce, seed))
}

/// Compares two byte slices for equality.
pub fn bytes_equal(a: &[u8], b: &[u8]) -> (r: bool)
    ensures
        r <==> a@ == b@,
{
    if a.len() != b.len() {
        return false;
    }
    let mut i: usize = 0;
    while i < a.len()
        invariant
            i <= a@.len(),
            a@.len() == b@.len(),
            forall|k: int| 0 <= k < i ==> a@[k] == b@[k],
        decreases a@.len() - i,
    {
        if *slice_index_get(a, i) != *slice_index_get(b, i) {
            return false;
        }
        i = i + 1;
    }
    proof {
        assert(a@ =~= b@);
    }
    true
}

/// Law: decoding an encoded challenge message recovers the seed and the
/// difficulty exactly.
pub proof fn lemma_challenge_round_trip(seed: Seq<u8>, difficulty: u8)
    requires
        seed.len() == SEED_LEN,
    ensures
        spec_decode_challenge(spec_challenge_message(seed, difficulty)) == Some(
            (seed, difficulty),
        ),
{
    let message = spec_challenge_message(seed, difficulty);
    assert(message.subrange(0, SEED_LEN as int) =~= seed);
}

/// Law: decoding an encoded solution message recovers the nonce and the seed
/// exactly.
pub proof fn lemma_solution_round_trip(nonce: u64, seed: Seq<u8>)
    requires
        seed.len() == SEED_LEN,
    ensures
        spec_decode_solution(spec_solution_message(nonce, seed)) == Some((nonce, seed)),
{
    lemma_auto_spec_u64_to_from_le_bytes();
    let message = spec_solution_message(nonce, seed);
    assert(message.subrange(0, SEED_LEN as int) =~= spec_u64_to_le_bytes(nonce));
    assert(message.subrange(SEED_LEN as int, SOLUTION_MESSAGE_LEN as int) =~= seed);
}

} // verus!
