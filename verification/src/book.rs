//! The server side of one connection: verifying a submitted solution message
//! against the issued seed and picking the quote an accepted client receives.

use crate::codec::{
    bytes_equal, decode_solution, spec_solution_message, SEED_LEN, SOLUTION_MESSAGE_LEN,
};
use crate::pow::{solution_meets_challenge, PowError, PowProvider, PowSolution};
use crate::store::BookStore;
use vstd::bytes::*;
use vstd::prelude::*;

verus! {

/// Handles accepted connections: issues challenges through its provider and
/// hands out quotes from its store.
pub struct BookService {
    /// The quotes handed out to accepted clients.
    pub store: BookStore,
    /// The challenge issuer and verifier.
    pub pow: PowProvider,
}

/// What can go wrong while serving one connection.
#[derive(Debug)]
pub enum BookError {
    /// The client's message had the wrong length or echoed the wrong seed.
    InvalidClientMessageError,
    /// The client's nonce does not answer the issued challenge.
    SolutionCheckError(PowError),
    /// The store holds no quote to hand out.
    NoQuotesAvailable,
    /// Writing to or reading from the connection failed.
    StreamError(std::io::Error),
}

/// Whether the server accepts a solution message against the seed it issued:
/// the message is 16 bytes, echoes that seed verbatim, and carries a nonce
/// that answers it at the given difficulty.
pub open spec fn response_accepted(message: Seq<u8>, issued_seed: Seq<u8>, difficulty: u8) -> bool {
    &&& message.len() == SOLUTION_MESSAGE_LEN
    &&& message.subrange(SEED_LEN as int, SOLUTION_MESSAGE_LEN as int) == issued_seed
    &&& solution_meets_challenge(
        spec_u64_from_le_bytes(message.subrange(0, SEED_LEN as int)),
        issued_seed,
        difficulty,
    )
}

impl BookService {
    /// Packs a store and a challenge provider as a per-connection service.
    pub fn new(store: BookStore, pow: PowProvider) -> (r: BookService)
        ensures
            r.store == store,
            r.pow == pow,
    {
        BookService { store, pow }
    }

    /// Verifies the client's 16-byte solution message against the seed this
    /// connection was issued: accepts exactly the messages that echo the seed
    /// and carry a nonce answering it, and names which check failed.
    pub fn process_response(&self, message: &[u8], original_challenge: &Vec<u8>) -> (r: Result<
        (),
        BookError,
    >)
        ensures
            r is Ok <==> response_accepted(message@, original_challenge@, self.pow.difficulty),
            r matches Err(e) ==> (e is InvalidClientMessageError <==> (message@.len()
                != SOLUTION_MESSAGE_LEN || message@.subrange(
                SEED_LEN as int,
                SOLUTION_MESSAGE_LEN as int,
            ) != original_challenge@)),
            r matches Err(e) ==> (e is InvalidClientMessageError || e is SolutionCheckError),
            r matches Err(BookError::SolutionCheckError(pow_error)) ==> pow_error
                is WrongSolutionError,
    {
        let decoded = match decode_solution(message) {
            Some(pair) => pair,
            None => {
                return Err(BookError::InvalidClientMessageError);
            },
        };
        let (nonce, echoed_seed) = decoded;
        if !bytes_equal(echoed_seed.as_slice(), original_challenge.as_slice()) {
            return Err(BookError::InvalidClientMessageError);
        }
        let solution = PowSolution::new(echoed_seed, nonce);
        match self.pow.check_solution(&solution) {
            Ok(()) => Ok(()),
            Err(e) => Err(BookError::SolutionCheckError(e)),
        }
    }

    /// Picks the quote an accepted client receives, or reports the store
    /// empty as its own failure rather than a silent close.
    pub fn pick_quote(&self) -> (r: Result<String, BookError>)
        ensures
            r is Ok <==> self.store.quotes@.len() > 0,
            r matches Ok(q) ==> exists|i: int|
                0 <= i < self.store.quotes@.len() && q@ == self.store.quotes@[i]@,
            r matches Err(e) ==> e is NoQuotesAvailable,
    {
        match self.store.get_random_quote() {
            Some(quote) => Ok(quote.clone()),
            None => Err(BookError::NoQuotesAvailable),
        }
    }
}

/// Law: a nonce that answers a seed at a difficulty, submitted in a
/// well-formed solution message echoing that seed, is accepted by the
/// server-side verification of that message.
pub proof fn lemma_valid_nonce_accepted(nonce: u64, seed: Seq<u8>, difficulty: u8)
    requires
        seed.len() == SEED_LEN,
        solution_meets_challenge(nonce, seed, difficulty),
    ensures
        response_accepted(spec_solution_message(nonce, seed), seed, difficulty),
{
    lemma_auto_spec_u64_to_from_le_bytes();
    let message = spec_solution_message(nonce, seed);
    assert(message.subrange(0, SEED_LEN as int) =~= spec_u64_to_le_bytes(nonce));
    assert(message.subrange(SEED_LEN as int, SOLUTION_MESSAGE_LEN as int) =~= seed);
}

/// Law: a solution message that echoes a seed other than the issued one is
/// rejected, whatever nonce it carries — even one that answers the issued
/// seed.
pub proof fn lemma_seed_binding(
    nonce: u64,
    issued_seed: Seq<u8>,
    echoed_seed: Seq<u8>,
    difficulty: u8,
)
    requires
        issued_seed.len() == SEED_LEN,
        echoed_seed.len() == SEED_LEN,
        issued_seed != echoed_seed,
        solution_meets_challenge(nonce, issued_seed, difficulty),
    ensures
        !response_accepted(spec_solution_message(nonce, echoed_seed), issued_seed, difficulty),
{
    lemma_auto_spec_u64_to_from_le_bytes();
    let message = spec_solution_message(nonce, echoed_seed);
    assert(message.subrange(SEED_LEN as int, SOLUTION_MESSAGE_LEN as int) =~= echoed_seed);
}

} // verus!
