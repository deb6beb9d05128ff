//! The crate-wide error type, folding the two sides' failures together.

use crate::book::BookError;
use crate::client::ClientError;
use vstd::prelude::*;

verus! {

/// The error type of std::io, carried by connection-level failures on both
/// sides of the protocol.
#[verifier::external_type_specification]
#[verifier::external_body]
pub struct ExIoError(std::io::Error);

/// A failure on either side of the protocol.
#[derive(Debug)]
pub enum Error {
    /// The server side failed.
    Book(BookError),
    /// The client side failed.
    Client(ClientError),
}

} // verus!
