//! A proof-of-work gate in front of a small quote service.
//!
//! A server issues a per-connection challenge; a client must brute-force a
//! nonce whose digest starts with a configured number of zero bytes before
//! the server hands out a quote. The wire formats, the solver, the verifier
//! and the per-connection decisions are verified; the sockets, threads and
//! logging around them live outside this crate.

pub mod book;
pub mod client;
pub mod codec;
pub mod error;
pub mod pow;
pub mod server;
pub mod store;
