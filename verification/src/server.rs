//! The listening side's configuration: the address to bind and the service
//! shared read-only by every accepted connection. The listener loop itself —
//! binding, accepting, spawning — lives outside this crate.

use crate::book::BookService;
use std::sync::Arc;
use vstd::prelude::*;

verus! {

/// A server: where to listen and what handles each connection.
pub struct Server {
    /// The address the listener binds.
    pub address: String,
    /// The per-connection service, shared without locking since it is never
    /// mutated after startup.
    pub book_service: Arc<BookService>,
}

impl Server {
    /// Packs an address and a shared service as a server.
    pub fn new(address: String, book_service: Arc<BookService>) -> (r: Server)
        ensures
            r.address@ == address@,
            r.book_service == book_service,
    {
        Server { address, book_service }
    }
}

} // verus!
