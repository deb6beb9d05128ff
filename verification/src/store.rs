//! The backing resource store: a read-only set of quotes, one of which is
//! handed out per accepted connection.

use rand::seq::SliceRandom;
use vstd::prelude::*;

verus! {

/// The quotes the server may hand out, fixed at startup.
pub struct BookStore {
    /// The quotes available.
    pub quotes: Vec<String>,
}

/// Relies on rand's SliceRandom::choose with thread_rng: a reference to some
/// element of the slice, or None exactly when the slice is empty.
#[verifier::external_body]
fn choose_quote<'a>(quotes: &'a [String]) -> (r: Option<&'a String>)
    ensures
        r is Some <==> quotes@.len() > 0,
        r matches Some(q) ==> exists|i: int| 0 <= i < quotes@.len() && q@ == quotes@[i]@,
{
    quotes.choose(&mut rand::thread_rng())
}

impl BookStore {
    /// Packs a set of quotes as a store.
    pub fn new(quotes: Vec<String>) -> (r: BookStore)
        ensures
            r.quotes@ == quotes@,
    {
        BookStore { quotes }
    }

    /// Returns some quote of the store, or nothing exactly when it is empty.
    pub fn get_random_quote(&self) -> (r: Option<&String>)
        ensures
            r is Some <==> self.quotes@.len() > 0,
            r matches Some(q) ==> exists|i: int|
                0 <= i < self.quotes@.len() && q@ == self.quotes@[i]@,
    {
        choose_quote(self.quotes.as_slice())
    }
}

} // verus!
