//! The error type of every fallible operation of the library.

use vstd::prelude::*;

verus! {

/// An error reported by a transport or by the library: a human-readable message.
#[derive(Clone, Debug)]
pub struct CacheError {
    pub message: String,
}

impl CacheError {
    /// An error carrying `message`.
    pub fn new(message: String) -> (e: CacheError)
        ensures
            e.message@ == message@,
    {
        CacheError { message }
    }

    /// The error's message.
    pub fn to_string(&self) -> (s: String)
        ensures
            s@ == self.message@,
    {
        self.message.clone()
    }
}

} // verus!
