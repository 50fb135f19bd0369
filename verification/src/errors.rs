//! The error taxonomy of the store.

use vstd::prelude::*;

verus! {

/// Every way a query or mutation can fail. A field-level precondition
/// mismatch is deliberately absent: it is absorbed silently during the fold
/// and never surfaces as an error.
#[derive(PartialEq, Eq, Debug)]
pub enum Error {
    /// A malformed id or input shape.
    Validation(String),
    /// An explicit denial by the authorization gate, with a user-facing
    /// reason.
    Authorization(String),
    /// No projection or log rows exist for the id.
    NotFound,
    /// A connectivity or constraint failure, opaque to the caller.
    Database(String),
}

} // verus!
