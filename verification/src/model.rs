//! The business entities, each with its store representation, fold rules,
//! search document, and query/mutation surface.

use vstd::prelude::*;

pub mod account;
pub mod organization;
pub mod transaction;

verus! {

/// The query surface of the store: every entity's read operations.
#[derive(Default)]
pub struct Query(
    pub account::AcctQuery,
    pub organization::OrgQuery,
    pub transaction::TxnQuery,
);

/// The mutation surface of the store: every entity's write operations.
#[derive(Default)]
pub struct Mutate(
    pub account::AcctMutate,
    pub organization::OrgMutate,
    pub transaction::TxnMutate,
);

} // verus!
