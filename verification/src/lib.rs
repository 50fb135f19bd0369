//! A delta-sourced entity store: an append-only log of field-level change
//! envelopes, a materialized current-state projection folded from that log,
//! a content-hash optimistic-concurrency guard, a flat search-predicate
//! builder over the projection, and a role-based authorization gate.

use vstd::prelude::*;

pub mod atoms;
pub mod auth;
pub mod delta;
pub mod errors;
pub mod hash;
pub mod model;
pub mod pagination;
pub mod search;
pub mod store;
pub mod text;

verus! {

/// The assembled configuration of a deployment: where the store lives.
pub struct Config {
    pub db_config: crate::store::DatabaseConfig,
}

impl Config {
    /// Build the configuration from the database connection string; an
    /// empty string is rejected.
    pub fn new(database_url: String) -> (r: Result<Config, crate::errors::Error>)
        ensures
            database_url@.len() > 0 ==> r is Ok && r->Ok_0.db_config.url == database_url,
            database_url@.len() == 0 ==> r is Err && (r->Err_0
                matches crate::errors::Error::Validation(_)),
    {
        if database_url.as_str().is_empty() {
            Err(
                crate::errors::Error::Validation(
                    String::from_str("a database connection string is required"),
                ),
            )
        } else {
            Ok(Config { db_config: crate::store::DatabaseConfig::new(database_url) })
        }
    }
}

} // verus!
