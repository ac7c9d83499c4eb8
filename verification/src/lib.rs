//! Verified core of a user-profile microservice.
//!
//! The library holds the logic of the service: bearer-token verification
//! against a cached set of the identity provider's signing keys, the
//! per-request authentication state machine, read-through auto-provisioning
//! of user rows, the profile and settings operations, and the pure parts of
//! the surrounding plumbing (query building, endpoint URLs, configuration
//! resolution). All I/O — HTTP, database, environment — stays outside; the
//! functions here take the outcomes of those calls as arguments and are
//! verified for every possible outcome.

pub mod bykey;
pub mod config;
pub mod endpoints;
pub mod errors;
pub mod handlers;
pub mod keys;
pub mod middleware;
pub mod models;
pub mod queries;
pub mod service;
pub mod store;
pub mod strutil;
pub mod token;
