//! Subscription confirmation and newsletter delivery for a newsletter service.
//!
//! The crate holds the decisions of the two workflows: which token strings are
//! accepted, how a confirmation advances, and in which order a newsletter issue
//! goes out to the confirmed subscribers. Talking to the database and to the
//! mail provider is left to the caller, which performs the actions that the
//! workflows ask for and reports what came of them.

pub mod domain;
pub mod error_chain;
pub mod routes;
pub mod runs;
