//! Error-and-result contract for an on-chain prediction-poll program.
//!
//! The heart of the crate is a closed taxonomy of failure variants
//! ([`errors::ProgramError`]) together with the result type
//! ([`errors::ProgramResult`]) that every fallible instruction handler
//! returns, and a reporting operation that renders any failure to a
//! diagnostic channel before the failure is surfaced to the caller.
//! The poll-lifecycle handlers in [`handlers`] show how each variant is
//! raised: exactly one variant per precondition violation, failures
//! propagated unchanged (or narrowed to a documented, more specific
//! variant), and no account mutation retained on any failing path.

pub mod diag;
pub mod errors;
pub mod handlers;
pub mod mention;
