//! An in-memory registry of property records with single-owner semantics.
//!
//! The registry holds an ordered sequence of [`property::Property`] records
//! and offers three operations: list all records, register a new record under
//! the caller's identity, and transfer ownership of an existing record to the
//! caller. The hosting environment dispatches calls one at a time and supplies
//! an authenticated caller identity and a timestamp; both reach the library as
//! plain values.

pub mod identity;
pub mod property;
pub mod registry;
