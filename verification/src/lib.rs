//! Inspection library for a versioned feature-experimentation store.
//!
//! The store keeps its records as serialized text payloads inside tagged
//! values.  This crate holds the logic that turns those payloads into typed
//! records: a structured-text decoder, a schema-version resolver for the
//! participation flags, and one reader per logical table.  Opening the store
//! and printing the result live outside the library.

pub mod display;
pub mod json;
pub mod meta;
pub mod records;
pub mod tables;
