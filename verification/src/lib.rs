//! Core logic of a small batch data-migration pipeline: field
//! normalization, identity reconciliation against a reference table,
//! date cleaning and parsing, and per-record outcome accounting.
//!
//! The surrounding I/O (database cursors, CSV files, command-line
//! handling) lives outside this crate; every function here is pure
//! computation over plain values and carries a verified contract.

pub mod amount;
pub mod dates;
pub mod pipeline;
pub mod resolver;
pub mod text;
