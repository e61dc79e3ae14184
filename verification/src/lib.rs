//! A versioned "product category" record kept in a relational-style table,
//! guarded by optimistic concurrency control: every update and delete is
//! conditioned on the version the caller last observed, so concurrent
//! writers never silently clobber each other's work.
//!
//! The store runs each operation inside a transaction against a pluggable
//! backend. Besides the in-memory backend, three deterministic mock
//! connections exercise every error path without a live database.

pub mod backend;
pub mod category;
pub mod laws;
pub mod mock;
pub mod model;
pub mod table;
