//! Translation between a logical schema model (column types, nesting and
//! nullability as persisted in table metadata) and a physical columnar type
//! system (the in-memory vector types of an execution engine).
//!
//! The two type systems are closed tagged unions; the translation is a pure,
//! recursive, bidirectional mapping over them. Every conversion either
//! returns a complete new tree or fails atomically with a
//! [`error::ConversionError`].

pub mod error;
pub mod json;
pub mod laws;
pub mod physical;
pub mod schema;
pub mod to_logical;
pub mod to_physical;
