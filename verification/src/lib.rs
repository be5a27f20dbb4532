//! Instance lifecycle and transaction bookkeeping for an embedded document
//! database that keeps its data in a relational storage engine.
//!
//! The crate decides which instance a name resolves to, which connection a
//! transaction runs on, and what happens to that connection when the
//! transaction ends. Talking to the storage engine itself is left to the
//! caller, which reports each outcome back as a plain value.

pub mod error;
pub mod key;
pub mod schema;
pub mod validate;
pub mod collection;
pub mod txn;
pub mod int_map;
pub mod pool;
pub mod instance;
pub mod registry;
