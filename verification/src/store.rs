//! The sync state store: keyed rows, written by upsert or delete, committed a
//! batch at a time.
pub mod keys;
pub mod values;
pub mod ops;
pub mod ids;
pub mod table;
pub mod batch;
pub mod query;
pub mod reads;
pub mod laws;
