//! Normalization layer for an event-ingestion pipeline.
//!
//! High-cardinality or sensitive substrings (identifiers, timestamps, SQL
//! literals, cache tokens, resource hashes) are rewritten into canonical
//! placeholders so that otherwise-distinct strings group together, and device
//! metadata is resolved from browser client hints with a user-agent fallback.

pub mod cache;
pub mod chars;
pub mod device;
pub mod engine;
pub mod resource;
pub mod scan;
pub mod sql;
pub mod table;
pub mod text;
pub mod token;
pub mod txn;
