//! A handle-safety and lifecycle layer for a transactional, column-family
//! oriented key/value storage engine.
//!
//! The layer owns no native resource. Every operation is split in two: a
//! function that decides which engine call is owed (or rejects the request
//! before the engine is touched), and a function that turns the engine's
//! answer into a typed result. The caller performs the engine call between
//! the two.

pub mod capability;
pub mod column_family;
pub mod db;
pub mod error;
pub mod iterator;
pub mod ops;
pub mod options;
pub mod snapshot;
pub mod transaction;
pub mod transaction_db;
