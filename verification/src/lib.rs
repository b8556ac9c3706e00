//! Synthetic relational test data: generation, batching, and dual-sink
//! orchestration for linked User/Product/Order records.
//!
//! The library holds the verified core of the pipeline: entity models and
//! their invariants, the entity generators, the batch buffer and its flush
//! discipline, the bulk-load state machine with its volume-ceiling stop,
//! an in-memory model of the relational sink, and the continuous-phase
//! round-trip verification. File and database I/O live outside the library
//! and call into it with plain values.

mod entropy;
pub mod text;
pub mod models;
pub mod generators;
pub mod buffer;
pub mod driver;
pub mod db;
pub mod continuous;
pub mod csv_layout;

use vstd::prelude::*;

verus! {

/// Default number of records accumulated before a relational flush.
pub const BATCH_SIZE: usize = 1000;

/// Default volume ceiling for the bulk phase: 50 GiB of combined file-sink size.
pub const TARGET_SIZE: u64 = 50 * 1024 * 1024 * 1024;

} // verus!
