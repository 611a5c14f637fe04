//! Deterministic generation of benchmark tables of the group-by and join
//! families: seeded sampling, key-space partitioning, null injection and
//! assembly into typed column batches.

pub mod batch;
pub mod buffer;
pub mod error;
pub mod field;
pub mod generate;
pub mod groupby;
pub mod join;
pub mod keys;
pub mod laws;
pub mod presplit;
pub mod stream;
pub mod text;
