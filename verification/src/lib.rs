//! Leaf-aggregation stage of a multi-round proof aggregation pipeline.
//!
//! A worker of the stage claims a job from a shared queue, fetches what the
//! job refers to, computes the witnesses of the leaf circuits, writes them to
//! a blob store and then, in one transaction, creates the jobs of the next
//! round and marks its own job as successful.
//!
//! The crate holds the decisions of that worker, free of input and output:
//!
//! - `engine` is the job engine: the life of a job and what a worker does
//!   next, given what happened last.
//! - `generator`, `prepare`, `process`, `persist` and `database` are the
//!   stage: which inputs a claimed job needs and which proofs it accepts,
//!   what the witness computation is called with, which blobs are written
//!   under which keys, and which statements advance the pipeline.
//! - `job`, `keys`, `round`, `circuits`, `error` and `observe` are the values
//!   that pass between them.
//! - `blobs` and `store` are a blob store and a job store held in memory,
//!   which state what the stage relies on in the real ones.
//!
//! The queue, the blob store, the witness computation and the clock are the
//! caller's. What they answer reaches the crate as plain values, and what the
//! crate decides leaves it as plain values.

pub mod blobs;
pub mod circuits;
pub mod database;
pub mod engine;
pub mod error;
pub mod generator;
pub mod job;
pub mod keys;
pub mod observe;
pub mod persist;
pub mod prepare;
pub mod process;
pub mod round;
pub mod store;
pub mod text;
