//! A rate-limited file transfer engine: copies and moves of files and
//! directories, each held to a throughput cap, each copy verified by its
//! digest, each outcome recorded file by file.
//!
//! The engine decides; it does not touch the file system, the clock or the
//! terminal. A driver opens a [`run::OperationRun`] for each operation,
//! carries out the one request that the run has pending, and hands back how
//! it went, until the result is complete.
//!
//! - [`config`]: the declared operations and their rate limits.
//! - [`file_ops`]: the results, and the effective rate of an operation.
//! - [`events`]: the requests of a run and the answers of its driver.
//! - [`state`]: the states of a run and the steps between them.
//! - [`run`]: the run itself.
//! - [`laws`]: what holds of every run.
//! - [`rate_limiter`]: the throttle.
//! - [`progress`]: the bookkeeping of a throttled copy.
//! - [`validation`]: digests, and the comparison of files by digest.
//! - [`messages`], [`text`]: the wording of the log, and how it is built.

pub mod config;
pub mod events;
pub mod file_ops;
pub mod laws;
pub mod messages;
pub mod progress;
pub mod rate_limiter;
pub mod run;
pub mod state;
pub mod text;
pub mod validation;
