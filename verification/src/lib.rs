//! A buffered telemetry ingestion pipeline.
//!
//! Incoming events (a timestamp, a category bucket, an opaque JSON payload
//! kept as text) are staged in a bounded FIFO buffer and moved into an
//! embedded SQLite store in atomic batches.  The buffer, the flush policy and
//! the batch writer are verified; the store is reached through a small set of
//! trusted wrappers around `rusqlite`.

pub mod buffer;
pub mod event;
pub mod pipeline;
pub mod policy;
pub mod storage;
pub mod writer;
