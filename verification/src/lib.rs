//! A resumable-upload engine: a per-upload state machine, a concurrent
//! registry of upload records, a streaming ingester that reconciles the
//! declared size against the bytes actually received, a resume protocol
//! that safely repositions into a partially written file, and an
//! admission check that refuses new work when the host is
//! resource-constrained.

pub mod admission;
pub mod config;
pub mod errors;
pub mod file;
pub mod handlers;
pub mod ingest;
pub mod registry;
