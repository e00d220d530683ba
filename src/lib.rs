//! The core of a log ingestion service: the record model, a buffered writer
//! that batches accepted records into a column store, the ingestion and
//! query steps built on it, and the shutdown sequence.

pub mod types;
pub mod writer;
pub mod service;
pub mod shutdown;
