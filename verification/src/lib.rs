//! Ingestion and storage engine of a chain indexer.
//!
//! The library holds the rules of the engine as functions from values to
//! values: how an endpoint selects a transport ([`client`]), how headers and
//! transactions are laid out in the rows of the store and read back
//! ([`codec`], [`sql`]), which statements write and query the store and what
//! their results mean ([`store`]), and what the ingestion service does next
//! ([`ingest`]). Whoever runs the engine performs the I/O: it connects to the
//! node, executes the statements, and hands back what came of it.
pub mod cli;
pub mod client;
pub mod codec;
pub mod decimal;
pub mod hex;
pub mod ingest;
pub mod metrics;
pub mod model;
pub mod primitives;
pub mod sql;
pub mod store;
pub mod text;
pub mod ui;
pub mod utils;
