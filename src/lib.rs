//! Download orchestration for feed-discovered episodes handed to an aria2
//! daemon: the episode lifecycle, the worklist and its deduplication against
//! durable history, the file reconciliation protocol of the two stores, and
//! the JSON-RPC request and response layer.
pub mod client;
pub mod config;
pub mod data;
pub mod engine;
pub mod error;
pub mod feed;
pub mod history;
pub mod jsonrpc;
pub mod laws;
pub mod novel_config;
pub mod text;
