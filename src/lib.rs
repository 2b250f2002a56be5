//! A network-accessible key-value store over named trees: the verified core.
//!
//! The library holds the logic of the store: tree identifiers and their wire
//! names, the batch builder, the key-value service handlers over the embedded
//! engine, the bearer-token check, the pub/sub broadcaster and the
//! configuration's address rules. Network plumbing lives outside the library.
pub mod auth;
pub mod batch;
pub mod broadcaster;
pub mod cli;
pub mod client;
pub mod codec;
pub mod config;
pub mod engine;
pub mod error;
pub mod kv_service;
pub mod laws;
pub mod rpc_types;
pub mod tls;
pub mod tree_id;
