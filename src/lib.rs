//! Runtime configuration for an inscription indexer: which chain to work on,
//! where node credentials and index data live, which configuration file to
//! read, and how a connection to the node's RPC interface is validated.

pub mod chain;
pub mod config;
pub mod error;
pub mod laws;
pub mod options;
pub mod preflight;
pub mod rpc;
pub mod text;
