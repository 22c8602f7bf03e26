//! A request-scoped script host: the data model, the JSON-RPC dispatch rules,
//! the sandbox capability state and the dynamic row decoder, with their contracts.

pub mod json;
pub mod models;
pub mod jsonrpc;
pub mod rows;
pub mod bridge;
pub mod executor;
pub mod loader;
pub mod sql;
pub mod static_server;
