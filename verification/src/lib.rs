//! Storing and querying traces: the rules of the worker, of its client and of
//! its MCP server.

pub mod api;
pub mod commands;
pub mod config;
pub mod data;
pub mod spans;
pub mod telemetry;
pub mod text;
pub mod worker;
pub mod xtask;
