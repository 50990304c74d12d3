//! A Model Context Protocol server library for Logseq.
//!
//! The crate implements the logic of an MCP server that exposes a fixed set
//! of tools over a line-delimited JSON-RPC transport and translates each tool
//! invocation into calls against Logseq's HTTP API.  Everything that decides
//! or computes lives here, specified and verified; the binary around it only
//! moves bytes (stdin/stdout and the HTTP connection).

pub mod config;
pub mod engine;
pub mod error;
pub mod json;
pub mod laws;
pub mod logseq_client;
pub mod models;
pub mod protocol;
pub mod render;
pub mod tools;
