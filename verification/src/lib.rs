//! Core protocol layer for a streaming chat client.
//!
//! The crate normalizes a vendor streaming chat API into one canonical event
//! stream: an SSE frame decoder, a stateful stream parser, a protocol adapter
//! that builds vendor requests from canonical histories, a tool-call loop
//! engine, and a correlation bridge for tools whose execution is delegated to
//! an external actor.

pub mod adapter;
pub mod bridge;
pub mod browser;
pub mod chat;
pub mod connection;
pub mod converter;
pub mod engine;
pub mod files;
pub mod frames;
pub mod host;
pub mod models_cfg;
pub mod numtext;
pub mod outside;
pub mod parser;
pub mod registry;
pub mod repair;
pub mod scrollback;
pub mod sessions;
pub mod shortcut;
pub mod sse;
pub mod stream;
pub mod suppress;
pub mod terminal;
pub mod types;
pub mod window;
