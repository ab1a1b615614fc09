//! Tool-invocation and output-parsing layer for a desktop front end over
//! the Android platform tools: executable discovery with a fixed fallback
//! order, an injection-safe guard for shell passthrough arguments,
//! per-operation command builders, and parsers that turn the tools'
//! textual output into structured results.

pub mod badge;
pub mod commands;
pub mod composite;
pub mod devices;
pub mod guard;
pub mod payload;
pub mod resolver;
pub mod runner;
pub mod text;
