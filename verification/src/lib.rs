//! A verified launcher core: it parses a small TOML configuration,
//! synthesizes the platform-specific shell commands that create, update
//! and activate a managed environment, and drives the three commands
//! through a sequential state machine with a precise logging policy.

pub mod commands;
pub mod config;
pub mod pipeline;
mod toml_io;
