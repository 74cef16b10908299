//! Command-line client library for a distributed peer-to-peer storage network:
//! configuration handling, request construction, listing and status reports,
//! and the decisions taken by each command.

pub mod client;
pub mod commands;
pub mod config;
pub mod display;
pub mod metrics;
pub mod paths;
pub mod text;

pub use config::Config;
