//! Codex Session Control: the verified core of the local session-control
//! service for the community Codex Desktop build.

pub mod error;
pub mod paths;
pub mod text;
pub mod version;
pub mod cli;
pub mod cli_output;
pub mod app_server;
pub mod diagnostics;
pub mod install;
pub mod desktop;
