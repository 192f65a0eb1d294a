//! Planning for a clone helper: where a repository goes on disk, which
//! upstream remote it gets, and which commands of the version-control tool
//! bring that about. Nothing here runs a process; the caller executes each
//! command it is handed and reports how it ended.

pub mod command;
pub mod commands;
pub mod config;
pub mod error;
pub mod laws;
pub mod path;
pub mod source;
pub mod text;
pub mod upstream;
