//! A configuration-driven launcher for out-of-tree builds.
//!
//! The library holds every decision the launcher takes: how a configuration
//! document becomes a [`config::Config`], which target and binary a command
//! line selects, and which steps a build or a run consists of. Touching the
//! file system and spawning processes is left to the caller, which performs
//! the steps the library hands out and reports how they ended.

pub mod cli;
pub mod config;
pub mod document;
pub mod error;
pub mod locate;
pub mod parse;
pub mod plan;
pub mod resolve;
pub mod run;
pub mod text;
