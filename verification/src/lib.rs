//! Per-directory shell configuration.
//!
//! A directory is configured by a TOML file in a tree that mirrors the
//! directories below the home directory, and inherits what the directories
//! above it configure. This crate finds the files of a directory, resolves
//! their content to the environment variables, aliases and functions in
//! force, and writes them as code for a shell.

pub mod cli;
pub mod colors;
pub mod filter;
pub mod layer;
pub mod option;
pub mod ordered;
pub mod output;
pub mod paths;
pub mod resolve;
pub mod saucefile;
pub mod settings;
pub mod shell;
pub mod target;
pub mod test_utils;
pub mod text;
pub mod toml;
