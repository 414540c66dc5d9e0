//! The command line: its shape and what is read from it.

pub mod shape;
pub mod utilities;
