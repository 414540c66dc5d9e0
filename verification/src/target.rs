//! The kinds of things that a directory can configure.

use vstd::prelude::*;

verus! {

/// What a command shows or sets.
#[derive(Debug, Clone, Copy, PartialEq, Eq, Structural)]
pub enum Target {
    EnvVar,
    Alias,
    Function,
    File,
}

} // verus!
