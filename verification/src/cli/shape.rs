//! The shape of the command line.

use crate::shell::{ColorStrategy, ShellName};
use vstd::prelude::*;

verus! {

/// The options of the program.
#[derive(Debug)]
pub struct CliOptions {
    /// The shell that what is put out is written for.
    pub shell: ShellName,
    /// Set while the directory is entered, not by a user.
    pub autoload: bool,
    /// Show what would be put out or changed, and change nothing.
    pub show: bool,
    /// When messages are written with colour.
    pub color: ColorStrategy,
    /// Repeat on standard error what goes to standard output.
    pub verbose: bool,
    /// Give no messages.
    pub quiet: bool,
    /// The directory to configure, in place of the current one.
    pub path: Option<String>,
    /// The one file to load, in place of those found for the directory.
    pub file: Option<String>,
    /// The tags to resolve tagged values under.
    pub as_: Option<Vec<String>>,
    /// The glob filters, a comma-separated list.
    pub glob: Option<String>,
    /// The one target to use values of.
    pub target: Option<String>,
    /// The literal filters, a comma-separated list.
    pub filter: Option<String>,
    pub subcmd: Option<SubCommand>,
}

/// What the program is asked to do.
#[derive(Debug)]
pub enum SubCommand {
    /// Clears the shell of the values that are tracked.
    Clear,
    /// Sets local or global settings.
    Config(ConfigCommand),
    /// Opens the file of the directory in the editor.
    Edit,
    /// Moves the file of the directory to that of another directory.
    Move(MoveCommand),
    /// Makes the file of the directory.
    New,
    /// Sets values for the directory.
    SetValues(SetCommand),
    /// The commands about the shell itself.
    Shell(ShellCommand),
    /// Shows the values of one kind.
    Show(ShowCommand),
}

/// The settings to set, for the directory or for all directories.
#[derive(Debug)]
pub struct ConfigCommand {
    pub global: bool,
    pub values: Vec<(String, String)>,
}

/// Where the file of the directory is moved to.
#[derive(Debug)]
pub struct MoveCommand {
    /// The directory that the configuration is to belong to.
    pub destination: String,
    /// Leave the file of the source where it is.
    pub copy: bool,
}

/// The values to set for the directory.
#[derive(Debug)]
pub struct SetCommand {
    pub kind: SetKinds,
}

/// The kinds of values that can be set.
#[derive(Debug)]
pub enum SetKinds {
    Env(SetVarKind),
    Alias(SetVarKind),
    Function(KeyValuePair),
    File(KeyValuePair),
}

/// Key-value pairs, each given as `KEY=value`.
#[derive(Debug)]
pub struct SetVarKind {
    pub values: Vec<(String, String)>,
}

/// A key and a value, given as two arguments.
#[derive(Debug)]
pub struct KeyValuePair {
    pub key: String,
    pub value: String,
}

/// A command about the shell itself.
#[derive(Debug)]
pub struct ShellCommand {
    pub kind: ShellKinds,
}

/// The commands about the shell itself.
#[derive(Debug)]
pub enum ShellKinds {
    /// The code that makes the program known to the shell.
    Init,
    /// Runs a command in a shell that has the directory's values.
    Exec(ExecCommand),
}

/// The command to run in a shell that has the directory's values.
#[derive(Debug)]
pub struct ExecCommand {
    pub command: String,
}

/// The kind of values to show.
#[derive(Debug)]
pub struct ShowCommand {
    pub kind: ShowKinds,
}

/// The kinds of values that can be shown.
#[derive(Debug, Clone, Copy, PartialEq, Eq, Structural)]
pub enum ShowKinds {
    Env,
    Alias,
    Function,
    File,
}

impl CliOptions {
    /// The tag that tagged values are resolved under: the first of those
    /// given. Further tags are not consulted.
    pub fn active_tag(&self) -> (tag: Option<&str>)
        ensures
            match self.as_ {
                Some(tags) => if tags@.len() > 0 {
                    tag is Some && tag.unwrap()@ == tags@[0]@
                } else {
                    tag is None
                },
                None => tag is None,
            },
    {
        match &self.as_ {
            Some(tags) => {
                if tags.len() > 0 {
                    Some(tags[0].as_str())
                } else {
                    None
                }
            },
            None => None,
        }
    }
}

} // verus!
