//! The shells that commands are written for.

pub mod actions;
pub mod context;
pub mod kinds;
pub mod utilities;

use crate::shell::utilities::{escape, escaped};
use vstd::prelude::*;

pub use kinds::{Bash, Fish, Zsh};
pub use utilities::{detect, should_be_colored, AnyShell, ColorStrategy, ShellName};

verus! {

/// The command that opens `path` in `editor`.
pub open spec fn edit_command(editor: Seq<char>, path: Seq<char>) -> Seq<char> {
    editor + " '"@ + path + "'"@
}

/// The command that writes `value` to the file `var`.
pub open spec fn file_setter(var: Seq<char>, value: Seq<char>) -> Seq<char> {
    "printf '"@ + value + "' > "@ + escaped(var)
}

/// The command that removes the file `var`.
pub open spec fn file_unsetter(var: Seq<char>) -> Seq<char> {
    "rm '"@ + escaped(var) + "'"@
}

/// What a shell writes for each thing that can be set or unset. Each
/// method has a spec function that says what it writes.
pub trait Shell {
    spec fn shell_name(&self) -> Seq<char>;

    spec fn init_script(&self, binary: Seq<char>, autoload: bool, default_args: Seq<char>) -> Seq<
        char,
    >;

    spec fn var_setter(&self, var: Seq<char>, value: Seq<char>) -> Seq<char>;

    spec fn var_unsetter(&self, var: Seq<char>) -> Seq<char>;

    spec fn alias_setter(&self, var: Seq<char>, value: Seq<char>) -> Seq<char>;

    spec fn alias_unsetter(&self, var: Seq<char>) -> Seq<char>;

    spec fn function_setter(&self, var: Seq<char>, value: Seq<char>) -> Seq<char>;

    spec fn function_unsetter(&self, var: Seq<char>) -> Seq<char>;

    fn name(&self) -> (r: &'static str)
        ensures
            r@ == self.shell_name(),
    ;

    /// The command that opens `path` in the editor, where one is set.
    fn edit(&self, editor: Option<&str>, path: &str) -> (r: Option<String>)
        ensures
            match editor {
                Some(e) => r is Some && r.unwrap()@ == edit_command(e@, path@),
                None => r is None,
            },
    {
        match editor {
            Some(e) => {
                let mut command = e.to_owned();
                command.append(" '");
                command.append(path);
                command.append("'");
                Some(command)
            },
            None => None,
        }
    }

    fn init(&self, binary: &str, autoload: bool, default_args: &str) -> (r: String)
        ensures
            r@ == self.init_script(binary@, autoload, default_args@),
    ;

    fn set_var(&self, var: &str, value: &str) -> (r: String)
        ensures
            r@ == self.var_setter(var@, value@),
    ;

    fn unset_var(&self, var: &str) -> (r: String)
        ensures
            r@ == self.var_unsetter(var@),
    ;

    fn set_alias(&self, var: &str, value: &str) -> (r: String)
        ensures
            r@ == self.alias_setter(var@, value@),
    ;

    fn unset_alias(&self, var: &str) -> (r: String)
        ensures
            r@ == self.alias_unsetter(var@),
    ;

    fn set_function(&self, var: &str, value: &str) -> (r: String)
        ensures
            r@ == self.function_setter(var@, value@),
    ;

    fn unset_function(&self, var: &str) -> (r: String)
        ensures
            r@ == self.function_unsetter(var@),
    ;

    fn set_file(&self, var: &str, value: &str) -> (r: String)
        ensures
            r@ == file_setter(var@, value@),
    {
        let mut command = "printf '".to_owned();
        command.append(value);
        command.append("' > ");
        command.append(escape(var).as_str());
        command
    }

    fn unset_file(&self, var: &str) -> (r: String)
        ensures
            r@ == file_unsetter(var@),
    {
        let mut command = "rm '".to_owned();
        command.append(escape(var).as_str());
        command.append("'");
        command
    }
}

} // verus!
