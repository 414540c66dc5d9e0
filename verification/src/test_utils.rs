//! A shell with the plainest syntax, for trying the commands out.

use crate::output::{Output, OutputView};
use crate::shell::Shell;
use crate::text::appended;
use vstd::prelude::*;

verus! {

/// A shell that writes `export`, `alias` and `function` lines without any
/// quoting.
pub struct TestShell;

impl Shell for TestShell {
    open spec fn shell_name(&self) -> Seq<char> {
        "test"@
    }

    open spec fn init_script(&self, binary: Seq<char>, autoload: bool, default_args: Seq<char>) -> Seq<
        char,
    > {
        if !autoload {
            binary
        } else if default_args.len() == 0 {
            binary + " --autoload"@
        } else {
            binary + " --autoload"@ + " "@ + default_args
        }
    }

    open spec fn var_setter(&self, var: Seq<char>, value: Seq<char>) -> Seq<char> {
        "export "@ + var + "="@ + value
    }

    open spec fn var_unsetter(&self, var: Seq<char>) -> Seq<char> {
        "unset "@ + var
    }

    open spec fn alias_setter(&self, var: Seq<char>, value: Seq<char>) -> Seq<char> {
        "alias "@ + var + "="@ + value
    }

    open spec fn alias_unsetter(&self, var: Seq<char>) -> Seq<char> {
        "unalias "@ + var
    }

    open spec fn function_setter(&self, var: Seq<char>, value: Seq<char>) -> Seq<char> {
        "function "@ + var + "="@ + value
    }

    open spec fn function_unsetter(&self, var: Seq<char>) -> Seq<char> {
        "unset "@ + var
    }

    fn name(&self) -> (r: &'static str) {
        "test"
    }

    fn init(&self, binary: &str, autoload_hook: bool, default_args: &str) -> (r: String) {
        if !autoload_hook {
            binary.to_owned()
        } else {
            let mut command = appended(binary, " --autoload");
            if !default_args.is_empty() {
                command.append(" ");
                command.append(default_args);
            }
            command
        }
    }

    fn set_var(&self, var: &str, value: &str) -> (r: String) {
        let mut command = appended("export ", var);
        command.append("=");
        command.append(value);
        command
    }

    fn set_alias(&self, var: &str, value: &str) -> (r: String) {
        let mut command = appended("alias ", var);
        command.append("=");
        command.append(value);
        command
    }

    fn set_function(&self, var: &str, value: &str) -> (r: String) {
        let mut command = appended("function ", var);
        command.append("=");
        command.append(value);
        command
    }

    fn unset_var(&self, var: &str) -> (r: String) {
        appended("unset ", var)
    }

    fn unset_alias(&self, var: &str) -> (r: String) {
        appended("unalias ", var)
    }

    fn unset_function(&self, var: &str) -> (r: String) {
        appended("unset ", var)
    }
}

/// An output that has gathered nothing, with every switch off.
pub fn setup() -> (output: Output)
    ensures
        output@ == (OutputView {
            out: Seq::empty(),
            err: Seq::empty(),
            color: false,
            quiet: false,
            verbose: false,
            show: false,
            code: None,
        }),
{
    Output::new()
}

} // verus!
