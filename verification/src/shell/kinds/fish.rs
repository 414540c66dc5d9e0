//! Fish.

use crate::shell::utilities::{escape, escaped, qualify_binary_path};
use crate::shell::Shell;
use crate::text::{replace_char, replaced};
use vstd::prelude::*;

verus! {

/// The friendly interactive shell.
pub struct Fish;

/// The function that wraps the program, so that what it writes is
/// sourced by the shell that called it.
pub open spec fn fish_init(binary: Seq<char>, qualified: Seq<char>) -> Seq<char> {
    "function "@ + binary + "\n  command "@ + qualified + " --shell fish $argv | source\nend\n"@
}

/// The hook that loads the configuration after each change of directory.
pub open spec fn fish_autoload(binary: Seq<char>, autoload_args: Seq<char>) -> Seq<char> {
    "\nfunction _sauce_autoload --on-variable PWD\n  "@ + binary + " --autoload "@ + autoload_args
        + "\nend\n"@
}

impl Shell for Fish {
    open spec fn shell_name(&self) -> Seq<char> {
        "fish"@
    }

    open spec fn init_script(&self, binary: Seq<char>, autoload: bool, default_args: Seq<char>) -> Seq<
        char,
    > {
        if autoload {
            fish_init(binary, binary) + fish_autoload(binary, default_args)
        } else {
            fish_init(binary, binary)
        }
    }

    open spec fn var_setter(&self, var: Seq<char>, value: Seq<char>) -> Seq<char> {
        "set -x "@ + var + " "@ + escaped(value)
    }

    open spec fn var_unsetter(&self, var: Seq<char>) -> Seq<char> {
        "set -e "@ + var
    }

    open spec fn alias_setter(&self, var: Seq<char>, value: Seq<char>) -> Seq<char> {
        "alias "@ + var + " "@ + escaped(value)
    }

    open spec fn alias_unsetter(&self, var: Seq<char>) -> Seq<char> {
        "functions --erase "@ + var
    }

    open spec fn function_setter(&self, var: Seq<char>, value: Seq<char>) -> Seq<char> {
        "function "@ + var + "\n  "@ + replaced(value, '\n', "\n  "@) + "\nend"@
    }

    open spec fn function_unsetter(&self, var: Seq<char>) -> Seq<char> {
        "functions --erase "@ + var
    }

    fn name(&self) -> (r: &'static str) {
        "fish"
    }

    fn init(&self, binary: &str, autoload_hook: bool, autoload_args: &str) -> (r: String) {
        let qualified = qualify_binary_path(binary);
        let mut init = "function ".to_owned();
        init.append(binary);
        init.append("\n  command ");
        init.append(qualified.as_str());
        init.append(" --shell fish $argv | source\nend\n");
        if autoload_hook {
            let mut hook = "\nfunction _sauce_autoload --on-variable PWD\n  ".to_owned();
            hook.append(binary);
            hook.append(" --autoload ");
            hook.append(autoload_args);
            hook.append("\nend\n");
            init.append(hook.as_str());
        }
        init
    }

    fn set_var(&self, var: &str, value: &str) -> (r: String) {
        let mut command = "set -x ".to_owned();
        command.append(var);
        command.append(" ");
        command.append(escape(value).as_str());
        command
    }

    fn set_alias(&self, var: &str, value: &str) -> (r: String) {
        let mut command = "alias ".to_owned();
        command.append(var);
        command.append(" ");
        command.append(escape(value).as_str());
        command
    }

    fn set_function(&self, var: &str, value: &str) -> (r: String) {
        let mut command = "function ".to_owned();
        command.append(var);
        command.append("\n  ");
        command.append(replace_char(value, '\n', "\n  ").as_str());
        command.append("\nend");
        command
    }

    fn unset_var(&self, var: &str) -> (r: String) {
        let mut command = "set -e ".to_owned();
        command.append(var);
        command
    }

    fn unset_alias(&self, var: &str) -> (r: String) {
        let mut command = "functions --erase ".to_owned();
        command.append(var);
        command
    }

    fn unset_function(&self, var: &str) -> (r: String) {
        let mut command = "functions --erase ".to_owned();
        command.append(var);
        command
    }
}

} // verus!
