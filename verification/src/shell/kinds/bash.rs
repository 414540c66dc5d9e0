//! Bash.

use crate::shell::utilities::{escape, escaped, qualify_binary_path};
use crate::shell::Shell;
use crate::text::{replace_char, replaced};
use vstd::prelude::*;

verus! {

/// The Bourne-again shell.
pub struct Bash;

/// The function that wraps the program, so that what it writes is
/// evaluated by the shell that called it.
pub open spec fn bash_init(binary: Seq<char>, qualified: Seq<char>) -> Seq<char> {
    "function "@ + binary + " {\n  eval \"$(command "@ + qualified
        + " --shell bash \"$@\")\"\n}\n"@
}

/// The hook that loads the configuration after each change of directory.
pub open spec fn bash_autoload(binary: Seq<char>, autoload_args: Seq<char>) -> Seq<char> {
    "\nfunction cd {\n  builtin cd \"$@\" && "@ + binary + " --autoload "@ + autoload_args
        + "\n}\n"@
}

impl Shell for Bash {
    open spec fn shell_name(&self) -> Seq<char> {
        "bash"@
    }

    open spec fn init_script(&self, binary: Seq<char>, autoload: bool, default_args: Seq<char>) -> Seq<
        char,
    > {
        if autoload {
            bash_init(binary, binary) + bash_autoload(binary, default_args)
        } else {
            bash_init(binary, binary)
        }
    }

    open spec fn var_setter(&self, var: Seq<char>, value: Seq<char>) -> Seq<char> {
        "export "@ + var + "="@ + escaped(value)
    }

    open spec fn var_unsetter(&self, var: Seq<char>) -> Seq<char> {
        "unset "@ + var
    }

    open spec fn alias_setter(&self, var: Seq<char>, value: Seq<char>) -> Seq<char> {
        "alias "@ + var + "="@ + escaped(value)
    }

    open spec fn alias_unsetter(&self, var: Seq<char>) -> Seq<char> {
        "unalias "@ + var + " 2>/dev/null"@
    }

    open spec fn function_setter(&self, var: Seq<char>, value: Seq<char>) -> Seq<char> {
        "function "@ + var + " {\n  "@ + replaced(value, '\n', "\n  "@) + "\n}"@
    }

    open spec fn function_unsetter(&self, var: Seq<char>) -> Seq<char> {
        "unset -f "@ + var
    }

    fn name(&self) -> (r: &'static str) {
        "bash"
    }

    fn init(&self, binary: &str, autoload_hook: bool, autoload_args: &str) -> (r: String) {
        let qualified = qualify_binary_path(binary);
        let mut init = "function ".to_owned();
        init.append(binary);
        init.append(" {\n  eval \"$(command ");
        init.append(qualified.as_str());
        init.append(" --shell bash \"$@\")\"\n}\n");
        if autoload_hook {
            let mut hook = "\nfunction cd {\n  builtin cd \"$@\" && ".to_owned();
            hook.append(binary);
            hook.append(" --autoload ");
            hook.append(autoload_args);
            hook.append("\n}\n");
            init.append(hook.as_str());
        }
        init
    }

    fn set_var(&self, var: &str, value: &str) -> (r: String) {
        let mut command = "export ".to_owned();
        command.append(var);
        command.append("=");
        command.append(escape(value).as_str());
        command
    }

    fn set_alias(&self, var: &str, value: &str) -> (r: String) {
        let mut command = "alias ".to_owned();
        command.append(var);
        command.append("=");
        command.append(escape(value).as_str());
        command
    }

    fn set_function(&self, var: &str, value: &str) -> (r: String) {
        let mut command = "function ".to_owned();
        command.append(var);
        command.append(" {\n  ");
        command.append(replace_char(value, '\n', "\n  ").as_str());
        command.append("\n}");
        command
    }

    fn unset_var(&self, var: &str) -> (r: String) {
        let mut command = "unset ".to_owned();
        command.append(var);
        command
    }

    fn unset_alias(&self, var: &str) -> (r: String) {
        let mut command = "unalias ".to_owned();
        command.append(var);
        command.append(" 2>/dev/null");
        command
    }

    fn unset_function(&self, var: &str) -> (r: String) {
        let mut command = "unset -f ".to_owned();
        command.append(var);
        command
    }
}

} // verus!
