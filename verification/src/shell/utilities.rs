//! Quoting, the names of the shells and the colour switch.

use crate::shell::kinds::{Bash, Fish, Zsh};
use crate::shell::Shell;
use crate::text::{appended, same};
use vstd::prelude::*;

verus! {

/// The shells that are known.
#[derive(Debug, Clone, Copy, PartialEq, Eq, Structural)]
pub enum ShellName {
    Zsh,
    Fish,
    Bash,
}

/// When messages are written with colour.
#[derive(Debug, Clone, Copy, PartialEq, Eq, Structural)]
pub enum ColorStrategy {
    Always,
    Never,
    Auto,
}

/// One of the known shells.
pub enum AnyShell {
    Zsh(Zsh),
    Fish(Fish),
    Bash(Bash),
}

/// What `snailquote::escape` makes of a text: the text itself where no
/// quoting is needed, else the text in single or in double quotes.
pub uninterp spec fn shell_quoted(value: Seq<char>) -> Seq<char>;

/// Calls `snailquote::escape`.
#[verifier::external_body]
fn shell_quote(value: &str) -> (r: String)
    ensures
        r@ == shell_quoted(value@),
{
    snailquote::escape(value).to_string()
}

/// The text with each backslash and `n` turned into a line break. A
/// backslash before another character stays, with that character; a
/// backslash at the very end ends the text and is dropped.
pub open spec fn unescaped(s: Seq<char>) -> Seq<char>
    decreases s.len(),
{
    if s.len() == 0 {
        Seq::empty()
    } else if s[0] != '\\' {
        seq![s[0]] + unescaped(s.skip(1))
    } else if s.len() == 1 {
        Seq::empty()
    } else if s[1] == 'n' {
        seq!['\n'] + unescaped(s.skip(2))
    } else {
        seq!['\\', s[1]] + unescaped(s.skip(2))
    }
}

/// A value as it is written in shell code: quoted as needed, with line
/// breaks kept as line breaks.
pub open spec fn escaped(value: Seq<char>) -> Seq<char> {
    unescaped(shell_quoted(value))
}

/// The shell that a name stands for.
pub open spec fn shell_named(s: Seq<char>) -> Option<ShellName> {
    if s == "zsh"@ {
        Some(ShellName::Zsh)
    } else if s == "bash"@ {
        Some(ShellName::Bash)
    } else if s == "fish"@ {
        Some(ShellName::Fish)
    } else {
        None
    }
}

/// The colour switch that a word stands for.
pub open spec fn strategy_named(s: Seq<char>) -> Option<ColorStrategy> {
    if s == "always"@ {
        Some(ColorStrategy::Always)
    } else if s == "never"@ {
        Some(ColorStrategy::Never)
    } else if s == "auto"@ {
        Some(ColorStrategy::Auto)
    } else {
        None
    }
}

/// The complaint about a name that is no shell.
pub open spec fn unknown_shell(s: Seq<char>) -> Seq<char> {
    "Unrecognized shell '"@ + s + "'. Valid options are: zsh, fish, bash"@
}

/// The complaint about a word that is no colour switch.
pub open spec fn unknown_strategy(s: Seq<char>) -> Seq<char> {
    "Unrecognized color value '"@ + s + "'. Valid options are: always, never, auto"@
}

impl ShellName {
    /// The shell that `s` names.
    pub fn parse(s: &str) -> (r: Result<Self, String>)
        ensures
            match r {
                Ok(name) => shell_named(s@) == Some(name),
                Err(e) => shell_named(s@) is None && e@ == unknown_shell(s@),
            },
    {
        if same(s, "zsh") {
            Ok(Self::Zsh)
        } else if same(s, "bash") {
            Ok(Self::Bash)
        } else if same(s, "fish") {
            Ok(Self::Fish)
        } else {
            let mut e = appended("Unrecognized shell '", s);
            e.append("'. Valid options are: zsh, fish, bash");
            Err(e)
        }
    }
}

impl ColorStrategy {
    /// The colour switch that `s` names.
    pub fn parse(s: &str) -> (r: Result<Self, String>)
        ensures
            match r {
                Ok(strategy) => strategy_named(s@) == Some(strategy),
                Err(e) => strategy_named(s@) is None && e@ == unknown_strategy(s@),
            },
    {
        if same(s, "always") {
            Ok(Self::Always)
        } else if same(s, "never") {
            Ok(Self::Never)
        } else if same(s, "auto") {
            Ok(Self::Auto)
        } else {
            let mut e = appended("Unrecognized color value '", s);
            e.append("'. Valid options are: always, never, auto");
            Err(e)
        }
    }
}

impl std::str::FromStr for ShellName {
    type Err = String;

    /// The shell that `s` names, as `parse` gives it.
    fn from_str(s: &str) -> (r: Result<Self, String>)
        ensures
            match r {
                Ok(name) => shell_named(s@) == Some(name),
                Err(e) => shell_named(s@) is None && e@ == unknown_shell(s@),
            },
    {
        ShellName::parse(s)
    }
}

impl std::str::FromStr for ColorStrategy {
    type Err = String;

    /// The colour switch that `s` names, as `parse` gives it.
    fn from_str(s: &str) -> (r: Result<Self, String>)
        ensures
            match r {
                Ok(strategy) => strategy_named(s@) == Some(strategy),
                Err(e) => strategy_named(s@) is None && e@ == unknown_strategy(s@),
            },
    {
        ColorStrategy::parse(s)
    }
}

/// What is left of `s` from `from` on unescapes to what the whole
/// unescapes to, less what was written already.
proof fn lemma_unescaped_step(s: Seq<char>, i: int)
    requires
        0 <= i < s.len(),
    ensures
        s[i] != '\\' ==> unescaped(s.skip(i)) == seq![s[i]] + unescaped(s.skip(i + 1)),
        s[i] == '\\' && i + 1 == s.len() ==> unescaped(s.skip(i)) == Seq::<char>::empty(),
        s[i] == '\\' && i + 1 < s.len() && s[i + 1] == 'n' ==> unescaped(s.skip(i)) == seq!['\n']
            + unescaped(s.skip(i + 2)),
        s[i] == '\\' && i + 1 < s.len() && s[i + 1] != 'n' ==> unescaped(s.skip(i)) == seq![
            '\\',
            s[i + 1],
        ] + unescaped(s.skip(i + 2)),
{
    let rest = s.skip(i);
    assert(rest.skip(1) =~= s.skip(i + 1));
    if i + 1 < s.len() {
        assert(rest.skip(2) =~= s.skip(i + 2));
    }
}

/// Turns each backslash and `n` into a line break.
pub fn unescape_newline(s: &str) -> (out: String)
    ensures
        out@ == unescaped(s@),
{
    let chars = crate::text::chars_of(s);
    let mut out = String::new();
    let mut i: usize = 0;
    proof {
        assert(s@.skip(0) =~= s@);
    }
    while i < chars.len()
        invariant
            i <= chars@.len(),
            chars@ == s@,
            out@ + unescaped(s@.skip(i as int)) == unescaped(s@),
        decreases chars@.len() - i,
    {
        let c = chars[i];
        proof {
            lemma_unescaped_step(s@, i as int);
        }
        if c != '\\' {
            out.push(c);
            i += 1;
        } else if i + 1 == chars.len() {
            i += 1;
        } else {
            let next = chars[i + 1];
            if next == 'n' {
                out.push('\n');
            } else {
                out.push('\\');
                out.push(next);
            }
            i += 2;
        }
    }
    out
}

/// A value as it is written in shell code.
pub fn escape(value: &str) -> (r: String)
    ensures
        r@ == escaped(value@),
{
    let shell_value = shell_quote(value);
    unescape_newline(shell_value.as_str())
}

/// The name under which the program is called.
pub fn get_binary() -> (r: String)
    ensures
        r@ == "sauce"@,
{
    "sauce".to_owned()
}

/// The path under which the program is found: its name.
pub fn qualify_binary_path(binary: &str) -> (r: String)
    ensures
        r@ == binary@,
{
    binary.to_owned()
}

/// The shell of a name.
pub fn detect(shell_name: ShellName) -> (shell: AnyShell)
    ensures
        match shell_name {
            ShellName::Zsh => shell is Zsh,
            ShellName::Fish => shell is Fish,
            ShellName::Bash => shell is Bash,
        },
{
    match shell_name {
        ShellName::Zsh => AnyShell::Zsh(Zsh {  }),
        ShellName::Fish => AnyShell::Fish(Fish {  }),
        ShellName::Bash => AnyShell::Bash(Bash {  }),
    }
}

/// Whether messages are written with colour. Left to itself, colour is
/// used on a terminal unless `NO_COLOR` is set.
pub fn should_be_colored(strategy: ColorStrategy, stderr_is_terminal: bool, no_color_is_set: bool) -> (r: bool)
    ensures
        r == match strategy {
            ColorStrategy::Always => true,
            ColorStrategy::Never => false,
            ColorStrategy::Auto => stderr_is_terminal && !no_color_is_set,
        },
{
    match strategy {
        ColorStrategy::Always => true,
        ColorStrategy::Never => false,
        ColorStrategy::Auto => {
            if stderr_is_terminal {
                !no_color_is_set
            } else {
                false
            }
        },
    }
}

impl Shell for AnyShell {
    open spec fn shell_name(&self) -> Seq<char> {
        match self {
            AnyShell::Zsh(s) => s.shell_name(),
            AnyShell::Fish(s) => s.shell_name(),
            AnyShell::Bash(s) => s.shell_name(),
        }
    }

    open spec fn init_script(&self, binary: Seq<char>, autoload: bool, default_args: Seq<char>) -> Seq<
        char,
    > {
        match self {
            AnyShell::Zsh(s) => s.init_script(binary, autoload, default_args),
            AnyShell::Fish(s) => s.init_script(binary, autoload, default_args),
            AnyShell::Bash(s) => s.init_script(binary, autoload, default_args),
        }
    }

    open spec fn var_setter(&self, var: Seq<char>, value: Seq<char>) -> Seq<char> {
        match self {
            AnyShell::Zsh(s) => s.var_setter(var, value),
            AnyShell::Fish(s) => s.var_setter(var, value),
            AnyShell::Bash(s) => s.var_setter(var, value),
        }
    }

    open spec fn var_unsetter(&self, var: Seq<char>) -> Seq<char> {
        match self {
            AnyShell::Zsh(s) => s.var_unsetter(var),
            AnyShell::Fish(s) => s.var_unsetter(var),
            AnyShell::Bash(s) => s.var_unsetter(var),
        }
    }

    open spec fn alias_setter(&self, var: Seq<char>, value: Seq<char>) -> Seq<char> {
        match self {
            AnyShell::Zsh(s) => s.alias_setter(var, value),
            AnyShell::Fish(s) => s.alias_setter(var, value),
            AnyShell::Bash(s) => s.alias_setter(var, value),
        }
    }

    open spec fn alias_unsetter(&self, var: Seq<char>) -> Seq<char> {
        match self {
            AnyShell::Zsh(s) => s.alias_unsetter(var),
            AnyShell::Fish(s) => s.alias_unsetter(var),
            AnyShell::Bash(s) => s.alias_unsetter(var),
        }
    }

    open spec fn function_setter(&self, var: Seq<char>, value: Seq<char>) -> Seq<char> {
        match self {
            AnyShell::Zsh(s) => s.function_setter(var, value),
            AnyShell::Fish(s) => s.function_setter(var, value),
            AnyShell::Bash(s) => s.function_setter(var, value),
        }
    }

    open spec fn function_unsetter(&self, var: Seq<char>) -> Seq<char> {
        match self {
            AnyShell::Zsh(s) => s.function_unsetter(var),
            AnyShell::Fish(s) => s.function_unsetter(var),
            AnyShell::Bash(s) => s.function_unsetter(var),
        }
    }

    fn name(&self) -> (r: &'static str) {
        match self {
            AnyShell::Zsh(s) => s.name(),
            AnyShell::Fish(s) => s.name(),
            AnyShell::Bash(s) => s.name(),
        }
    }

    fn init(&self, binary: &str, autoload: bool, default_args: &str) -> (r: String) {
        match self {
            AnyShell::Zsh(s) => s.init(binary, autoload, default_args),
            AnyShell::Fish(s) => s.init(binary, autoload, default_args),
            AnyShell::Bash(s) => s.init(binary, autoload, default_args),
        }
    }

    fn set_var(&self, var: &str, value: &str) -> (r: String) {
        match self {
            AnyShell::Zsh(s) => s.set_var(var, value),
            AnyShell::Fish(s) => s.set_var(var, value),
            AnyShell::Bash(s) => s.set_var(var, value),
        }
    }

    fn unset_var(&self, var: &str) -> (r: String) {
        match self {
            AnyShell::Zsh(s) => s.unset_var(var),
            AnyShell::Fish(s) => s.unset_var(var),
            AnyShell::Bash(s) => s.unset_var(var),
        }
    }

    fn set_alias(&self, var: &str, value: &str) -> (r: String) {
        match self {
            AnyShell::Zsh(s) => s.set_alias(var, value),
            AnyShell::Fish(s) => s.set_alias(var, value),
            AnyShell::Bash(s) => s.set_alias(var, value),
        }
    }

    fn unset_alias(&self, var: &str) -> (r: String) {
        match self {
            AnyShell::Zsh(s) => s.unset_alias(var),
            AnyShell::Fish(s) => s.unset_alias(var),
            AnyShell::Bash(s) => s.unset_alias(var),
        }
    }

    fn set_function(&self, var: &str, value: &str) -> (r: String) {
        match self {
            AnyShell::Zsh(s) => s.set_function(var, value),
            AnyShell::Fish(s) => s.set_function(var, value),
            AnyShell::Bash(s) => s.set_function(var, value),
        }
    }

    fn unset_function(&self, var: &str) -> (r: String) {
        match self {
            AnyShell::Zsh(s) => s.unset_function(var),
            AnyShell::Fish(s) => s.unset_function(var),
            AnyShell::Bash(s) => s.unset_function(var),
        }
    }
}

} // verus!
