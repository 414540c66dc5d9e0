use sauce::shell::utilities::{escape, get_binary, qualify_binary_path, unescape_newline};
use sauce::shell::{detect, should_be_colored, Bash, ColorStrategy, Fish, Shell, ShellName, Zsh};
use sauce::test_utils::TestShell;

#[test]
fn bash_it_edits_path() {
    let shell = Bash {};
    let output = shell.edit(Some("foo"), "foo/bar");
    assert_eq!(output, Some(r#"foo 'foo/bar'"#.to_string()));
}

#[test]
fn bash_it_defaults() {
    let shell = Bash {};
    let output = shell.init("foo", false, "");
    assert_eq!(
        output,
        "function foo {\n  eval \"$(command foo --shell bash \"$@\")\"\n}\n"
    );
}

#[test]
fn it_autoloads() {
    let shell = Bash {};
    let output = shell.init("foo", true, "");
    assert_eq!(output.contains("--autoload"), true);
}

#[test]
fn bash_it_works() {
    let shell = Bash {};
    let output = shell.set_var("foo", "bar");
    assert_eq!(output, "export foo=bar");
    let output = shell.set_alias("foo", "bar");
    assert_eq!(output, "alias foo=bar");
    let output = shell.set_function("foo", "bar");
    assert_eq!(output, "function foo {\n  bar\n}");
    let output = shell.unset_var("foo");
    assert_eq!(output, "unset foo");
    let output = shell.unset_alias("foo");
    assert_eq!(output, "unalias foo 2>/dev/null");
    let output = shell.unset_function("foo");
    assert_eq!(output, "unset -f foo");
}

#[test]
fn fish_it_edits_path() {
    let shell = Fish {};
    let output = shell.edit(Some("foo"), "foo/bar");
    assert_eq!(output, Some(r#"foo 'foo/bar'"#.to_string()));
}

#[test]
fn fish_it_defaults() {
    let shell = Fish {};
    let output = shell.init("foo", false, "");
    assert_eq!(
        output,
        "function foo\n  command foo --shell fish $argv | source\nend\n"
    );
}

#[test]
fn fish_it_includes_autoload() {
    let shell = Fish {};
    let output = shell.init("foo", true, "");
    assert_eq!(output.contains("--autoload"), true);
}

#[test]
fn fish_it_works() {
    let shell = Fish {};
    let output = shell.set_var("foo", "bar");
    assert_eq!(output, "set -x foo bar");
    let output = shell.set_alias("foo", "bar");
    assert_eq!(output, "alias foo bar");
    let output = shell.set_function("foo", "bar");
    assert_eq!(output, "function foo\n  bar\nend");
    let output = shell.unset_var("foo");
    assert_eq!(output, "set -e foo");
    let output = shell.unset_alias("foo");
    assert_eq!(output, "functions --erase foo");
    let output = shell.unset_function("foo");
    assert_eq!(output, "functions --erase foo");
}

#[test]
fn zsh_it_edits_path() {
    let shell = Zsh {};
    let output = shell.edit(Some("foo"), "foo/bar");
    assert_eq!(output, Some(r#"foo 'foo/bar'"#.to_string()));
}

#[test]
fn zsh_it_defaults() {
    let shell = Zsh {};
    let output = shell.init("foo", false, "");
    assert_eq!(
        output,
        "function foo {\n  eval \"$(command foo --shell zsh \"$@\")\"\n}\n"
    );
}

#[test]
fn zsh_it_includes_autoload() {
    let shell = Zsh {};
    let output = shell.init("foo", true, "");
    assert_eq!(output.contains("--autoload"), true);
}

#[test]
fn zsh_it_works() {
    let shell = Zsh {};
    let output = shell.set_var("foo", "bar");
    assert_eq!(output, "export foo=bar");
    let output = shell.set_alias("foo", "bar");
    assert_eq!(output, "alias foo=bar");
    let output = shell.set_function("foo", "bar");
    assert_eq!(output, "function foo {\n  bar\n}");
    let output = shell.unset_var("foo");
    assert_eq!(output, "unset foo");
    let output = shell.unset_alias("foo");
    assert_eq!(output, "unalias foo 2>/dev/null");
    let output = shell.unset_function("foo");
    assert_eq!(output, "unset -f foo");
}

#[test]
fn it_leaves_vanilla_string_unchanged() {
    let result = escape("foo");
    assert_eq!(result, "foo");
}

#[test]
fn it_single_quotes_spaces() {
    let result = escape("foo bar");
    assert_eq!(result, "'foo bar'");
}

#[test]
fn it_double_quotes_single_quotes() {
    let result = escape("foo'bar");
    assert_eq!(result, "\"foo'bar\"");
}

#[test]
fn it_double_quotes_newlines() {
    let result = escape("foo\nbar");
    assert_eq!(result, "\"foo\nbar\"");
}

#[test]
fn it_doesnt_unescape_escaped_newlines() {
    let result = escape("foo\\nbar");
    assert_eq!(result, "\"foo\\\\nbar\"");
}

#[test]
fn unescape_newline_turns_backslash_n_into_a_line_break() {
    assert_eq!(unescape_newline(""), "");
    assert_eq!(unescape_newline("plain"), "plain");
    assert_eq!(unescape_newline("a\\nb"), "a\nb");
    assert_eq!(unescape_newline("a\\tb"), "a\\tb");
    assert_eq!(unescape_newline("a\\\\nb"), "a\\\\nb");
    assert_eq!(unescape_newline("a\\"), "a");
    assert_eq!(unescape_newline("\\n\\n"), "\n\n");
    assert_eq!(unescape_newline("é\\né"), "é\né");
}

#[test]
fn functions_are_indented_line_by_line() {
    assert_eq!(
        Bash {}.set_function("meow", "echo a\necho b"),
        "function meow {\n  echo a\n  echo b\n}"
    );
    assert_eq!(
        Zsh {}.set_function("meow", "echo \"$@\""),
        "function meow {\n  echo \"$@\"\n}"
    );
    assert_eq!(
        Fish {}.set_function("meow", "echo a\necho b"),
        "function meow\n  echo a\n  echo b\nend"
    );
}

#[test]
fn values_are_quoted_where_needed() {
    assert_eq!(Bash {}.set_var("A", "b c"), "export A='b c'");
    assert_eq!(Zsh {}.set_alias("A", "it's"), "alias A=\"it's\"");
    assert_eq!(Fish {}.set_var("A", "$HOME"), "set -x A '$HOME'");
}

#[test]
fn files_are_written_and_removed() {
    assert_eq!(Bash {}.set_file("a b", "text"), "printf 'text' > 'a b'");
    assert_eq!(Bash {}.unset_file("a"), "rm 'a'");
    assert_eq!(TestShell {}.unset_file("a b"), "rm ''a b''");
}

#[test]
fn edit_needs_an_editor() {
    assert_eq!(Bash {}.edit(None, "foo/bar"), None);
    assert_eq!(TestShell {}.edit(Some("vi"), "x"), Some("vi 'x'".to_string()));
}

#[test]
fn autoload_hooks_call_the_binary() {
    assert_eq!(
        Bash {}.init("foo", true, "--quiet"),
        "function foo {\n  eval \"$(command foo --shell bash \"$@\")\"\n}\n\nfunction cd {\n  builtin cd \"$@\" && foo --autoload --quiet\n}\n"
    );
    assert_eq!(
        Zsh {}.init("foo", true, "--quiet"),
        "function foo {\n  eval \"$(command foo --shell zsh \"$@\")\"\n}\n\nfunction _sauce_autoload {\n  foo --autoload --quiet\n}\n\nautoload -Uz add-zsh-hook\nadd-zsh-hook chpwd _sauce_autoload\n"
    );
    assert_eq!(
        Fish {}.init("foo", true, "--quiet"),
        "function foo\n  command foo --shell fish $argv | source\nend\n\nfunction _sauce_autoload --on-variable PWD\n  foo --autoload --quiet\nend\n"
    );
}

#[test]
fn shell_names_are_parsed() {
    assert_eq!(ShellName::parse("zsh"), Ok(ShellName::Zsh));
    assert_eq!(ShellName::parse("bash"), Ok(ShellName::Bash));
    assert_eq!(ShellName::parse("fish"), Ok(ShellName::Fish));
    assert_eq!(
        ShellName::parse("csh"),
        Err("Unrecognized shell 'csh'. Valid options are: zsh, fish, bash".to_string())
    );
    assert_eq!("fish".parse::<ShellName>(), Ok(ShellName::Fish));
    assert_eq!(
        "".parse::<ShellName>(),
        Err("Unrecognized shell ''. Valid options are: zsh, fish, bash".to_string())
    );
}

#[test]
fn color_strategies_are_parsed() {
    assert_eq!(ColorStrategy::parse("always"), Ok(ColorStrategy::Always));
    assert_eq!(ColorStrategy::parse("never"), Ok(ColorStrategy::Never));
    assert_eq!(ColorStrategy::parse("auto"), Ok(ColorStrategy::Auto));
    assert_eq!(
        ColorStrategy::parse("maybe"),
        Err(
            "Unrecognized color value 'maybe'. Valid options are: always, never, auto"
                .to_string()
        )
    );
    assert_eq!("never".parse::<ColorStrategy>(), Ok(ColorStrategy::Never));
}

#[test]
fn colour_follows_the_strategy() {
    assert_eq!(should_be_colored(ColorStrategy::Always, false, true), true);
    assert_eq!(should_be_colored(ColorStrategy::Never, true, false), false);
    assert_eq!(should_be_colored(ColorStrategy::Auto, true, false), true);
    assert_eq!(should_be_colored(ColorStrategy::Auto, true, true), false);
    assert_eq!(should_be_colored(ColorStrategy::Auto, false, false), false);
}

#[test]
fn detect_gives_the_named_shell() {
    assert_eq!(detect(ShellName::Zsh).name(), "zsh");
    assert_eq!(detect(ShellName::Fish).name(), "fish");
    assert_eq!(detect(ShellName::Bash).name(), "bash");
    assert_eq!(detect(ShellName::Fish).set_var("a", "b"), "set -x a b");
    assert_eq!(detect(ShellName::Bash).unset_alias("a"), "unalias a 2>/dev/null");
    assert_eq!(TestShell {}.name(), "test");
}

#[test]
fn the_binary_is_called_by_its_name() {
    assert_eq!(get_binary(), "sauce");
    assert_eq!(qualify_binary_path("sauce"), "sauce");
}

#[test]
fn test_shell_init_lists_the_arguments() {
    assert_eq!(TestShell {}.init("sauce", false, "--quiet"), "sauce");
    assert_eq!(TestShell {}.init("sauce", true, ""), "sauce --autoload");
    assert_eq!(
        TestShell {}.init("sauce", true, "--quiet"),
        "sauce --autoload --quiet"
    );
}
