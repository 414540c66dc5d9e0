use sauce::filter::FilterOptions;
use sauce::output::Output;
use sauce::saucefile::Saucefile;
use sauce::settings::Settings;
use sauce::shell::actions::{
    clear, edit, execute, init, init_shell, put_out_values, render_items, show,
    subshell_arguments, table_data,
    table_header, table_preset, target_sections, Row,
};
use sauce::paths::PathMirror;
use sauce::shell::context;
use sauce::shell::context::materialize_path_message;
use sauce::shell::{Bash, Zsh};
use sauce::target::Target;
use sauce::test_utils::{setup, TestShell};

fn with_document(toml: &str) -> Saucefile {
    let mut saucefile = Saucefile::default();
    saucefile.document = toml.parse().expect("invalid doc");
    saucefile
}

#[test]
fn it_respects_editor_env_var_zsh() {
    let mut output = setup();

    let shell = TestShell {};
    edit(&mut output, &shell, Some("edit"), "foo/bar");

    assert_eq!(output.result(), "edit 'foo/bar'\n");
    assert_eq!(output.message(), "Opening foo/bar\n");
}

#[test]
fn edit_without_an_editor_says_how_to_set_one() {
    let mut output = setup();
    edit(&mut output, &Zsh {}, None, "foo/bar");
    assert_eq!(output.result(), "");
    assert_eq!(
        output.message(),
        "Opening foo/bar\nset $EDITOR to enable this command\n"
    );
}

#[test]
fn actions_it_defaults() {
    let mut output = setup();
    let shell = TestShell {};
    init(&mut output, &shell, false);

    assert_eq!(output.result(), "sauce\n");
    assert_eq!(output.message(), "");
}

#[test]
fn it_emits_autoload() {
    let mut output = setup();
    let shell = TestShell {};

    init(&mut output, &shell, true);

    assert_eq!(output.result(), "sauce --autoload\n");
    assert_eq!(output.message(), "");
}

#[test]
fn it_clears() {
    let shell = TestShell {};
    let mut output = setup();
    let saucefile = with_document(
        "[environment]\nvar = \"varvalue\"\n[alias]\nalias = \"aliasvalue\"\n[function]\nfn = \"fnvalue\"\n",
    );

    clear(
        &mut output,
        &shell,
        &saucefile,
        &Settings::default(),
        &FilterOptions::default(),
    );

    assert_eq!(
        output.result(),
        "unset var;\n\nunalias alias;\n\nunset fn;\n\n"
    );
    assert_eq!(output.message(), "Cleared your sauce\n");
}

#[test]
fn it_shows_env_vars() {
    let mut output = setup();
    let saucefile = with_document("[environment]\nvar = \"varvalue\"\n");

    show(
        &mut output,
        &FilterOptions::default(),
        Target::EnvVar,
        &saucefile,
    );

    assert_eq!(output.result(), "");
    assert_eq!(
        output.message(),
        "┌──────────┬──────────┐\n│ Variable │ Value    │\n╞══════════╪══════════╡\n│ var      │ varvalue │\n└──────────┴──────────┘\n"
    );
}

#[test]
fn it_shows_aliases() {
    let mut output = setup();
    let saucefile = with_document("[alias]\nalias = \"aliasvalue\"\n");

    show(
        &mut output,
        &FilterOptions::default(),
        Target::Alias,
        &saucefile,
    );

    assert_eq!(output.result(), "");
    assert_eq!(
        output.message(),
        "┌───────┬────────────┐\n│ Alias │ Value      │\n╞═══════╪════════════╡\n│ alias │ aliasvalue │\n└───────┴────────────┘\n"
    );
}

#[test]
fn it_shows_functions() {
    let mut output = setup();
    let saucefile = with_document("[function]\nfunction = \"git add\\ngit commit\"\n");

    show(
        &mut output,
        &FilterOptions::default(),
        Target::Function,
        &saucefile,
    );

    assert_eq!(output.result(), "");
    assert_eq!(
        output.message(),
        "┌──────────┬────────────┐\n│ Function │ Body       │\n╞══════════╪════════════╡\n│ function │ git add    │\n│          │ git commit │\n└──────────┴────────────┘\n"
    );
}

#[test]
fn it_executes() {
    let shell = TestShell {};
    let mut output = setup();
    let saucefile = with_document(
        "[environment]\nvar = \"varvalue\"\n[alias]\nalias = \"aliasvalue\"\n[function]\nfn = \"fnvalue\"\n",
    );

    execute(
        &mut output,
        &shell,
        &saucefile,
        &Settings::default(),
        &FilterOptions::default(),
        false,
    );

    assert_eq!(
        output.result(),
        "export var=varvalue;\n\nalias alias=aliasvalue;\n\nfunction fn=fnvalue;\n\n"
    );
    assert_eq!(output.message(), "Sourced \n");
}

#[test]
fn it_doesnt_execute_with_autoload_flag_and_its_disabled() {
    let shell = TestShell {};
    let mut output = setup();

    execute(
        &mut output,
        &shell,
        &Saucefile::default(),
        &Settings::default(),
        &FilterOptions::default(),
        true,
    );

    assert_eq!(output.result(), "");
    assert_eq!(output.message(), "");
}

#[test]
fn execute_says_whether_it_sourced() {
    let shell = Zsh {};
    let saucefile = with_document("[environment]\nTEST = \"example\"\n[alias]\nfoo = \"git\"\n[function]\nmeow = 'echo \"$@\"'\n");
    let off = Settings::default();
    let on = Settings {
        autoload: Some(true),
        ..Default::default()
    };
    let filters = FilterOptions::default();

    let mut output = setup();
    assert_eq!(execute(&mut output, &shell, &saucefile, &off, &filters, true), false);
    assert_eq!(output.result(), "");

    let mut output = setup();
    assert_eq!(execute(&mut output, &shell, &saucefile, &on, &filters, true), true);
    assert_eq!(
        output.result(),
        "export TEST=example;\n\nalias foo=git;\n\nfunction meow {\n  echo \"$@\"\n};\n\n"
    );

    let mut output = setup();
    assert_eq!(execute(&mut output, &shell, &saucefile, &off, &filters, false), true);
    assert_eq!(output.message(), "Sourced \n");

    let local_off = with_document("[settings]\nautoload = false\n");
    let mut output = setup();
    assert_eq!(execute(&mut output, &shell, &local_off, &on, &filters, true), false);
}

#[test]
fn clear_leaves_what_the_settings_say_to_ignore() {
    let shell = Bash {};
    let saucefile = with_document(
        "[settings]\nclear-ignore = [\"KEEP,alias:g\", \"function:x\"]\n[environment]\nKEEP = 1\nDROP = 2\ng = 3\n[alias]\ng = \"git\"\nl = \"ls\"\n[function]\nx = \"y\"\n",
    );
    let mut output = setup();
    clear(
        &mut output,
        &shell,
        &saucefile,
        &Settings::default(),
        &FilterOptions::default(),
    );
    assert_eq!(
        output.result(),
        "unset DROP;\nunset g;\n\nunalias l 2>/dev/null;\n\n"
    );

    let global = Settings {
        clear_ignore: Some(vec!["DROP".to_string()]),
        ..Default::default()
    };
    let saucefile = with_document("[environment]\nKEEP = 1\nDROP = 2\n");
    let mut output = setup();
    clear(&mut output, &shell, &saucefile, &global, &FilterOptions::default());
    assert_eq!(output.result(), "unset KEEP;\n\n");
}

#[test]
fn clear_keeps_the_filters_given() {
    let shell = Bash {};
    let saucefile = with_document("[environment]\nfoo = 1\nfoobar = 2\nbar = 3\n");
    let filters = FilterOptions {
        globs: &[(None, "foo*")],
        filter_exclusions: &[(None, "foo")],
        ..Default::default()
    };
    let mut output = setup();
    clear(&mut output, &shell, &saucefile, &Settings::default(), &filters);
    assert_eq!(output.result(), "unset foo;\nunset foobar;\n\n");
}

#[test]
fn each_target_has_its_header_and_sections() {
    assert_eq!(table_header(Target::EnvVar), &["Variable", "Value"]);
    assert_eq!(table_header(Target::Alias), &["Alias", "Value"]);
    assert_eq!(table_header(Target::Function), &["Function", "Body"]);
    assert_eq!(target_sections(Target::EnvVar), &["env", "environment"]);
    assert_eq!(target_sections(Target::Alias), &["alias"]);
    assert_eq!(target_sections(Target::Function), &["function"]);
    assert_eq!(table_preset(Target::EnvVar), None);
    assert_eq!(table_preset(Target::Alias), None);
    assert_eq!(table_preset(Target::Function), Some("││──╞═╪╡│ │││┬┴┌┐└┘"));
    assert_eq!(table_preset(Target::File), Some("││──╞═╪╡│ │││┬┴┌┐└┘"));
    assert_eq!(table_header(Target::File), &["File", "Content"]);
    assert_eq!(target_sections(Target::File), &["file"]);
    assert_eq!(
        table_data(&vec![("a".to_string(), "1".to_string())]),
        vec![vec!["a".to_string(), "1".to_string()]]
    );
}

#[test]
fn a_subshell_loads_the_values_first() {
    assert_eq!(
        subshell_arguments("echo foo"),
        vec!["-i".to_string(), "-c".to_string(), "sauce; echo foo".to_string()]
    );
    assert_eq!(
        subshell_arguments(""),
        vec!["-i".to_string(), "-c".to_string(), "sauce; ".to_string()]
    );
}

#[test]
fn the_hook_follows_the_settings() {
    let mut output = setup();
    init_shell(&mut output, &TestShell {}, &Settings::default());
    assert_eq!(output.result(), "sauce\n");
    let hooked = Settings {
        autoload_hook: Some(true),
        ..Default::default()
    };
    let mut output = setup();
    init_shell(&mut output, &TestShell {}, &hooked);
    assert_eq!(output.result(), "sauce --autoload\n");
}

#[test]
fn files_are_shown_and_set() {
    let mut output = setup();
    let mut saucefile = Saucefile::default();
    assert_eq!(saucefile.set_file(".env", "A=1", &mut output), true);
    assert_eq!(output.message(), "Setting .env = A=1\n");
    assert_eq!(
        saucefile.files(&FilterOptions::default()),
        vec![(".env".to_string(), "A=1".to_string())]
    );
    let mut output = setup();
    let table = show(&mut output, &FilterOptions::default(), Target::File, &saucefile);
    assert_eq!(output.message(), table);
    assert_eq!(
        table,
        "┌──────┬─────────┐\n│ File │ Content │\n╞══════╪═════════╡\n│ .env │ A=1     │\n└──────┴─────────┘\n"
    );
}

#[test]
fn items_are_rendered_row_by_row() {
    let items = vec![
        ("a".to_string(), "1".to_string()),
        ("b".to_string(), "2 3".to_string()),
    ];
    assert_eq!(render_items(&Bash {}, Row::SetVar, &Vec::new()), "");
    assert_eq!(
        render_items(&Bash {}, Row::SetVar, &items),
        "export a=1;\nexport b='2 3';\n"
    );
    assert_eq!(
        render_items(&Bash {}, Row::SetAlias, &items),
        "alias a=1;\nalias b='2 3';\n"
    );
    assert_eq!(
        render_items(&Bash {}, Row::SetFunction, &items),
        "function a {\n  1\n};\nfunction b {\n  2 3\n};\n"
    );
    assert_eq!(
        render_items(&Bash {}, Row::UnsetVar, &items),
        "unset a;\nunset b;\n"
    );
    assert_eq!(
        render_items(&Bash {}, Row::UnsetAlias, &items),
        "unalias a 2>/dev/null;\nunalias b 2>/dev/null;\n"
    );
    assert_eq!(
        render_items(&Bash {}, Row::UnsetFunction, &items),
        "unset -f a;\nunset -f b;\n"
    );
}

fn text_of(message: &Vec<sauce::colors::Painted>) -> String {
    sauce::colors::render(message, false)
}

#[test]
fn the_files_used_are_listed() {
    let message = materialize_path_message(
        "Sauced",
        "/data/sauce",
        &vec![
            "/data/sauce/a.toml".to_string(),
            "/other/x.toml".to_string(),
            "/data/sauce/a/b.toml".to_string(),
        ],
    );
    assert_eq!(text_of(&message), "Sauced a.toml, a/b.toml from /data/sauce");
    let message = materialize_path_message("Cleared", "a", &vec!["a/a/b.toml".to_string()]);
    assert_eq!(text_of(&message), "Cleared a/b.toml");
}

const FIXTURE: &str =
    "[environment]\nTEST = \"example\"\n\n[alias]\nfoo = \"git\"\n\n[function]\nmeow = 'echo \"$@\"'\n";

fn read_at(path: &str, contents: Option<&str>) -> (Saucefile, Output) {
    let mut output = setup();
    let files = vec![(path.to_string(), contents.map(|c| c.to_string()))];
    let saucefile = Saucefile::read(&mut output, &files);
    (saucefile, output)
}

#[test]
fn it_works_when_no_saucefile_exists() {
    let (saucefile, mut output) = read_at("does_not_exist.toml", None);

    let shell_kind = Zsh {};
    context::execute(
        &mut output,
        &shell_kind,
        &saucefile,
        &Settings::default(),
        &FilterOptions::default(),
        false,
        "",
    );
    assert_eq!(output.result(), "");
    assert_eq!(output.message(), format!("No saucefiles exist\n"));
}

#[test]
fn it_runs() {
    let mut output = setup();
    let mirror = PathMirror::new("/work", "/work", "toml");
    let files: Vec<(String, Option<String>)> = mirror
        .ancestors("/work/tests/execute_it_runs")
        .unwrap()
        .into_iter()
        .map(|path| {
            let contents = if path == "/work/tests/execute_it_runs.toml" {
                Some(FIXTURE.to_string())
            } else {
                None
            };
            (path, contents)
        })
        .collect();
    assert_eq!(files.len(), 3);
    let saucefile = Saucefile::read(&mut output, &files);
    let shell_kind = Zsh {};
    context::execute(
        &mut output,
        &shell_kind,
        &saucefile,
        &Settings::default(),
        &FilterOptions::default(),
        false,
        "/work",
    );

    assert_eq!(
        output
            .message()
            .starts_with("Sauced tests/execute_it_runs.toml from"),
        true
    );
    assert_eq!(
        output.message(),
        "Sauced tests/execute_it_runs.toml from /work\n"
    );

    assert_eq!(
        output.result(),
        r#"export TEST=example;

alias foo=git;

function meow {
  echo "$@"
};

"#
    );
}

#[test]
fn it_no_ops_with_autoload_flag_when_autoload_is_disabled() {
    let (saucefile, mut output) = read_at("/work/tests/execute_it_runs.toml", Some(FIXTURE));
    let shell_kind = Zsh {};
    let sauced = context::execute(
        &mut output,
        &shell_kind,
        &saucefile,
        &Settings::default(),
        &FilterOptions::default(),
        true,
        "",
    );
    assert_eq!(sauced, false);
    assert_eq!(output.result(), "");
    assert_eq!(output.message(), "");
}

#[test]
fn it_loads_with_autoload_flag_when_autoload_is_enabled() {
    let (saucefile, mut output) = read_at("/work/tests/execute_it_runs.toml", Some(FIXTURE));
    let settings = Settings {
        autoload: Some(true),
        ..Default::default()
    };

    let shell_kind = Zsh {};
    context::execute(
        &mut output,
        &shell_kind,
        &saucefile,
        &settings,
        &FilterOptions::default(),
        true,
        "/work",
    );
    assert_eq!(
        output
            .message()
            .starts_with("Sauced tests/execute_it_runs.toml from"),
        true
    );
}

#[test]
fn it_obeys_quiet() {
    let (saucefile, mut output) = read_at("/work/tests/execute_it_runs.toml", Some(FIXTURE));
    output.set_quiet(true);

    let shell_kind = Zsh {};
    context::execute(
        &mut output,
        &shell_kind,
        &saucefile,
        &Settings::default(),
        &FilterOptions::default(),
        true,
        "",
    );
    assert_eq!(output.message(), "");
    context::execute(
        &mut output,
        &shell_kind,
        &saucefile,
        &Settings::default(),
        &FilterOptions::default(),
        false,
        "",
    );
    assert_eq!(output.message(), "");
}

#[test]
fn it_obeys_verbose() {
    let (saucefile, mut output) = read_at("/work/tests/execute_it_runs.toml", Some(FIXTURE));
    output.set_quiet(true);
    output.set_verbose(true);

    let shell_kind = Zsh {};
    context::execute(
        &mut output,
        &shell_kind,
        &saucefile,
        &Settings::default(),
        &FilterOptions::default(),
        false,
        "",
    );
    assert_eq!(output.result(), output.message());
    assert_eq!(output.result().contains("export TEST"), true);
}

#[test]
fn the_path_message_names_the_files_below_the_root() {
    let message = materialize_path_message("Sauced", "", &Vec::new());
    assert_eq!(text_of(&message), "No saucefiles exist");
    let message =
        materialize_path_message("Sauced", "/data", &vec!["/elsewhere/a.toml".to_string()]);
    assert_eq!(text_of(&message), "No saucefiles exist");
    let message = materialize_path_message(
        "Sauced",
        "/work/sauce",
        &vec!["/work/sauce/tests/execute_it_runs.toml".to_string()],
    );
    assert_eq!(
        text_of(&message),
        "Sauced tests/execute_it_runs.toml from /work/sauce"
    );
}

#[test]
fn values_are_put_out_without_a_message() {
    let (saucefile, mut output) = read_at("/work/a.toml", Some(FIXTURE));
    let sauced = put_out_values(
        &mut output,
        &TestShell {},
        &saucefile,
        &Settings::default(),
        &FilterOptions::default(),
        false,
    );
    assert_eq!(sauced, true);
    assert_eq!(output.message(), "");
    assert_eq!(
        output.result(),
        "export TEST=example;\n\nalias foo=git;\n\nfunction meow=echo \"$@\";\n\n"
    );
}

#[test]
fn a_value_that_was_set_is_there_afterwards() {
    let mut output = setup();
    let mut saucefile = Saucefile::default();
    saucefile.document = "[alias]\n".parse().expect("invalid doc");
    saucefile.document["environment"] = toml_edit::Item::None;
    assert_eq!(
        saucefile.set_var(&vec![("A".to_string(), "not toml".to_string())], &mut output),
        true
    );
    assert_eq!(saucefile.document["environment"].is_table(), true);
    assert_eq!(
        saucefile.vars(&FilterOptions::default()),
        vec![("A".to_string(), "not toml".to_string())]
    );
    let mut inline = Saucefile::default();
    inline.document = "function = {a = \"b\"}\n".parse().expect("invalid doc");
    assert_eq!(inline.set_function("c", "d", &mut output), true);
    assert_eq!(inline.document.to_string(), "function = {a = \"b\", c = \"d\" }\n");
    assert_eq!(inline.functions(&FilterOptions::default()), &[]);
}
