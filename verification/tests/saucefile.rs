use sauce::filter::FilterOptions;
use sauce::output::Output;
use sauce::saucefile::Saucefile;
use toml_edit::DocumentMut;

fn pair(key: &str, value: &str) -> (String, String) {
    (key.to_string(), value.to_string())
}

#[test]
fn it_includes_values_in_section() {
    let mut sauce = Saucefile::default();

    let toml = r#"
            [foo]
            bar = "baz"
            "#;
    sauce.document = toml.parse::<DocumentMut>().expect("invalid doc");

    let result = sauce.section(&["foo"], &FilterOptions::default());
    assert_eq!(result, vec![("bar".to_string(), "baz".to_string())]);
}

#[test]
fn it_includes_when_one_section_option_matches() {
    let mut sauce = Saucefile::default();

    let toml = r#"
            [foo]
            bar = "baz"
            "#;
    sauce.document = toml.parse::<DocumentMut>().expect("invalid doc");

    let result = sauce.section(&["non-matching", "foo"], &FilterOptions::default());
    assert_eq!(result, vec![("bar".to_string(), "baz".to_string())]);
}

#[test]
fn it_excludes_when_no_section_matches() {
    let mut sauce = Saucefile::default();

    let toml = r#"
            [foo]
            bar = "baz"
            "#;
    sauce.document = toml.parse::<DocumentMut>().expect("invalid doc");

    let result = sauce.section(&["non-matching"], &FilterOptions::default());
    assert_eq!(result, &[]);
}

#[test]
fn it_chooses_the_default_tag() {
    let mut sauce = Saucefile::default();

    let toml = r#"
            [foo]
            bar = {default = 1}
            bees = 2
            boops = {notdefault = 3}
            "#;
    sauce.document = toml.parse::<DocumentMut>().expect("invalid doc");

    let result = sauce.section(&["foo"], &FilterOptions::default());
    assert_eq!(
        result,
        vec![
            ("bar".to_string(), "1".to_string()),
            ("bees".to_string(), "2".to_string()),
            ("boops".to_string(), "".to_string()),
        ]
    );
}

#[test]
fn it_chooses_the_correct_tag() {
    let mut sauce = Saucefile::default();

    let toml = r#"
            [foo]
            bar = {wow = 1}
            bees = 2
            boops = {notwow = 3}
            "#;
    sauce.document = toml.parse::<DocumentMut>().expect("invalid doc");

    let result = sauce.section(
        &["foo"],
        &FilterOptions {
            as_: Some("wow"),
            ..Default::default()
        },
    );
    assert_eq!(
        result,
        vec![
            ("bar".to_string(), "1".to_string()),
            ("bees".to_string(), "2".to_string()),
            ("boops".to_string(), "".to_string()),
        ]
    );
}

#[test]
fn it_excludes_filter_exclusions() {
    let mut sauce = Saucefile::default();

    let toml = r#"
            [foo]
            bar = 1
            bees = 2
            meow = 3
            "#;
    sauce.document = toml.parse::<DocumentMut>().expect("invalid doc");

    let result = sauce.section(
        &["foo"],
        &FilterOptions {
            filter_exclusions: &[(None, "bar")],
            ..Default::default()
        },
    );
    assert_eq!(
        result,
        vec![("bees".to_string(), "2".into()), ("meow".to_string(), "3".into())]
    );
}

#[test]
fn it_includes_non_matching_filter_exclusions() {
    let mut sauce = Saucefile::default();

    let toml = r#"
            [foo]
            bar = 1
            bees = 2
            "#;
    sauce.document = toml.parse::<DocumentMut>().expect("invalid doc");

    let result = sauce.section(
        &["foo"],
        &FilterOptions {
            filter_exclusions: &[(Some("bar"), "bar")],
            ..Default::default()
        },
    );
    assert_eq!(
        result,
        vec![
            ("bar".to_string(), "1".to_string()),
            ("bees".to_string(), "2".to_string())
        ]
    );
}

#[test]
fn saucefile_it_yields_empty_when_empty() {
    let sauce = Saucefile::default();
    let result = sauce.vars(&FilterOptions::default());
    assert_eq!(result, &[]);
    let result = sauce.aliases(&FilterOptions::default());
    assert_eq!(result, &[]);
    let result = sauce.functions(&FilterOptions::default());
    assert_eq!(result, &[]);
    let result = sauce.files(&FilterOptions::default());
    assert_eq!(result, &[]);
}

fn read(files: Vec<(&str, Option<&str>)>) -> (Saucefile, Output) {
    let mut output = Output::new();
    let files: Vec<(String, Option<String>)> = files
        .into_iter()
        .map(|(p, c)| (p.to_string(), c.map(|c| c.to_string())))
        .collect();
    let sauce = Saucefile::read(&mut output, &files);
    (sauce, output)
}

#[test]
fn leaf_overrides_value_and_first_definition_keeps_position() {
    let (sauce, output) = read(vec![
        ("/data/sauce.toml", Some("[environment]\nX = \"1\"\n")),
        (
            "/data/sauce/proj.toml",
            Some("[environment]\nY = \"3\"\nX = \"2\"\n"),
        ),
    ]);
    assert_eq!(output.message(), "");
    assert_eq!(
        sauce.vars(&FilterOptions::default()),
        vec![pair("X", "2"), pair("Y", "3")]
    );
}

#[test]
fn end_to_end_example() {
    let (sauce, _) = read(vec![
        ("/data/sauce.toml", Some("[environment]\nX = \"1\"\n")),
        (
            "/data/sauce/proj.toml",
            Some("[environment]\nX = \"2\"\nY = \"3\"\n"),
        ),
    ]);
    let filters = FilterOptions {
        as_: Some("default"),
        ..Default::default()
    };
    assert_eq!(sauce.vars(&filters), vec![pair("X", "2"), pair("Y", "3")]);
    assert_eq!(
        sauce.vars(&FilterOptions::default()),
        vec![pair("X", "2"), pair("Y", "3")]
    );
}

#[test]
fn resolving_twice_gives_the_same() {
    let (sauce, _) = read(vec![
        ("/data/sauce.toml", Some("[env]\nA = 1\nB = {dev = 2}\n")),
        ("/data/sauce/p.toml", Some("[environment]\nB = 3\nC = 4\n")),
    ]);
    let filters = FilterOptions {
        as_: Some("dev"),
        globs: &[(None, "[A-C]")],
        ..Default::default()
    };
    let first = sauce.vars(&filters);
    let second = sauce.vars(&filters);
    assert_eq!(first, second);
    assert_eq!(first, vec![pair("A", "1"), pair("B", "3"), pair("C", "4")]);
}

#[test]
fn missing_ancestors_contribute_nothing() {
    let (sauce, output) = read(vec![
        ("/data/sauce.toml", None),
        ("/data/sauce/a.toml", Some("[alias]\ng = \"git\"\n")),
        ("/data/sauce/a/b.toml", None),
        ("/data/sauce/a/b/c.toml", Some("[alias]\nl = \"ls\"\n")),
    ]);
    assert_eq!(output.message(), "");
    assert_eq!(output.error_code(), None);
    assert_eq!(sauce.ancestors.len(), 1);
    assert_eq!(sauce.ancestors[0].0, "/data/sauce/a.toml");
    assert_eq!(sauce.path, Some("/data/sauce/a/b/c.toml".to_string()));
    assert_eq!(sauce.exists, true);
    assert_eq!(
        sauce.aliases(&FilterOptions::default()),
        vec![pair("g", "git"), pair("l", "ls")]
    );
    assert_eq!(
        sauce.paths(),
        vec![
            "/data/sauce/a.toml".to_string(),
            "/data/sauce/a/b/c.toml".to_string()
        ]
    );
}

#[test]
fn a_missing_leaf_is_an_empty_leaf() {
    let (sauce, output) = read(vec![
        ("/data/sauce.toml", Some("[alias]\ng = \"git\"\n")),
        ("/data/sauce/a.toml", None),
    ]);
    assert_eq!(output.message(), "");
    assert_eq!(sauce.path, Some("/data/sauce/a.toml".to_string()));
    assert_eq!(sauce.exists, false);
    assert_eq!(sauce.ancestors.len(), 1);
    assert_eq!(sauce.document.to_string(), "");
    assert_eq!(sauce.aliases(&FilterOptions::default()), vec![pair("g", "git")]);
    assert_eq!(sauce.paths(), vec!["/data/sauce.toml".to_string()]);
    let chain = sauce.chain();
    assert_eq!(chain.ancestors.len(), 1);
    assert_eq!(chain.leaf.origin_path, "/data/sauce/a.toml");
    assert_eq!(chain.leaf.is_empty(), true);
}

#[test]
fn reading_no_files_gives_the_default() {
    let (sauce, output) = read(vec![]);
    assert_eq!(output.message(), "");
    assert_eq!(sauce.path, Some(String::new()));
    assert_eq!(sauce.exists, false);
    assert_eq!(sauce.ancestors.len(), 0);
    assert_eq!(sauce.paths(), Vec::<String>::new());
}

#[test]
fn a_broken_ancestor_is_reported_and_passed_over() {
    let (sauce, output) = read(vec![
        ("/data/sauce.toml", Some("[environment\nX = 1")),
        ("/data/sauce/a.toml", Some("[environment]\nY = 2\n")),
    ]);
    assert_eq!(output.error_code(), Some(2));
    assert_eq!(
        output.message().starts_with("Failed to parse /data/sauce.toml: \n"),
        true
    );
    assert_eq!(output.result(), "");
    assert_eq!(sauce.ancestors.len(), 1);
    assert_eq!(sauce.vars(&FilterOptions::default()), vec![pair("Y", "2")]);
}

#[test]
fn both_section_names_of_the_environment_count() {
    let (sauce, _) = read(vec![(
        "/data/sauce.toml",
        Some("[environment]\nA = 1\nB = 2\n[env]\nB = 3\nC = 4\n"),
    )]);
    assert_eq!(
        sauce.vars(&FilterOptions::default()),
        vec![pair("B", "2"), pair("C", "4"), pair("A", "1")]
    );
}

#[test]
fn inline_tables_and_sub_tables_resolve_alike() {
    let (sauce, _) = read(vec![(
        "/data/sauce.toml",
        Some("[environment]\nA = {dev = \"x\", prod = \"y\"}\n[environment.B]\ndev = \"x\"\nprod = \"y\"\n"),
    )]);
    let dev = FilterOptions {
        as_: Some("dev"),
        ..Default::default()
    };
    let prod = FilterOptions {
        as_: Some("prod"),
        ..Default::default()
    };
    assert_eq!(sauce.vars(&dev), vec![pair("A", "x"), pair("B", "x")]);
    assert_eq!(sauce.vars(&prod), vec![pair("A", "y"), pair("B", "y")]);
    assert_eq!(
        sauce.vars(&FilterOptions::default()),
        vec![pair("A", ""), pair("B", "")]
    );
}

#[test]
fn values_of_every_kind_have_a_text() {
    let (sauce, _) = read(vec![(
        "/data/sauce.toml",
        Some("[environment]\ns = \"a b\"\ni = -7\nb = true\nf = 1.5\nd = 1979-05-27T07:32:00Z\na = [1, 2]\n[[environment.t]]\nx = 1\n"),
    )]);
    assert_eq!(
        sauce.vars(&FilterOptions::default()),
        vec![
            pair("s", "a b"),
            pair("i", "-7"),
            pair("b", "true"),
            pair("f", "1.5"),
            pair("d", "1979-05-27T07:32:00Z"),
            pair("a", " [1, 2]"),
            pair("t", ""),
        ]
    );
}

#[test]
fn a_section_that_is_a_value_is_no_section() {
    let (sauce, _) = read(vec![(
        "/data/sauce.toml",
        Some("alias = {g = \"git\"}\nenvironment = 3\n"),
    )]);
    assert_eq!(sauce.aliases(&FilterOptions::default()), &[]);
    assert_eq!(sauce.vars(&FilterOptions::default()), &[]);
}

#[test]
fn globs_filters_and_exclusions_all_apply() {
    let (sauce, _) = read(vec![(
        "/data/sauce.toml",
        Some("[environment]\nfoo = 1\nfoobar = 2\nbar = 3\n[alias]\nfoobar = \"x\"\n"),
    )]);
    let filters = FilterOptions {
        globs: &[(None, "foo*")],
        filters: &[(Some("env"), "foobar")],
        ..Default::default()
    };
    assert_eq!(sauce.vars(&filters), vec![pair("foobar", "2")]);
    assert_eq!(sauce.aliases(&filters), &[]);
    let filters = FilterOptions {
        globs: &[(None, "foo*")],
        filters: &[(Some("alias"), "foobar")],
        ..Default::default()
    };
    assert_eq!(sauce.vars(&filters), &[]);
    assert_eq!(sauce.aliases(&filters), vec![pair("foobar", "x")]);
    let filters = FilterOptions {
        filter_exclusions: &[(None, "bar")],
        ..Default::default()
    };
    assert_eq!(sauce.vars(&filters), vec![pair("foo", "1"), pair("foobar", "2")]);
    let filters = FilterOptions {
        filter_exclusions: &[(Some("other-section"), "bar")],
        ..Default::default()
    };
    assert_eq!(
        sauce.vars(&filters),
        vec![pair("foo", "1"), pair("foobar", "2"), pair("bar", "3")]
    );
}

#[test]
fn set_var_changes_the_leaf_and_announces_it() {
    let mut output = Output::new();
    let mut sauce = Saucefile::default();
    sauce.document = "[environment]\nA = 1\n".parse().expect("invalid doc");
    let changed = sauce.set_var(&vec![pair("B", "two"), pair("A", "3")], &mut output);
    assert_eq!(changed, true);
    assert_eq!(output.message(), "Setting B = two\nSetting A = 3\n");
    assert_eq!(output.result(), "");
    assert_eq!(
        sauce.document.to_string(),
        "[environment]\nA = 3\nB = \"two\"\n"
    );
    assert_eq!(
        sauce.vars(&FilterOptions::default()),
        vec![pair("A", "3"), pair("B", "two")]
    );
}

#[test]
fn set_alias_and_function_make_their_sections() {
    let mut output = Output::new();
    let mut sauce = Saucefile::default();
    assert_eq!(sauce.set_alias(&vec![pair("g", "git")], &mut output), true);
    assert_eq!(
        sauce.set_function("meow", "echo \"$@\"", &mut output),
        true
    );
    assert_eq!(
        output.message(),
        "Setting g = git\nSetting meow = echo \"$@\"\n"
    );
    assert_eq!(
        sauce.document.to_string(),
        "[alias]\ng = \"git\"\n\n[function]\nmeow = 'echo \"$@\"'\n"
    );
    assert_eq!(
        sauce.functions(&FilterOptions::default()),
        vec![pair("meow", "echo \"$@\"")]
    );
}

#[test]
fn a_value_that_reads_as_an_inline_table_is_tagged() {
    let mut output = Output::new();
    let mut sauce = Saucefile::default();
    sauce.set_var(&vec![pair("DB", "{dev = \"a\", prod = \"b\"}")], &mut output);
    let prod = FilterOptions {
        as_: Some("prod"),
        ..Default::default()
    };
    assert_eq!(sauce.vars(&prod), vec![pair("DB", "b")]);
}

#[test]
fn show_mode_changes_nothing() {
    let mut output = Output::new().show(true);
    let mut sauce = Saucefile::default();
    let changed = sauce.set_var(&vec![pair("B", "two")], &mut output);
    assert_eq!(changed, false);
    assert_eq!(output.message(), "Setting B = two\n");
    assert_eq!(sauce.document.to_string(), "");
}

#[test]
fn a_section_that_is_a_value_takes_no_keys() {
    let mut output = Output::new();
    let mut sauce = Saucefile::default();
    sauce.document = "environment = 3\n".parse().expect("invalid doc");
    let changed = sauce.set_var(&vec![pair("B", "two")], &mut output);
    assert_eq!(changed, false);
    assert_eq!(output.message(), "Cannot set values under environment\n");
    assert_eq!(output.error_code(), Some(1));
    assert_eq!(sauce.document.to_string(), "environment = 3\n");
}

#[test]
fn the_settings_of_the_leaf_are_read() {
    let mut output = Output::new();
    let mut sauce = Saucefile::default();
    sauce.document = "[settings]\nautoload = true\nclear-ignore = [\"A\", \"env:B\"]\n"
        .parse()
        .expect("invalid doc");
    let settings = sauce.settings(&mut output);
    assert_eq!(settings.autoload, Some(true));
    assert_eq!(settings.autoload_hook, None);
    assert_eq!(
        settings.clear_ignore,
        Some(vec!["A".to_string(), "env:B".to_string()])
    );
    assert_eq!(settings.file, "");
    sauce.path = None;
    let settings = sauce.settings(&mut output);
    assert_eq!(settings.autoload, None);
    assert_eq!(settings.clear_ignore, None);
    assert_eq!(output.message(), "");
}
