use sauce::cli::shape::CliOptions;
use sauce::cli::utilities::{get_input, parse_key_val};
use sauce::shell::{ColorStrategy, ShellName};

#[test]
fn it_works_with_one_equals() {
    let (key, value): (String, String) = parse_key_val("meow=bar").unwrap();
    assert_eq!(key, "meow".to_string());
    assert_eq!(value, "bar".to_string());
}

#[test]
fn it_works_with_2_plus_equals() {
    let (key, value): (String, String) = parse_key_val("meow=bar=bar2=bar3").unwrap();
    assert_eq!(key, "meow".to_string());
    assert_eq!(value, "bar=bar2=bar3".to_string());
}

#[test]
fn it_fails() {
    let result: Result<(String, String), String> = parse_key_val("meow");
    let error = result.err().unwrap();
    assert_eq!(
        format!("{}", error),
        "Invalid KEY=value: no `=` found in `meow`".to_string()
    );
}

#[test]
fn key_val_keeps_empty_sides() {
    assert_eq!(parse_key_val("=x"), Ok(("".to_string(), "x".to_string())));
    assert_eq!(parse_key_val("x="), Ok(("x".to_string(), "".to_string())));
    assert_eq!(parse_key_val("="), Ok(("".to_string(), "".to_string())));
    assert_eq!(
        parse_key_val(""),
        Err("Invalid KEY=value: no `=` found in ``".to_string())
    );
    assert_eq!(parse_key_val("é=ü"), Ok(("é".to_string(), "ü".to_string())));
}

#[test]
fn piped_input_is_added_behind_the_arguments() {
    let given = vec![("a".to_string(), "1".to_string())];
    assert_eq!(get_input(&given, None), given);
    assert_eq!(get_input(&given, Some("")), given);
    assert_eq!(get_input(&given, Some("no pair")), given);
    assert_eq!(
        get_input(&given, Some("b=2\n")),
        vec![
            ("a".to_string(), "1".to_string()),
            ("b".to_string(), "2".to_string())
        ]
    );
    assert_eq!(
        get_input(&given, Some("b=2\n\n")),
        vec![
            ("a".to_string(), "1".to_string()),
            ("b".to_string(), "2\n".to_string())
        ]
    );
    assert_eq!(
        get_input(&Vec::new(), Some("b=2")),
        vec![("b".to_string(), "2".to_string())]
    );
}

#[test]
fn the_first_tag_is_the_active_one() {
    let mut options = CliOptions {
        shell: ShellName::Bash,
        autoload: false,
        show: false,
        color: ColorStrategy::Auto,
        verbose: false,
        quiet: false,
        path: None,
        file: None,
        as_: None,
        glob: None,
        target: None,
        filter: None,
        subcmd: None,
    };
    assert_eq!(options.active_tag(), None);
    options.as_ = Some(vec![]);
    assert_eq!(options.active_tag(), None);
    options.as_ = Some(vec!["dev".to_string(), "prod".to_string()]);
    assert_eq!(options.active_tag(), Some("dev"));
}
