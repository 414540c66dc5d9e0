use sauce::colors::{message1, message2, message_and, paint, render, Tone};
use sauce::output::{ErrorCode, FileEvent, FileStep, MoveAction, Output};
use sauce::test_utils::setup;
use toml_edit::DocumentMut;

#[test]
fn it_writes_contents() {
    let toml = r#"
            [foo]
            bar = "baz"
            "#;
    let document = toml.parse::<DocumentMut>().expect("invalid doc");

    let mut output = setup();

    let file = output.write_contents(true, "test.toml", &document);
    assert_eq!(file, Some(toml.to_string()));
    assert_eq!(output.message(), "");
}

#[test]
fn it_fails_on_file_error() {
    let document = "".parse::<DocumentMut>().expect("invalid doc");

    let mut output = setup();

    let file = output.write_contents(false, "test.toml", &document);
    assert_eq!(file, None);
    assert_eq!(output.message(), "Could not open test.toml\n");
    assert_eq!(output.error_code(), Some(1));
}

#[test]
fn a_failed_write_is_reported() {
    let mut output = setup();
    output.write_finished(true, true);
    assert_eq!(output.message(), "");
    assert_eq!(output.error_code(), None);
    output.write_finished(false, true);
    assert_eq!(output.message(), "Failed to write settings\n");
    assert_eq!(output.error_code(), Some(1));
    output.write_finished(false, false);
    assert_eq!(
        output.message(),
        "Failed to write settings\nFailed to write settings\nFailed to write settings\n"
    );
}

#[test]
fn results_go_to_standard_output() {
    let mut output = setup();
    assert_eq!(output.output("export A=1;"), true);
    assert_eq!(output.output(""), true);
    assert_eq!(output.result(), "export A=1;\n");
    assert_eq!(output.message(), "");
}

#[test]
fn show_mode_sends_results_to_standard_error() {
    let mut output = Output::new().show(true);
    output.output("export A=1;");
    assert_eq!(output.result(), "");
    assert_eq!(output.message(), "export A=1;\n");
    assert_eq!(output.is_show(), true);
    output.set_show(false);
    output.output("x");
    assert_eq!(output.result(), "x\n");
}

#[test]
fn verbose_mode_repeats_results_on_standard_error() {
    let mut output = Output::new().verbose(true);
    output.output("a");
    assert_eq!(output.result(), "a\n");
    assert_eq!(output.message(), "a\n");
    let mut output = Output::new().verbose(true).show(true);
    output.output("a");
    assert_eq!(output.result(), "");
    assert_eq!(output.message(), "a\na\n");
}

#[test]
fn quiet_mode_drops_messages() {
    let mut output = Output::new().quiet(true);
    assert_eq!(output.notify_str("hello\n"), "");
    assert_eq!(output.notify(&message1(Tone::Blue, "hello")), "");
    assert_eq!(output.message(), "");
    output.set_quiet(false);
    assert_eq!(output.notify_str("hello\n"), "hello\n");
    assert_eq!(output.notify(&message1(Tone::Blue, "there")), "there\n");
    assert_eq!(output.message(), "hello\nthere\n");
    assert_eq!(output.result(), "");
}

#[test]
fn a_complaint_is_always_written_in_colour() {
    let mut output = Output::new().quiet(true);
    output.complain(&message2(Tone::Red, "a", Tone::Plain, " b"));
    assert_eq!(output.message(), "\u{1b}[38;2;251;73;52ma\u{1b}[0m b\n");
    assert_eq!(output.result(), "");
    assert_eq!(output.error_code(), None);
    output.complain(&Vec::new());
    assert_eq!(output.message(), "\u{1b}[38;2;251;73;52ma\u{1b}[0m b\n");
}

#[test]
fn the_last_failure_gives_the_exit_code() {
    let mut output = setup();
    assert_eq!(output.error_code(), None);
    let said = output.notify_error(ErrorCode::ParseError, &message1(Tone::Red, "bad"));
    assert_eq!(said, "bad\n");
    assert_eq!(output.error_code(), Some(2));
    output.notify_error(ErrorCode::WriteError, &message1(Tone::Red, "worse"));
    assert_eq!(output.error_code(), Some(1));
    assert_eq!(output.message(), "bad\nworse\n");
    assert_eq!(ErrorCode::WriteError.code(), 1);
    assert_eq!(ErrorCode::ParseError.code(), 2);
    assert_eq!(ErrorCode::UnrecognizedSetting.code(), 2);
    let mut quiet = Output::new().quiet(true);
    quiet.notify_error(ErrorCode::ParseError, &message1(Tone::Red, "bad"));
    assert_eq!(quiet.error_code(), Some(2));
    assert_eq!(quiet.message(), "");
}

#[test]
fn flush_hands_out_what_was_gathered() {
    let mut output = setup();
    output.output("a");
    output.notify_str("b");
    assert_eq!(output.flush(), ("a\n".to_string(), "b".to_string()));
    assert_eq!(output.result(), "");
    assert_eq!(output.message(), "");
    assert_eq!(output.flush(), (String::new(), String::new()));
    output.output("c");
    assert_eq!(output.flush(), ("c\n".to_string(), String::new()));
}

#[test]
fn a_line_ends_with_a_line_break() {
    let output = setup();
    assert_eq!(output.format(""), "");
    assert_eq!(output.format("a"), "a\n");
    assert_eq!(output.format("a\n"), "a\n\n");
}

#[test]
fn colour_is_written_by_ansi_term() {
    let message = message_and(
        message2(Tone::Plain, "Setting ", Tone::BlueBold, "A"),
        Tone::Yellow,
        "1",
    );
    assert_eq!(render(&message, false), "Setting A1");
    assert_eq!(
        render(&message, true),
        "Setting \u{1b}[1;38;2;70;130;180mA\u{1b}[0m\u{1b}[38;2;250;189;47m1\u{1b}[0m"
    );
    assert_eq!(
        render(&vec![paint(Tone::Red, "x")], true),
        "\u{1b}[38;2;251;73;52mx\u{1b}[0m"
    );
    assert_eq!(
        render(&vec![paint(Tone::RedBold, "x")], true),
        "\u{1b}[1;38;2;251;73;52mx\u{1b}[0m"
    );
    assert_eq!(
        render(&vec![paint(Tone::Blue, "x"), paint(Tone::YellowBold, "y")], true),
        "\u{1b}[38;2;70;130;180mx\u{1b}[1;38;2;250;189;47my\u{1b}[0m"
    );
    assert_eq!(render(&vec![paint(Tone::Plain, "x")], true), "x");
    assert_eq!(render(&Vec::new(), true), "");
    assert_eq!(render(&Vec::new(), false), "");
    let mut output = Output::new().color(true);
    assert_eq!(output.is_colored(), true);
    assert_eq!(
        output.notify(&message1(Tone::Red, "x")),
        "\u{1b}[38;2;251;73;52mx\u{1b}[0m\n"
    );
}

#[test]
fn tables_are_laid_out_by_comfy_table() {
    let output = setup();
    let data = vec![
        vec!["a".to_string(), "1".to_string()],
        vec!["bb".to_string(), "22".to_string()],
    ];
    assert_eq!(
        output.format_table(&["Key", "Value"], &data, None),
        "┌─────┬───────┐\n│ Key │ Value │\n╞═════╪═══════╡\n│ a   │ 1     │\n│ bb  │ 22    │\n└─────┴───────┘\n"
    );
    let colored = Output::new().color(true);
    let table = colored.format_table(&["Key", "Value"], &data, None);
    assert_eq!(table.contains("\u{1b}["), true);
    assert_eq!(table.ends_with("\n"), true);
}

fn done(step: FileStep) -> Result<(), String> {
    match step {
        FileStep::Done(result) => result,
        other => panic!("not done: {:?}", other),
    }
}

#[test]
fn it_creates_correct_file_during_new_command() {
    let mut output = setup();
    output.set_show(true);
    let file = "/root/foo/bar/baz.toml";
    assert_eq!(matches!(output.create_file(file, FileEvent::Begin), FileStep::Probe), true);
    assert_eq!(done(output.create_file(file, FileEvent::Probed(false))), Ok(()));
    assert_eq!(output.message(), "Created /root/foo/bar/baz.toml\n");
}

#[test]
fn a_file_is_made_step_by_step() {
    let mut output = setup();
    let file = "/data/a/b.toml";
    match output.create_file(file, FileEvent::Begin) {
        FileStep::MakeDirs(parent) => assert_eq!(parent, "/data/a"),
        other => panic!("unexpected step {:?}", other),
    }
    assert_eq!(matches!(output.create_file(file, FileEvent::DirsMade(true)), FileStep::Probe), true);
    assert_eq!(matches!(output.create_file(file, FileEvent::Probed(false)), FileStep::MakeFile), true);
    assert_eq!(output.message(), "");
    assert_eq!(done(output.create_file(file, FileEvent::FileMade(true))), Ok(()));
    assert_eq!(output.message(), "Created /data/a/b.toml\n");
    assert_eq!(output.error_code(), None);
}

#[test]
fn each_step_of_making_a_file_can_fail() {
    let file = "/data/a/b.toml";
    let mut output = setup();
    assert_eq!(
        done(output.create_file(file, FileEvent::DirsMade(false))),
        Err("Couldn't create /data/a\n".to_string())
    );
    assert_eq!(output.error_code(), Some(1));
    let mut output = setup();
    assert_eq!(
        done(output.create_file(file, FileEvent::Probed(true))),
        Err("File already exists at /data/a/b.toml\n".to_string())
    );
    assert_eq!(output.message(), "File already exists at /data/a/b.toml\n");
    let mut output = setup();
    assert_eq!(
        done(output.create_file(file, FileEvent::FileMade(false))),
        Err("Couldn't create /data/a/b.toml\n".to_string())
    );
    assert_eq!(output.error_code(), Some(1));
    let mut output = Output::new().show(true);
    assert_eq!(
        done(output.create_file(file, FileEvent::Probed(true))),
        Err("File already exists at /data/a/b.toml\n".to_string())
    );
    let mut output = Output::new().quiet(true);
    assert_eq!(done(output.create_file(file, FileEvent::Probed(true))), Err(String::new()));
    assert_eq!(output.error_code(), Some(1));
}

#[test]
fn the_parent_is_what_stands_before_the_last_slash() {
    assert_eq!(Output::parent("/data/a/b.toml"), Some("/data/a".to_string()));
    assert_eq!(Output::parent("a/b.toml"), Some("a".to_string()));
    assert_eq!(Output::parent("b.toml"), Some(String::new()));
    assert_eq!(Output::parent("/b.toml"), Some("/".to_string()));
    assert_eq!(Output::parent("/"), None);
    assert_eq!(Output::parent(""), None);
    let mut output = setup();
    assert_eq!(matches!(output.create_file("", FileEvent::Begin), FileStep::Probe), true);
    match output.create_file("b.toml", FileEvent::Begin) {
        FileStep::MakeDirs(parent) => assert_eq!(parent, ""),
        other => panic!("unexpected step {:?}", other),
    }
}

#[test]
fn it_moves_correct_file_during_mv_command() {
    let mut output = setup();
    output.set_show(true);
    assert_eq!(output.move_action(true), MoveAction::Nothing);
    assert_eq!(
        output.move_file("/.local/share.toml", "/.local/share/src.toml", false),
        Ok(())
    );
    assert_eq!(
        output.message(),
        "Moved /.local/share.toml to /.local/share/src.toml\n"
    );
}

#[test]
fn a_move_can_fail() {
    let mut output = setup();
    assert_eq!(output.move_action(true), MoveAction::Copy);
    assert_eq!(output.move_action(false), MoveAction::Rename);
    assert_eq!(
        output.move_file("a.toml", "b.toml", false),
        Err("Failed to move a.toml to b.toml\n".to_string())
    );
    assert_eq!(output.error_code(), Some(1));
    let mut output = setup();
    assert_eq!(output.move_file("a.toml", "b.toml", true), Ok(()));
    assert_eq!(output.message(), "Moved a.toml to b.toml\n");
    assert_eq!(output.error_code(), None);
}

#[test]
fn write_toml_announces_and_sets() {
    let mut output = setup();
    let mut document = "[alias]\ng = \"git\"\n".parse::<DocumentMut>().expect("invalid doc");
    let values = vec![
        ("l".to_string(), sauce::toml::value_from_string("ls -l")),
        ("g".to_string(), sauce::toml::value_from_string("git status")),
    ];
    assert_eq!(output.write_toml(&mut document, "alias", values), true);
    assert_eq!(output.message(), "Setting l = ls -l\nSetting g = git status\n");
    assert_eq!(document.to_string(), "[alias]\ng = \"git status\"\nl = \"ls -l\"\n");
    assert_eq!(output.write_toml(&mut document, "alias", Vec::new()), true);
}
