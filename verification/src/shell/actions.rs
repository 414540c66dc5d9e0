//! What the commands do with a shell and the documents of a directory.

use crate::colors::{message1, message2, message_view, Message, Tone};
use crate::filter::{
    entry_views, parse_match_option, parsed_list, EntryView, FilterOptions, FilterView,
    MatchOption,
};
use crate::layer::pair_views;
use crate::ordered::Key;
use crate::output::{Output, OutputView};
use crate::resolve::materialized;
use crate::saucefile::{
    alias_sections, file_sections, function_sections, var_sections, Saucefile,
};
use crate::settings::{
    after_settings, bool_read, first_set, list_read, list_view, setting_item, Settings,
};
use crate::shell::utilities::get_binary;
use crate::shell::{edit_command, Shell};
use crate::target::Target;
use crate::text::{string_views, views};
use vstd::prelude::*;

verus! {

/// What is written for each item of a resolved set.
#[derive(Debug, Clone, Copy, PartialEq, Eq, Structural)]
pub enum Row {
    SetVar,
    SetAlias,
    SetFunction,
    UnsetVar,
    UnsetAlias,
    UnsetFunction,
}

/// The command for one item.
pub open spec fn row_text<S: Shell>(shell: &S, row: Row, key: Seq<char>, value: Seq<char>) -> Seq<
    char,
> {
    match row {
        Row::SetVar => shell.var_setter(key, value),
        Row::SetAlias => shell.alias_setter(key, value),
        Row::SetFunction => shell.function_setter(key, value),
        Row::UnsetVar => shell.var_unsetter(key),
        Row::UnsetAlias => shell.alias_unsetter(key),
        Row::UnsetFunction => shell.function_unsetter(key),
    }
}

/// The commands for the first `upto` items, each ended by a semicolon and
/// a line break.
pub open spec fn rendered_items<S: Shell>(
    shell: &S,
    row: Row,
    items: Seq<(Key, Seq<char>)>,
    upto: int,
) -> Seq<char>
    decreases upto,
{
    if upto <= 0 || upto > items.len() {
        Seq::empty()
    } else {
        rendered_items(shell, row, items, upto - 1) + row_text(
            shell,
            row,
            items[upto - 1].0,
            items[upto - 1].1,
        ) + ";\n"@
    }
}

/// The commands for all items.
pub open spec fn all_rendered<S: Shell>(shell: &S, row: Row, items: Seq<(Key, Seq<char>)>) -> Seq<
    char,
> {
    rendered_items(shell, row, items, items.len() as int)
}

/// The exclusions that a list of the `clear-ignore` setting stands for:
/// the entries of each text of the list, one list after the other.
pub open spec fn clear_exclusions(ignore: Seq<Seq<char>>, upto: int) -> Seq<EntryView>
    decreases upto,
{
    if upto <= 0 || upto > ignore.len() {
        Seq::empty()
    } else {
        clear_exclusions(ignore, upto - 1) + parsed_list(ignore[upto - 1])
    }
}

/// The output after the settings of the leaf were read.
pub open spec fn after_local_settings(before: OutputView, saucefile: Saucefile) -> OutputView {
    match saucefile.path {
        Some(_) => after_settings(before, saucefile.document),
        None => before,
    }
}

/// The `autoload` setting in force.
pub open spec fn autoload_in_force(saucefile: Saucefile, global: Settings) -> bool {
    first_set(
        match saucefile.path {
            Some(_) => bool_read(setting_item(saucefile.document, "autoload"@)),
            None => None,
        },
        global.autoload,
        false,
    )
}

/// The `clear-ignore` setting in force.
pub open spec fn ignore_in_force(saucefile: Saucefile, global: Settings) -> Seq<Seq<char>> {
    first_set(
        match saucefile.path {
            Some(_) => list_read(setting_item(saucefile.document, "clear-ignore"@)),
            None => None,
        },
        list_view(global.clear_ignore),
        Seq::empty(),
    )
}

/// The message for a file that is opened in the editor.
pub open spec fn opening_message(path: Seq<char>) -> Message {
    seq![(Tone::Blue, "Opening "@), (Tone::Yellow, path)]
}

/// The message for an editor that is not set.
pub open spec fn no_editor_message() -> Message {
    seq![(Tone::Red, "set $EDITOR to enable this command"@)]
}

/// The message after everything was unset.
pub open spec fn cleared_message() -> Message {
    seq![(Tone::BlueBold, "Cleared your sauce"@)]
}

/// The message after everything was set.
pub open spec fn sourced_message(path: Seq<char>) -> Message {
    seq![(Tone::BlueBold, "Sourced "@), (Tone::Yellow, path)]
}

/// The output after the three resolved sets were put out with `rows`.
pub open spec fn after_items<S: Shell>(
    before: OutputView,
    shell: &S,
    rows: (Row, Row, Row),
    saucefile: Saucefile,
    filters: FilterView,
) -> OutputView {
    before.with_output(
        all_rendered(
            shell,
            rows.0,
            materialized(saucefile.layers(), views(var_sections()@), filters),
        ),
    ).with_output(
        all_rendered(
            shell,
            rows.1,
            materialized(saucefile.layers(), views(alias_sections()@), filters),
        ),
    ).with_output(
        all_rendered(
            shell,
            rows.2,
            materialized(saucefile.layers(), views(function_sections()@), filters),
        ),
    )
}

/// Says that the file is opened and puts out the command that opens it in
/// the editor. Without an editor it says how to set one.
pub fn edit<S: Shell>(output: &mut Output, shell: &S, editor: Option<&str>, path: &str)
    ensures
        final(output)@ == match editor {
            Some(e) => old(output)@.notified(opening_message(path@)).with_output(
                edit_command(e@, path@),
            ),
            None => old(output)@.notified(opening_message(path@)).notified(no_editor_message()),
        },
{
    let message = message2(Tone::Blue, "Opening ", Tone::Yellow, path);
    output.notify(&message);
    match shell.edit(editor, path) {
        Some(result) => {
            output.output(result.as_str());
        },
        None => {
            let message = message1(Tone::Red, "set $EDITOR to enable this command");
            output.notify(&message);
        },
    }
}

/// Puts out the code that makes the program known to the shell.
pub fn init<S: Shell>(output: &mut Output, shell: &S, autoload_hook: bool)
    ensures
        final(output)@ == old(output)@.with_output(
            shell.init_script("sauce"@, autoload_hook, Seq::empty()),
        ),
{
    let binary = get_binary();
    proof {
        reveal_strlit("");
        assert(""@ =~= Seq::<char>::empty());
    }
    let result = shell.init(binary.as_str(), autoload_hook, "");
    output.output(result.as_str());
}

/// Puts out the code that makes the program known to the shell, with the
/// hook that loads on entering a directory where the settings ask for it.
pub fn init_shell<S: Shell>(output: &mut Output, shell: &S, settings: &Settings)
    ensures
        final(output)@ == old(output)@.with_output(
            shell.init_script(
                "sauce"@,
                match settings.autoload_hook {
                    Some(hook) => hook,
                    None => false,
                },
                Seq::empty(),
            ),
        ),
{
    let autoload_hook = match settings.autoload_hook {
        Some(hook) => hook,
        None => false,
    };
    init(output, shell, autoload_hook)
}

/// The arguments with which a shell runs `command` after it has loaded the
/// values of the directory: interactive, and one command line that calls
/// the program first.
pub open spec fn subshell_line(command: Seq<char>) -> Seq<Seq<char>> {
    seq!["-i"@, "-c"@, "sauce; "@ + command]
}

/// The arguments for the shell that runs `command`.
pub fn subshell_arguments(command: &str) -> (arguments: Vec<String>)
    ensures
        string_views(arguments@) == subshell_line(command@),
{
    let mut line = get_binary();
    line.append("; ");
    line.append(command);
    let mut arguments: Vec<String> = Vec::new();
    arguments.push("-i".to_owned());
    arguments.push("-c".to_owned());
    arguments.push(line);
    proof {
        reveal_strlit("sauce");
        reveal_strlit("; ");
        reveal_strlit("sauce; ");
        assert("sauce"@ + "; "@ =~= "sauce; "@);
        assert(string_views(arguments@) =~= subshell_line(command@));
    }
    arguments
}

/// The commands for the items, one after the other.
pub fn render_items<S: Shell>(shell: &S, row: Row, items: &Vec<(String, String)>) -> (out: String)
    ensures
        out@ == all_rendered(shell, row, pair_views(items@)),
{
    let mut out = String::new();
    let mut i: usize = 0;
    while i < items.len()
        invariant
            i <= items@.len(),
            out@ == rendered_items(shell, row, pair_views(items@), i as int),
        decreases items@.len() - i,
    {
        let key = items[i].0.as_str();
        let value = items[i].1.as_str();
        let line = match row {
            Row::SetVar => shell.set_var(key, value),
            Row::SetAlias => shell.set_alias(key, value),
            Row::SetFunction => shell.set_function(key, value),
            Row::UnsetVar => shell.unset_var(key),
            Row::UnsetAlias => shell.unset_alias(key),
            Row::UnsetFunction => shell.unset_function(key),
        };
        out.append(line.as_str());
        out.append(";\n");
        i += 1;
    }
    out
}

/// The exclusions of a `clear-ignore` list.
fn ignore_entries<'a>(ignore: &'a Vec<String>) -> (out: Vec<MatchOption<'a>>)
    ensures
        entry_views(out@) == clear_exclusions(string_views(ignore@), ignore@.len() as int),
{
    let ghost texts = string_views(ignore@);
    let mut out: Vec<MatchOption<'a>> = Vec::new();
    let mut i: usize = 0;
    while i < ignore.len()
        invariant
            i <= ignore@.len(),
            texts == string_views(ignore@),
            entry_views(out@) == clear_exclusions(texts, i as int),
        decreases ignore@.len() - i,
    {
        let parsed = parse_match_option(Some(ignore[i].as_str()));
        let ghost before = entry_views(out@);
        let mut j: usize = 0;
        while j < parsed.len()
            invariant
                j <= parsed@.len(),
                entry_views(out@) == before + entry_views(parsed@).take(j as int),
            decreases parsed@.len() - j,
        {
            proof {
                assert(entry_views(out@.push(parsed@[j as int])) =~= entry_views(out@).push(
                    entry_views(parsed@)[j as int],
                ));
            }
            out.push(parsed[j]);
            j += 1;
        }
        i += 1;
    }
    out
}

/// Puts out what unsets everything that the directory configures, but for
/// the keys that the `clear-ignore` setting names.
pub fn clear<S: Shell>(
    output: &mut Output,
    shell: &S,
    saucefile: &Saucefile,
    global_settings: &Settings,
    filter_options: &FilterOptions,
)
    ensures
        final(output)@ == after_items(
            after_local_settings(old(output)@, *saucefile),
            shell,
            (Row::UnsetVar, Row::UnsetAlias, Row::UnsetFunction),
            *saucefile,
            FilterView {
                filter_exclusions: clear_exclusions(
                    ignore_in_force(*saucefile, *global_settings),
                    ignore_in_force(*saucefile, *global_settings).len() as int,
                ),
                ..filter_options@
            },
        ).notified(cleared_message()),
{
    let local_settings = saucefile.settings(output);
    let settings = local_settings.resolve_precedence(global_settings);
    let filter_exclusions = ignore_entries(&settings.clear_ignore);
    let filter_options = FilterOptions {
        as_: filter_options.as_,
        globs: filter_options.globs,
        filters: filter_options.filters,
        filter_exclusions: filter_exclusions.as_slice(),
    };
    let vars = saucefile.vars(&filter_options);
    output.output(render_items(shell, Row::UnsetVar, &vars).as_str());
    let aliases = saucefile.aliases(&filter_options);
    output.output(render_items(shell, Row::UnsetAlias, &aliases).as_str());
    let functions = saucefile.functions(&filter_options);
    output.output(render_items(shell, Row::UnsetFunction, &functions).as_str());
    let message = message1(Tone::BlueBold, "Cleared your sauce");
    output.notify(&message);
}

/// The header of the table of a target.
pub fn table_header(target: Target) -> (header: &'static [&'static str])
    ensures
        header@ == match target {
            Target::EnvVar => VAR_HEADER@,
            Target::Alias => ALIAS_HEADER@,
            Target::Function => FUNCTION_HEADER@,
            Target::File => FILE_HEADER@,
        },
{
    match target {
        Target::EnvVar => &VAR_HEADER,
        Target::Alias => &ALIAS_HEADER,
        Target::Function => &FUNCTION_HEADER,
        Target::File => &FILE_HEADER,
    }
}

/// The header of the table of environment variables.
pub const VAR_HEADER: [&'static str; 2] = ["Variable", "Value"];

/// The header of the table of aliases.
pub const ALIAS_HEADER: [&'static str; 2] = ["Alias", "Value"];

/// The header of the table of shell functions.
pub const FUNCTION_HEADER: [&'static str; 2] = ["Function", "Body"];

/// The header of the table of files.
pub const FILE_HEADER: [&'static str; 2] = ["File", "Content"];

/// The section names of a target.
pub fn target_sections(target: Target) -> (names: &'static [&'static str])
    ensures
        names == match target {
            Target::EnvVar => var_sections(),
            Target::Alias => alias_sections(),
            Target::Function => function_sections(),
            Target::File => file_sections(),
        },
{
    match target {
        Target::EnvVar => var_sections(),
        Target::Alias => alias_sections(),
        Target::Function => function_sections(),
        Target::File => file_sections(),
    }
}

/// The rows of the table of a resolved set: key and value.
pub fn table_data(pairs: &Vec<(String, String)>) -> (cells: Vec<Vec<String>>)
    ensures
        cells@.len() == pairs@.len(),
        forall|i: int|
            0 <= i < cells@.len() ==> (#[trigger] cells@[i])@.len() == 2 && cells@[i]@[0]@
                == pairs@[i].0@ && cells@[i]@[1]@ == pairs@[i].1@,
{
    let mut cells: Vec<Vec<String>> = Vec::new();
    let mut i: usize = 0;
    while i < pairs.len()
        invariant
            i <= pairs@.len(),
            cells@.len() == i,
            forall|k: int|
                0 <= k < i ==> (#[trigger] cells@[k])@.len() == 2 && cells@[k]@[0]@ == pairs@[k].0@
                    && cells@[k]@[1]@ == pairs@[k].1@,
        decreases pairs@.len() - i,
    {
        let mut row: Vec<String> = Vec::new();
        row.push(pairs[i].0.clone());
        row.push(pairs[i].1.clone());
        cells.push(row);
        i += 1;
    }
    cells
}

/// The characters that the frame of the table of a target is drawn with,
/// where they are not the usual ones: bodies of functions and contents of
/// files run over several lines, so their tables have a line between the
/// columns.
pub fn table_preset(target: Target) -> (preset: Option<&'static str>)
    ensures
        match target {
            Target::EnvVar | Target::Alias => preset is None,
            Target::Function | Target::File => preset is Some && preset.unwrap()@
                == "││──╞═╪╡│ │││┬┴┌┐└┘"@,
        },
{
    match target {
        Target::EnvVar => None,
        Target::Alias => None,
        Target::Function => Some("││──╞═╪╡│ │││┬┴┌┐└┘"),
        Target::File => Some("││──╞═╪╡│ │││┬┴┌┐└┘"),
    }
}

/// Shows the resolved set of a target as a table, and hands back the table
/// as it was laid out.
///
/// The table is laid out for the terminal at hand, so nothing is said of
/// its text but that it is a line. What goes into it is: the header of the
/// target, the resolved set of its section family as rows of key and
/// value, and the frame of the target.
pub fn show(output: &mut Output, filter_options: &FilterOptions, target: Target, saucefile: &Saucefile) -> (table:
    String)
    ensures
        final(output)@ == old(output)@.with_message(table@),
        table@.len() == 0 || table@.last() == '\n',
{
    let header = table_header(target);
    let pairs = saucefile.section(target_sections(target), filter_options);
    let cells = table_data(&pairs);
    let table = output.format_table(header, &cells, table_preset(target));
    output.notify_str(table.as_str());
    table
}

/// The output after `put_out_values`: nothing but what reading the
/// settings says where the directory was entered and `autoload` is off,
/// else the commands that set the variables, the aliases and the
/// functions.
pub open spec fn after_values<S: Shell>(
    before: OutputView,
    shell: &S,
    saucefile: Saucefile,
    global_settings: Settings,
    filters: FilterView,
    autoload_flag: bool,
) -> OutputView {
    if !autoload_flag {
        after_items(
            before,
            shell,
            (Row::SetVar, Row::SetAlias, Row::SetFunction),
            saucefile,
            filters,
        )
    } else if autoload_in_force(saucefile, global_settings) {
        after_items(
            after_local_settings(before, saucefile),
            shell,
            (Row::SetVar, Row::SetAlias, Row::SetFunction),
            saucefile,
            filters,
        )
    } else {
        after_local_settings(before, saucefile)
    }
}

/// Puts out what sets everything that the directory configures. The
/// answer is `true` where that was done.
///
/// With `autoload_flag` the command runs because the directory was
/// entered. It then does something only where the `autoload` setting is
/// on; where it is off, nothing is put out and the answer is `false`.
pub fn put_out_values<S: Shell>(
    output: &mut Output,
    shell: &S,
    saucefile: &Saucefile,
    global_settings: &Settings,
    filter_options: &FilterOptions,
    autoload_flag: bool,
) -> (sauced: bool)
    ensures
        sauced == (!autoload_flag || autoload_in_force(*saucefile, *global_settings)),
        final(output)@ == after_values(
            old(output)@,
            shell,
            *saucefile,
            *global_settings,
            filter_options@,
            autoload_flag,
        ),
{
    if autoload_flag {
        let settings = saucefile.settings(output).resolve_precedence(global_settings);
        if !settings.autoload {
            return false;
        }
    }
    let vars = saucefile.vars(filter_options);
    output.output(render_items(shell, Row::SetVar, &vars).as_str());
    let aliases = saucefile.aliases(filter_options);
    output.output(render_items(shell, Row::SetAlias, &aliases).as_str());
    let functions = saucefile.functions(filter_options);
    output.output(render_items(shell, Row::SetFunction, &functions).as_str());
    true
}

/// Puts out what sets everything that the directory configures, and says
/// which file was sourced. The answer is `true` where that was done.
///
/// With `autoload_flag` the command runs because the directory was
/// entered. It then does something only where the `autoload` setting is
/// on; where it is off, nothing is put out and the answer is `false`.
pub fn execute<S: Shell>(
    output: &mut Output,
    shell: &S,
    saucefile: &Saucefile,
    global_settings: &Settings,
    filter_options: &FilterOptions,
    autoload_flag: bool,
) -> (sauced: bool)
    ensures
        sauced == (!autoload_flag || autoload_in_force(*saucefile, *global_settings)),
        autoload_flag && !sauced ==> final(output)@ == after_local_settings(
            old(output)@,
            *saucefile,
        ),
        sauced ==> final(output)@ == after_items(
            if autoload_flag {
                after_local_settings(old(output)@, *saucefile)
            } else {
                old(output)@
            },
            shell,
            (Row::SetVar, Row::SetAlias, Row::SetFunction),
            *saucefile,
            filter_options@,
        ).notified(sourced_message(saucefile.leaf_path())),
{
    if !put_out_values(output, shell, saucefile, global_settings, filter_options, autoload_flag) {
        return false;
    }
    let path = match &saucefile.path {
        Some(path) => path.as_str(),
        None => "",
    };
    proof {
        reveal_strlit("");
        assert(""@ =~= Seq::<char>::empty());
    }
    let message = message2(Tone::BlueBold, "Sourced ", Tone::Yellow, path);
    output.notify(&message);
    true
}

} // verus!
