//! What a command says: the shell code for standard output and the
//! messages for standard error.
//!
//! An `Output` gathers both as text. Whoever runs the command writes the
//! gathered text to the two streams.

use crate::colors::{
    message1, message2, message_and, message_view, render, rendered, Message, Painted, Tone,
};
use crate::text::{char_len, find_last_char, last_index};
use crate::toml::{
    document_rendered, document_root, document_text, document_with, holds_entry, item_as_value,
    item_child, item_child_keys, item_value, keeps_others, makes_table, section_is_table,
    section_takes_keys, set_entry, takes_keys, unwrap_toml_value, value_text,
};
use comfy_table::Cell;
use toml_edit::{DocumentMut, Item};
use vstd::prelude::*;

verus! {

/// Why a command failed. The process exits with the code of the last
/// failure.
#[derive(Debug, Clone, Copy, PartialEq, Eq, Structural)]
pub enum ErrorCode {
    /// A file could not be made or written.
    WriteError,
    /// A document or a value is no valid TOML.
    ParseError,
    /// A name given to the `config` command is no setting.
    UnrecognizedSetting,
}

/// The gathered text, the switches and the last failure.
#[derive(Debug)]
pub struct Output {
    out: String,
    err: String,
    color: bool,
    quiet: bool,
    verbose: bool,
    show: bool,
    code: Option<ErrorCode>,
}

/// What an `Output` stands for.
pub struct OutputView {
    pub out: Seq<char>,
    pub err: Seq<char>,
    pub color: bool,
    pub quiet: bool,
    pub verbose: bool,
    pub show: bool,
    pub code: Option<ErrorCode>,
}

/// A text as a line: a text that is not empty gets a newline at its end.
pub open spec fn as_line(text: Seq<char>) -> Seq<char> {
    if text.len() == 0 {
        text
    } else {
        text.push('\n')
    }
}

/// A cell of a `comfy_table` table. Nothing of its inside is known here.
#[verifier::external_type_specification]
#[verifier::external_body]
pub struct ExCell(Cell);

/// The cell that `comfy_table` makes of a text.
pub uninterp spec fn cell_of(text: Seq<char>) -> Cell;

/// The cell with a foreground colour.
pub uninterp spec fn cell_with_fg(cell: Cell, r: u8, g: u8, b: u8) -> Cell;

/// The cell in bold.
pub uninterp spec fn cell_bolded(cell: Cell) -> Cell;

/// Calls `Cell::new`.
#[verifier::external_body]
fn new_cell(text: &str) -> (cell: Cell)
    ensures
        cell == cell_of(text@),
{
    Cell::new(text)
}

/// Calls `Cell::fg` with `Color::Rgb` of the three parts.
#[verifier::external_body]
fn cell_fg(cell: Cell, r: u8, g: u8, b: u8) -> (out: Cell)
    ensures
        out == cell_with_fg(cell, r, g, b),
{
    cell.fg(comfy_table::Color::Rgb { r, g, b })
}

/// Calls `Cell::add_attribute` with `Attribute::Bold`.
#[verifier::external_body]
fn cell_bold(cell: Cell) -> (out: Cell)
    ensures
        out == cell_bolded(cell),
{
    cell.add_attribute(comfy_table::Attribute::Bold)
}

/// Lays out a table with `comfy_table`: dynamic arrangement, the given
/// preset and header, styling enforced, then the rows. How wide the table
/// comes out depends on the terminal, so nothing is said of the text.
#[verifier::external_body]
fn render_table(headers: &[&str], rows: Vec<Vec<Cell>>, preset: &str) -> String {
    let mut table = comfy_table::Table::new();
    table.set_content_arrangement(comfy_table::ContentArrangement::Dynamic);
    table.load_preset(preset);
    table.set_header(headers);
    table.enforce_styling();
    for row in rows {
        table.add_row(row);
    }
    table.to_string()
}

/// The cell of the text in column `column`. With colour the first column
/// is bold and steel blue, the others are yellow.
pub open spec fn table_cell(color: bool, column: int, text: Seq<char>) -> Cell {
    if !color {
        cell_of(text)
    } else if column == 0 {
        cell_with_fg(cell_bolded(cell_of(text)), 70, 130, 180)
    } else {
        cell_with_fg(cell_of(text), 250, 180, 47)
    }
}

/// Whether `rows` are the cells of `data`.
pub open spec fn cells_of(rows: Seq<Vec<Cell>>, color: bool, data: Seq<Vec<String>>) -> bool {
    &&& rows.len() == data.len()
    &&& forall|i: int|
        0 <= i < rows.len() ==> (#[trigger] rows[i])@.len() == data[i]@.len() && forall|j: int|
            0 <= j < rows[i]@.len() ==> (#[trigger] rows[i]@[j]) == table_cell(
                color,
                j,
                data[i]@[j]@,
            )
}

/// The cells of `data`, row by row.
pub fn table_rows(color: bool, data: &Vec<Vec<String>>) -> (rows: Vec<Vec<Cell>>)
    ensures
        cells_of(rows@, color, data@),
{
    let mut rows: Vec<Vec<Cell>> = Vec::new();
    let mut i: usize = 0;
    while i < data.len()
        invariant
            i <= data@.len(),
            cells_of(rows@, color, data@.take(i as int)),
        decreases data@.len() - i,
    {
        let mut row: Vec<Cell> = Vec::new();
        let mut j: usize = 0;
        while j < data[i].len()
            invariant
                i < data@.len(),
                j <= data@[i as int]@.len(),
                row@.len() == j,
                forall|k: int|
                    0 <= k < j ==> (#[trigger] row@[k]) == table_cell(
                        color,
                        k,
                        data@[i as int]@[k]@,
                    ),
            decreases data@[i as int]@.len() - j,
        {
            let mut cell = new_cell(data[i][j].as_str());
            if color {
                if j == 0 {
                    cell = cell_fg(cell_bold(cell), 70, 130, 180);
                } else {
                    cell = cell_fg(cell, 250, 180, 47);
                }
            }
            row.push(cell);
            j += 1;
        }
        rows.push(row);
        i += 1;
    }
    rows
}

/// The characters that the frame of a table is drawn with, unless
/// another preset is given.
pub fn default_preset() -> (preset: &'static str)
    ensures
        preset@ == "││──╞═╪╡│    ┬┴┌┐└┘"@,
{
    "││──╞═╪╡│    ┬┴┌┐└┘"
}

/// The text of an item that holds a value; an item that holds none has
/// the empty text.
pub open spec fn item_text(item: Item) -> Seq<char> {
    match item_value(item) {
        Some(value) => value_text(value),
        None => Seq::empty(),
    }
}

/// The names and items of a list of values to set.
pub open spec fn value_views(values: Seq<(String, Item)>) -> Seq<(Seq<char>, Item)> {
    Seq::new(values.len(), |i: int| (values[i].0@, values[i].1))
}

/// The message that announces one value.
pub open spec fn setting_message(name: Seq<char>, text: Seq<char>) -> Message {
    seq![
        (Tone::Plain, "Setting "@),
        (Tone::BlueBold, name),
        (Tone::Plain, " = "@),
        (Tone::Yellow, text),
    ]
}

/// The message for a section that is a value and so takes no keys.
pub open spec fn not_a_table_message(heading: Seq<char>) -> Message {
    seq![(Tone::RedBold, "Cannot set values under "@), (Tone::YellowBold, heading)]
}

/// The message for a file that could not be opened for writing.
pub open spec fn not_opened_message(file: Seq<char>) -> Message {
    seq![(Tone::RedBold, "Could not open "@), (Tone::YellowBold, file)]
}

/// The message for a file that could not be written.
pub open spec fn not_written_message() -> Message {
    seq![(Tone::RedBold, "Failed to write settings"@)]
}

/// The output after the first `upto` values were announced.
pub open spec fn announced(before: OutputView, values: Seq<(Seq<char>, Item)>, upto: int) -> OutputView
    decreases upto,
{
    if upto <= 0 || upto > values.len() {
        before
    } else {
        announced(before, values, upto - 1).with_message(
            as_line(
                rendered(
                    setting_message(values[upto - 1].0, item_text(values[upto - 1].1)),
                    before.color,
                ),
            ),
        )
    }
}

/// The document after the first `upto` values were set under `heading`.
pub open spec fn with_values(
    before: DocumentMut,
    heading: Seq<char>,
    values: Seq<(Seq<char>, Item)>,
    upto: int,
) -> DocumentMut
    decreases upto,
{
    if upto <= 0 || upto > values.len() {
        before
    } else {
        document_with(
            with_values(before, heading, values, upto - 1),
            heading,
            values[upto - 1].0,
            values[upto - 1].1,
        )
    }
}

/// The directory that holds `file`: what stands before its last `/`. A
/// file directly under the root is held by `/`, a bare name by the empty
/// path. The root and the empty path are held by nothing.
pub open spec fn parent_of(file: Seq<char>) -> Option<Seq<char>> {
    match last_index(file, '/') {
        None => if file.len() == 0 {
            None
        } else {
            Some(Seq::empty())
        },
        Some(i) => if i > 0 {
            Some(file.take(i))
        } else if file.len() == 1 {
            None
        } else {
            Some(seq!['/'])
        },
    }
}

/// What is to be done next in making a file.
#[derive(Debug)]
pub enum FileStep {
    /// Make the directory, and those above it that are missing.
    MakeDirs(String),
    /// See whether the file is there.
    Probe,
    /// Make the file.
    MakeFile,
    /// Nothing: the file was made, or could not be, with what was said.
    Done(Result<(), String>),
}

/// What was done last in making a file, and how it went.
#[derive(Debug, Clone, Copy, PartialEq, Eq, Structural)]
pub enum FileEvent {
    /// Nothing yet.
    Begin,
    /// The directories were made, or could not be.
    DirsMade(bool),
    /// The file is there, or is not.
    Probed(bool),
    /// The file was made, or could not be.
    FileMade(bool),
}

/// What a `FileStep` stands for.
pub enum FileStepView {
    MakeDirs(Seq<char>),
    Probe,
    MakeFile,
    Created,
    Failed(Seq<char>),
}

impl View for FileStep {
    type V = FileStepView;

    open spec fn view(&self) -> FileStepView {
        match self {
            FileStep::MakeDirs(parent) => FileStepView::MakeDirs(parent@),
            FileStep::Probe => FileStepView::Probe,
            FileStep::MakeFile => FileStepView::MakeFile,
            FileStep::Done(Ok(_)) => FileStepView::Created,
            FileStep::Done(Err(said)) => FileStepView::Failed(said@),
        }
    }
}

/// The message for a directory that could not be made.
pub open spec fn no_directory_message(parent: Seq<char>) -> Message {
    seq![(Tone::Red, "Couldn't create "@), (Tone::Yellow, parent)]
}

/// The message for a file that is there already.
pub open spec fn exists_message(file: Seq<char>) -> Message {
    seq![(Tone::RedBold, "File already exists at "@), (Tone::Yellow, file)]
}

/// The message for a file that could not be made.
pub open spec fn no_file_message(file: Seq<char>) -> Message {
    seq![(Tone::RedBold, "Couldn't create "@), (Tone::Yellow, file)]
}

/// The message for a file that was made.
pub open spec fn created_message(file: Seq<char>) -> Message {
    seq![(Tone::BlueBold, "Created "@), (Tone::Yellow, file)]
}

/// The message for a file that was moved.
pub open spec fn moved_message(source: Seq<char>, dest: Seq<char>) -> Message {
    seq![
        (Tone::Blue, "Moved "@),
        (Tone::Yellow, source),
        (Tone::Blue, " to "@),
        (Tone::Yellow, dest),
    ]
}

/// The message for a file that could not be moved.
pub open spec fn not_moved_message(source: Seq<char>, dest: Seq<char>) -> Message {
    seq![
        (Tone::Red, "Failed to move "@),
        (Tone::Yellow, source),
        (Tone::Red, " to "@),
        (Tone::Yellow, dest),
    ]
}

/// The next step in making `file`, and the output after it was decided.
///
/// First the directory of the file is made, unless changes are only
/// shown or the file has no directory. Then the file must not be there
/// yet. Then the file is made, unless changes are only shown. A step that
/// fails ends the making with a write error; at the end the file is said
/// to be made.
pub open spec fn file_step(before: OutputView, file: Seq<char>, event: FileEvent) -> (
    OutputView,
    FileStepView,
) {
    match event {
        FileEvent::Begin => if parent_of(file) is Some && !before.show {
            (before, FileStepView::MakeDirs(parent_of(file).unwrap()))
        } else {
            (before, FileStepView::Probe)
        },
        FileEvent::DirsMade(made) => if made {
            (before, FileStepView::Probe)
        } else {
            failed_step(
                before,
                no_directory_message(
                    match parent_of(file) {
                        Some(p) => p,
                        None => Seq::empty(),
                    },
                ),
            )
        },
        FileEvent::Probed(there) => if there {
            failed_step(before, exists_message(file))
        } else if before.show {
            (before.notified(created_message(file)), FileStepView::Created)
        } else {
            (before, FileStepView::MakeFile)
        },
        FileEvent::FileMade(made) => if made {
            (before.notified(created_message(file)), FileStepView::Created)
        } else {
            failed_step(before, no_file_message(file))
        },
    }
}

/// A step that fails: the write error is noted, the message is given and
/// handed back.
pub open spec fn failed_step(before: OutputView, message: Message) -> (OutputView, FileStepView) {
    (
        before.failed(ErrorCode::WriteError).notified(message),
        FileStepView::Failed(before.said(as_line(rendered(message, before.color)))),
    )
}

/// How a file is moved.
#[derive(Debug, Clone, Copy, PartialEq, Eq, Structural)]
pub enum MoveAction {
    /// Not at all: changes are only shown.
    Nothing,
    /// By copying it.
    Copy,
    /// By renaming it.
    Rename,
}

/// Whether the value at `index` is the last one given for its name.
pub open spec fn is_last_for_name(values: Seq<(Seq<char>, Item)>, index: int) -> bool {
    forall|later: int| index < later < values.len() ==> (#[trigger] values[later]).0 != values[index].0
}

/// What stands in a document after values were set under `heading`: the
/// section is a table with a header of its own where it was one or was
/// not there, and under each name stands the value given last for it.
pub open spec fn values_stand(
    root: Item,
    root_before: Item,
    heading: Seq<char>,
    values: Seq<(Seq<char>, Item)>,
) -> bool {
    values.len() > 0 ==> {
        &&& section_is_table(root, heading) == makes_table(root_before, heading)
        &&& forall|j: int|
            0 <= j < values.len() && is_last_for_name(values, j) && item_value(
                (#[trigger] values[j]).1,
            ) is Some ==> holds_entry(root, heading, values[j].0, values[j].1)
    }
}

/// What `write_toml` leaves. In show mode every value is announced and
/// nothing is changed. Otherwise, where `heading` can take keys, every
/// value is announced and set, and the document is to be written back;
/// where it cannot, a write error is noted and nothing else happens.
pub open spec fn toml_written(
    before: OutputView,
    document: DocumentMut,
    heading: Seq<char>,
    values: Seq<(Seq<char>, Item)>,
    after: OutputView,
    changed_document: DocumentMut,
    changed: bool,
) -> bool {
    if before.show {
        &&& !changed
        &&& changed_document == document
        &&& after == announced(before, values, values.len() as int)
    } else if takes_keys(document_root(document), heading) {
        &&& changed
        &&& changed_document == with_values(document, heading, values, values.len() as int)
        &&& values_stand(document_root(changed_document), document_root(document), heading, values)
        &&& after == announced(before, values, values.len() as int)
    } else {
        &&& !changed
        &&& changed_document == document
        &&& after == before.failed(ErrorCode::WriteError).notified(not_a_table_message(heading))
    }
}

impl ErrorCode {
    /// The exit code: 1 for a write error, 2 for a parse error and for a
    /// name that is no setting.
    pub open spec fn number(self) -> i32 {
        match self {
            ErrorCode::WriteError => 1,
            ErrorCode::ParseError => 2,
            ErrorCode::UnrecognizedSetting => 2,
        }
    }

    /// The exit code.
    pub fn code(self) -> (n: i32)
        ensures
            n == self.number(),
    {
        match self {
            ErrorCode::WriteError => 1,
            ErrorCode::ParseError => 2,
            ErrorCode::UnrecognizedSetting => 2,
        }
    }
}

impl OutputView {
    /// After a result `text` was put out. The result goes to standard
    /// output, or in show mode to standard error. In verbose mode it goes
    /// to standard error as well.
    pub open spec fn with_output(self, text: Seq<char>) -> OutputView {
        let data = as_line(text);
        let err = if self.show {
            self.err + data
        } else {
            self.err
        };
        OutputView {
            out: if self.show {
                self.out
            } else {
                self.out + data
            },
            err: if self.verbose {
                err + data
            } else {
                err
            },
            ..self
        }
    }

    /// After the message `text` was given. A quiet output drops it.
    pub open spec fn with_message(self, text: Seq<char>) -> OutputView {
        if self.quiet {
            self
        } else {
            OutputView { err: self.err + text, ..self }
        }
    }

    /// After a message of styled pieces was given, as a line.
    pub open spec fn notified(self, message: Message) -> OutputView {
        self.with_message(as_line(rendered(message, self.color)))
    }

    /// After a complaint was written. It goes to standard error as a line,
    /// in colour, whether or not the output is quiet or coloured.
    pub open spec fn complained(self, message: Message) -> OutputView {
        OutputView { err: self.err + as_line(rendered(message, true)), ..self }
    }

    /// What `notify_str` hands back for the message `text`.
    pub open spec fn said(self, text: Seq<char>) -> Seq<char> {
        if self.quiet {
            Seq::empty()
        } else {
            text
        }
    }

    /// After a failure was noted.
    pub open spec fn failed(self, code: ErrorCode) -> OutputView {
        OutputView { code: Some(code), ..self }
    }
}

impl View for Output {
    type V = OutputView;

    closed spec fn view(&self) -> OutputView {
        OutputView {
            out: self.out@,
            err: self.err@,
            color: self.color,
            quiet: self.quiet,
            verbose: self.verbose,
            show: self.show,
            code: self.code,
        }
    }
}

impl Default for Output {
    fn default() -> (r: Self)
        ensures
            r@ == (OutputView {
                out: Seq::empty(),
                err: Seq::empty(),
                color: false,
                quiet: false,
                verbose: false,
                show: false,
                code: None,
            }),
    {
        Output::new()
    }
}

impl Output {
    /// An output that has gathered nothing, with every switch off.
    pub fn new() -> (r: Self)
        ensures
            r@ == (OutputView {
                out: Seq::empty(),
                err: Seq::empty(),
                color: false,
                quiet: false,
                verbose: false,
                show: false,
                code: None,
            }),
    {
        Self {
            out: String::new(),
            err: String::new(),
            color: false,
            quiet: false,
            verbose: false,
            show: false,
            code: None,
        }
    }

    /// The output with messages switched off or on.
    pub fn quiet(self, value: bool) -> (r: Self)
        ensures
            r@ == (OutputView { quiet: value, ..self@ }),
    {
        let mut r = self;
        r.set_quiet(value);
        r
    }

    /// Switches messages off or on.
    pub fn set_quiet(&mut self, value: bool)
        ensures
            final(self)@ == (OutputView { quiet: value, ..old(self)@ }),
    {
        self.quiet = value;
    }

    /// The output with results repeated on standard error, or not.
    pub fn verbose(self, value: bool) -> (r: Self)
        ensures
            r@ == (OutputView { verbose: value, ..self@ }),
    {
        let mut r = self;
        r.set_verbose(value);
        r
    }

    /// Has results repeated on standard error, or not.
    pub fn set_verbose(&mut self, value: bool)
        ensures
            final(self)@ == (OutputView { verbose: value, ..old(self)@ }),
    {
        self.verbose = value;
    }

    /// The output with messages in colour, or not.
    pub fn color(self, value: bool) -> (r: Self)
        ensures
            r@ == (OutputView { color: value, ..self@ }),
    {
        let mut r = self;
        r.color = value;
        r
    }

    /// The output with changes only shown, or made.
    pub fn show(self, value: bool) -> (r: Self)
        ensures
            r@ == (OutputView { show: value, ..self@ }),
    {
        let mut r = self;
        r.set_show(value);
        r
    }

    /// Has changes only shown, or made.
    pub fn set_show(&mut self, value: bool)
        ensures
            final(self)@ == (OutputView { show: value, ..old(self)@ }),
    {
        self.show = value;
    }

    /// Whether messages are written with colour.
    pub fn is_colored(&self) -> (r: bool)
        ensures
            r == self@.color,
    {
        self.color
    }

    /// Whether changes are only shown, not made.
    pub fn is_show(&self) -> (r: bool)
        ensures
            r == self@.show,
    {
        self.show
    }

    /// The text gathered for standard output.
    pub fn result(&self) -> (r: &str)
        ensures
            r@ == self@.out,
    {
        self.out.as_str()
    }

    /// The text gathered for standard error.
    pub fn message(&self) -> (r: &str)
        ensures
            r@ == self@.err,
    {
        self.err.as_str()
    }

    /// The text as a line.
    pub fn format(&self, output: &str) -> (result: String)
        ensures
            result@ == as_line(output@),
    {
        let mut result = output.to_owned();
        if !output.is_empty() {
            result.push('\n');
        }
        result
    }

    /// A table of `data` under `headers`, as a line. The cells are those
    /// of `table_rows`; the frame is `preset`, or the usual one. How the
    /// table comes out depends on the terminal, so nothing is said of its
    /// text but that it is a line.
    pub fn format_table(&self, headers: &[&str], data: &Vec<Vec<String>>, preset: Option<&str>) -> (out:
        String)
        ensures
            out@.len() == 0 || out@.last() == '\n',
    {
        let rows = table_rows(self.color, data);
        let table = match preset {
            Some(preset) => render_table(headers, rows, preset),
            None => render_table(headers, rows, default_preset()),
        };
        self.format(table.as_str())
    }

    /// Puts out a result. Nothing can go wrong in gathering it, so the
    /// answer is always `true`.
    pub fn output(&mut self, output: &str) -> (r: bool)
        ensures
            final(self)@ == old(self)@.with_output(output@),
            r,
    {
        let data = self.format(output);
        if self.show {
            self.err.append(data.as_str());
        } else {
            self.out.append(data.as_str());
        }
        if self.verbose {
            self.err.append(data.as_str());
        }
        true
    }

    /// Gives a message made of styled pieces, as a line, and hands back
    /// what was said.
    pub fn notify(&mut self, message: &Vec<Painted>) -> (r: String)
        ensures
            final(self)@ == old(self)@.with_message(
                as_line(rendered(message_view(message@), old(self)@.color)),
            ),
            r@ == old(self)@.said(as_line(rendered(message_view(message@), old(self)@.color))),
    {
        let text = render(message, self.color);
        let line = self.format(text.as_str());
        self.notify_str(line.as_str())
    }

    /// Gives a message as it stands and hands back what was said: the
    /// message, or nothing where the output is quiet.
    pub fn notify_str(&mut self, message: &str) -> (r: String)
        ensures
            final(self)@ == old(self)@.with_message(message@),
            r@ == old(self)@.said(message@),
    {
        if self.quiet {
            String::new()
        } else {
            self.err.append(message);
            message.to_owned()
        }
    }

    /// Writes a complaint to standard error, as a line and in colour,
    /// whatever the switches say.
    pub fn complain(&mut self, message: &Vec<Painted>)
        ensures
            final(self)@ == old(self)@.complained(message_view(message@)),
    {
        let text = render(message, true);
        let line = self.format(text.as_str());
        self.err.append(line.as_str());
    }

    /// Notes a failure and gives its message.
    pub fn notify_error(&mut self, code: ErrorCode, message: &Vec<Painted>) -> (r: String)
        ensures
            final(self)@ == old(self)@.failed(code).with_message(
                as_line(rendered(message_view(message@), old(self)@.color)),
            ),
            r@ == old(self)@.said(as_line(rendered(message_view(message@), old(self)@.color))),
    {
        self.code = Some(code);
        self.notify(message)
    }

    /// The exit code of the last failure, if there was one.
    pub fn error_code(&self) -> (r: Option<i32>)
        ensures
            r == match self@.code {
                Some(code) => Some(code.number()),
                None => None,
            },
    {
        match self.code {
            Some(code) => Some(code.code()),
            None => None,
        }
    }

    /// Announces each value and, unless changes are only shown, sets it
    /// under `heading` of the document. The answer says whether the
    /// document was changed and is to be written back.
    ///
    /// Where `heading` names something that is no table, nothing is
    /// announced or set, and a write error is noted.
    pub fn write_toml(
        &mut self,
        document: &mut DocumentMut,
        heading: &str,
        values: Vec<(String, Item)>,
    ) -> (changed: bool)
        ensures
            toml_written(
                old(self)@,
                *old(document),
                heading@,
                value_views(values@),
                final(self)@,
                *final(document),
                changed,
            ),
    {
        let show = self.show;
        if !show && !section_takes_keys(document, heading) {
            let message = message2(
                Tone::RedBold,
                "Cannot set values under ",
                Tone::YellowBold,
                heading,
            );
            self.notify_error(ErrorCode::WriteError, &message);
            return false;
        }
        let ghost start = self@;
        let ghost first = *document;
        let ghost all = value_views(values@);
        let mut rest = values;
        let mut done: usize = 0;
        let total = rest.len();
        while rest.len() > 0
            invariant
                done + rest@.len() == total,
                total == all.len(),
                forall|j: int|
                    0 <= j < rest@.len() ==> (#[trigger] rest@[j]).0@ == all[done + j].0
                        && rest@[j].1 == all[done + j].1,
                self@ == announced(start, all, done as int),
                self@.show == show,
                self@.color == start.color,
                start.show == show,
                show ==> *document == first,
                !show ==> *document == with_values(first, heading@, all, done as int),
                !show ==> takes_keys(document_root(*document), heading@),
                !show ==> values_stand(
                    document_root(*document),
                    document_root(first),
                    heading@,
                    all.take(done as int),
                ),
                !show && done > 0 ==> item_child(document_root(*document), heading@) is Some,
            decreases rest@.len(),
        {
            let (name, value) = rest.remove(0);
            let text = match item_as_value(&value) {
                Some(v) => unwrap_toml_value(v),
                None => String::new(),
            };
            let message = message_and(
                message_and(
                    message2(Tone::Plain, "Setting ", Tone::BlueBold, name.as_str()),
                    Tone::Plain,
                    " = ",
                ),
                Tone::Yellow,
                text.as_str(),
            );
            proof {
                assert(message_view(message@) =~= setting_message(name@, item_text(value)));
            }
            self.notify(&message);
            if !show {
                let ghost root_before = document_root(*document);
                set_entry(document, heading, name.as_str(), value);
                proof {
                    let root = document_root(*document);
                    let set = all.take(done + 1);
                    let earlier = all.take(done as int);
                    assert forall|j: int|
                        0 <= j < set.len() && is_last_for_name(set, j) && item_value(
                            (#[trigger] set[j]).1,
                        ) is Some implies holds_entry(root, heading@, set[j].0, set[j].1) by {
                        if j < done {
                            assert(set[done as int].0 != set[j].0);
                            assert(earlier[j] == set[j]);
                            assert forall|later: int| j < later < earlier.len() implies (
                            #[trigger] earlier[later]).0 != earlier[j].0 by {
                                assert(set[later] == earlier[later]);
                            }
                            assert(holds_entry(root_before, heading@, set[j].0, set[j].1));
                        }
                    }
                }
            }
            done += 1;
        }
        proof {
            assert(all.take(done as int) =~= all);
        }
        !show
    }

    /// The text to write to `file`, which was opened for writing or could
    /// not be: the document as text, or nothing and a write error.
    pub fn write_contents(&mut self, opened: bool, file: &str, document: &DocumentMut) -> (text:
        Option<String>)
        ensures
            opened ==> final(self)@ == old(self)@ && text is Some && text.unwrap()@
                == document_rendered(*document),
            !opened ==> text is None && final(self)@ == old(self)@.failed(
                ErrorCode::WriteError,
            ).with_message(as_line(rendered(not_opened_message(file@), old(self)@.color))),
    {
        if opened {
            Some(document_text(document))
        } else {
            let message = message2(Tone::RedBold, "Could not open ", Tone::YellowBold, file);
            self.notify_error(ErrorCode::WriteError, &message);
            None
        }
    }

    /// Notes how writing a document went: a write error with its message
    /// for the text that could not be written, and one more for the file
    /// that could not be flushed.
    pub fn write_finished(&mut self, written: bool, flushed: bool)
        ensures
            final(self)@ == ({
                let first = if written {
                    old(self)@
                } else {
                    old(self)@.failed(ErrorCode::WriteError).with_message(
                        as_line(rendered(not_written_message(), old(self)@.color)),
                    )
                };
                if flushed {
                    first
                } else {
                    first.failed(ErrorCode::WriteError).with_message(
                        as_line(rendered(not_written_message(), old(self)@.color)),
                    )
                }
            }),
    {
        if !written {
            let message = message1(Tone::RedBold, "Failed to write settings");
            self.notify_error(ErrorCode::WriteError, &message);
        }
        if !flushed {
            let message = message1(Tone::RedBold, "Failed to write settings");
            self.notify_error(ErrorCode::WriteError, &message);
        }
    }

    /// The directory that holds `file`.
    pub fn parent(file: &str) -> (r: Option<String>)
        ensures
            match r {
                Some(p) => parent_of(file@) == Some(p@),
                None => parent_of(file@) is None,
            },
    {
        match find_last_char(file, '/') {
            None => {
                if file.is_empty() {
                    None
                } else {
                    Some(String::new())
                }
            },
            Some(i) => {
                if i > 0 {
                    let p = file.substring_char(0, i);
                    Some(p.to_owned())
                } else if char_len(file) == 1 {
                    None
                } else {
                    let mut p = String::new();
                    p.push('/');
                    Some(p)
                }
            },
        }
    }

    /// The next step in making the file `file`, given what was done last.
    /// Whoever runs the command starts with `Begin`, does what the step
    /// says, and comes back with how it went, until the step is `Done`.
    pub fn create_file(&mut self, file: &str, event: FileEvent) -> (step: FileStep)
        ensures
            (final(self)@, step@) == file_step(old(self)@, file@, event),
    {
        match event {
            FileEvent::Begin => {
                match Self::parent(file) {
                    Some(parent) => {
                        if self.show {
                            FileStep::Probe
                        } else {
                            FileStep::MakeDirs(parent)
                        }
                    },
                    None => FileStep::Probe,
                }
            },
            FileEvent::DirsMade(made) => {
                if made {
                    FileStep::Probe
                } else {
                    let parent = match Self::parent(file) {
                        Some(p) => p,
                        None => String::new(),
                    };
                    let message = message2(
                        Tone::Red,
                        "Couldn't create ",
                        Tone::Yellow,
                        parent.as_str(),
                    );
                    FileStep::Done(Err(self.notify_error(ErrorCode::WriteError, &message)))
                }
            },
            FileEvent::Probed(there) => {
                if there {
                    let message = message2(
                        Tone::RedBold,
                        "File already exists at ",
                        Tone::Yellow,
                        file,
                    );
                    FileStep::Done(Err(self.notify_error(ErrorCode::WriteError, &message)))
                } else if self.show {
                    self.created(file);
                    FileStep::Done(Ok(()))
                } else {
                    FileStep::MakeFile
                }
            },
            FileEvent::FileMade(made) => {
                if made {
                    self.created(file);
                    FileStep::Done(Ok(()))
                } else {
                    let message = message2(
                        Tone::RedBold,
                        "Couldn't create ",
                        Tone::Yellow,
                        file,
                    );
                    FileStep::Done(Err(self.notify_error(ErrorCode::WriteError, &message)))
                }
            },
        }
    }

    /// Says that `file` was made.
    fn created(&mut self, file: &str)
        ensures
            final(self)@ == old(self)@.notified(created_message(file@)),
    {
        let message = message2(Tone::BlueBold, "Created ", Tone::Yellow, file);
        self.notify(&message);
    }

    /// How a file is to be moved: by copying or renaming it, or not at all
    /// where changes are only shown.
    pub fn move_action(&self, copy: bool) -> (action: MoveAction)
        ensures
            action == if self@.show {
                MoveAction::Nothing
            } else if copy {
                MoveAction::Copy
            } else {
                MoveAction::Rename
            },
    {
        if self.show {
            MoveAction::Nothing
        } else if copy {
            MoveAction::Copy
        } else {
            MoveAction::Rename
        }
    }

    /// Says how moving `source` to `dest` went. Where changes are only
    /// shown, the move counts as done.
    pub fn move_file(&mut self, source: &str, dest: &str, moved: bool) -> (r: Result<(), String>)
        ensures
            old(self)@.show || moved ==> r is Ok && final(self)@ == old(self)@.notified(
                moved_message(source@, dest@),
            ),
            !old(self)@.show && !moved ==> final(self)@ == old(self)@.failed(
                ErrorCode::WriteError,
            ).notified(not_moved_message(source@, dest@)) && r is Err && r.unwrap_err()@
                == old(self)@.said(
                as_line(rendered(not_moved_message(source@, dest@), old(self)@.color)),
            ),
    {
        if self.show || moved {
            let message = message_and(
                message_and(message2(Tone::Blue, "Moved ", Tone::Yellow, source), Tone::Blue, " to "),
                Tone::Yellow,
                dest,
            );
            proof {
                assert(message_view(message@) =~= moved_message(source@, dest@));
            }
            self.notify(&message);
            Ok(())
        } else {
            let message = message_and(
                message_and(
                    message2(Tone::Red, "Failed to move ", Tone::Yellow, source),
                    Tone::Red,
                    " to ",
                ),
                Tone::Yellow,
                dest,
            );
            proof {
                assert(message_view(message@) =~= not_moved_message(source@, dest@));
            }
            Err(self.notify_error(ErrorCode::WriteError, &message))
        }
    }

    /// Hands out the gathered text, that for standard output first, and
    /// starts gathering anew.
    pub fn flush(&mut self) -> (r: (String, String))
        ensures
            r.0@ == old(self)@.out,
            r.1@ == old(self)@.err,
            final(self)@ == (OutputView { out: Seq::empty(), err: Seq::empty(), ..old(self)@ }),
    {
        let mut out = String::new();
        let mut err = String::new();
        std::mem::swap(&mut self.out, &mut out);
        std::mem::swap(&mut self.err, &mut err);
        (out, err)
    }
}

} // verus!
