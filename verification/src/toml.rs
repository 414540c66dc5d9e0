//! Documents: what this crate asks of `toml_edit`, and how a document
//! becomes a layer.
//!
//! A document is opaque here. It is read through a handful of small
//! functions, each of which stands for one function of `toml_edit` and
//! whose result is named by a spec function of its arguments. The layer of
//! a document is defined over those names and built by walking the
//! document through those functions.

use crate::colors::{message2, message_and, rendered, Message, Tone};
use crate::layer::{
    pair_views, table_view, tables_view, Layer, LayerView, Section, SpecValue, ValueSpec,
};
use crate::ordered::{has_key, lemma_position, value_of, Key};
use crate::output::{as_line, ErrorCode, Output, OutputView};
use crate::text::string_views;
use toml_edit::{DocumentMut, Item, TomlError, Value};
use vstd::prelude::*;

verus! {

/// A TOML document that can be changed and keeps its formatting.
#[verifier::external_type_specification]
#[verifier::external_body]
pub struct ExDocumentMut(DocumentMut);

/// What stands under a key of a document: a value, a table, an array of
/// tables, or nothing.
#[verifier::external_type_specification]
#[verifier::external_body]
pub struct ExItem(Item);

/// A TOML value.
#[verifier::external_type_specification]
#[verifier::external_body]
pub struct ExValue(Value);

/// Why a text is no TOML.
#[verifier::external_type_specification]
#[verifier::external_body]
pub struct ExTomlError(TomlError);

/// What parsing a text as a document gives: the document, or the error.
pub uninterp spec fn parsed_document(text: Seq<char>) -> Result<DocumentMut, TomlError>;

/// The message of a parse error.
pub uninterp spec fn error_text(error: TomlError) -> Seq<char>;

/// The root item of a document.
pub uninterp spec fn document_root(document: DocumentMut) -> Item;

/// The text that a document is written as.
pub uninterp spec fn document_rendered(document: DocumentMut) -> Seq<char>;

/// The item under a key of a table or an inline table. An item of another
/// kind has no children.
pub uninterp spec fn item_child(item: Item, key: Seq<char>) -> Option<Item>;

/// The keys of a table or an inline table, in the order of the document.
/// An item of another kind has none.
pub uninterp spec fn item_child_keys(item: Item) -> Seq<Seq<char>>;

/// Whether an item is a table with a header of its own.
pub uninterp spec fn item_table(item: Item) -> bool;

/// The value that an item holds, where it holds one.
pub uninterp spec fn item_value(item: Item) -> Option<Value>;

/// Whether a value is an inline table.
pub uninterp spec fn value_inline(value: Value) -> bool;

/// The content of a value that is a string; a value of another kind has
/// none.
pub uninterp spec fn value_string(value: Value) -> Option<Seq<char>>;

/// The notation of a value: the usual one of an integer, a float, a
/// boolean or a date-time, and the TOML notation of an array or an inline
/// table.
pub uninterp spec fn value_notation(value: Value) -> Seq<char>;

/// The text of a value: the bare content of a string, and the notation of
/// a value of any other kind.
pub open spec fn value_text(value: Value) -> Seq<char> {
    match value_string(value) {
        Some(content) => content,
        None => value_notation(value),
    }
}

/// The boolean that a value holds, where it holds one.
pub uninterp spec fn value_bool(value: Value) -> Option<bool>;

/// The elements of an array value, each as its string content, or nothing
/// for an element that is no string. A value that is no array has no such
/// list.
pub uninterp spec fn value_strings(value: Value) -> Option<Seq<Option<Seq<char>>>>;

/// What parsing a text as a single value gives.
pub uninterp spec fn parsed_value(text: Seq<char>) -> Result<Value, TomlError>;

/// The string value whose content is the text.
pub uninterp spec fn text_value(text: Seq<char>) -> Value;

/// The item that holds a value, formatted for the right-hand side of an
/// assignment.
pub uninterp spec fn item_of(value: Value) -> Item;

/// The document with `key` of the table `section` set to `value`.
pub uninterp spec fn document_with(
    document: DocumentMut,
    section: Seq<char>,
    key: Seq<char>,
    value: Item,
) -> DocumentMut;

/// Parses a document with `toml_edit`'s `FromStr` for `DocumentMut`. The
/// outcome depends on the text alone.
#[verifier::external_body]
pub(crate) fn parse_document(text: &str) -> (r: Result<DocumentMut, TomlError>)
    ensures
        r == parsed_document(text@),
{
    text.parse::<DocumentMut>()
}

/// The message of a `TomlError`, as its `Display` writes it.
#[verifier::external_body]
pub(crate) fn error_message(error: &TomlError) -> (r: String)
    ensures
        r@ == error_text(*error),
{
    error.to_string()
}

/// Calls `DocumentMut::new`: a document whose root table holds nothing,
/// so that it has no keys and nothing stands under any key.
#[verifier::external_body]
pub(crate) fn new_document() -> (r: DocumentMut)
    ensures
        is_blank(r),
{
    DocumentMut::new()
}

/// Calls `DocumentMut::as_item`.
#[verifier::external_body]
pub(crate) fn document_item(document: &DocumentMut) -> (r: &Item)
    ensures
        *r == document_root(*document),
{
    document.as_item()
}

/// Writes the document with its `Display`.
#[verifier::external_body]
pub(crate) fn document_text(document: &DocumentMut) -> (r: String)
    ensures
        r@ == document_rendered(*document),
{
    document.to_string()
}

/// Calls `Item::get` with a string key.
#[verifier::external_body]
pub(crate) fn item_get<'a>(item: &'a Item, key: &str) -> (r: Option<&'a Item>)
    ensures
        match r {
            Some(child) => item_child(*item, key@) == Some(*child),
            None => item_child(*item, key@) is None,
        },
{
    item.get(key)
}

/// The keys that `TableLike::iter` walks, for the table or inline table
/// that `Item::as_table_like` gives; none for another item.
#[verifier::external_body]
pub(crate) fn item_keys(item: &Item) -> (r: Vec<String>)
    ensures
        string_views(r@) == item_child_keys(*item),
{
    match item.as_table_like() {
        Some(table) => table.iter().map(|(key, _)| key.to_string()).collect(),
        None => Vec::new(),
    }
}

/// Calls `Item::is_table`.
#[verifier::external_body]
pub(crate) fn item_is_table(item: &Item) -> (r: bool)
    ensures
        r == item_table(*item),
{
    item.is_table()
}

/// Calls `Item::as_value`.
#[verifier::external_body]
pub(crate) fn item_as_value<'a>(item: &'a Item) -> (r: Option<&'a Value>)
    ensures
        match r {
            Some(value) => item_value(*item) == Some(*value),
            None => item_value(*item) is None,
        },
{
    item.as_value()
}

/// Calls `Value::is_inline_table`.
#[verifier::external_body]
pub(crate) fn value_is_inline_table(value: &Value) -> (r: bool)
    ensures
        r == value_inline(*value),
{
    value.is_inline_table()
}

/// Calls `Value::as_str`: the content of a string, nothing for a value of
/// another kind.
#[verifier::external_body]
pub(crate) fn value_as_str<'a>(value: &'a Value) -> (r: Option<&'a str>)
    ensures
        match r {
            Some(content) => value_string(*value) == Some(content@),
            None => value_string(*value) is None,
        },
{
    value.as_str()
}

/// The notation of a value, kind by kind: what `to_string` writes for the
/// integer, float, boolean or date-time that the value holds, and what the
/// `Display` of an array or an inline table writes. It is asked only of
/// values that are no string; for a string it gives the content.
#[verifier::external_body]
fn value_notated(value: &Value) -> (r: String)
    ensures
        r@ == value_notation(*value),
{
    match value {
        Value::InlineTable(table) => table.to_string(),
        Value::Array(array) => array.to_string(),
        Value::String(text) => text.value().to_string(),
        Value::Integer(number) => number.value().to_string(),
        Value::Boolean(flag) => flag.value().to_string(),
        Value::Float(number) => number.value().to_string(),
        Value::Datetime(moment) => moment.value().to_string(),
    }
}

/// The text of a value. A string gives its content without quotes; every
/// other kind gives its notation.
pub fn unwrap_toml_value(value: &Value) -> (r: String)
    ensures
        r@ == value_text(*value),
{
    match value_as_str(value) {
        Some(content) => content.to_owned(),
        None => value_notated(value),
    }
}

/// Calls `Value::as_bool`.
#[verifier::external_body]
pub(crate) fn value_as_bool(value: &Value) -> (r: Option<bool>)
    ensures
        r == value_bool(*value),
{
    value.as_bool()
}

/// Calls `Value::as_array` and, on each element that `Array::iter` walks,
/// `Value::as_str`.
#[verifier::external_body]
pub(crate) fn value_as_strings(value: &Value) -> (r: Option<Vec<Option<String>>>)
    ensures
        match r {
            Some(list) => value_strings(*value) == Some(option_views(list@)),
            None => value_strings(*value) is None,
        },
{
    value.as_array().map(|array| array.iter().map(|v| v.as_str().map(|s| s.to_string())).collect())
}

/// Parses a single value with `toml_edit`'s `FromStr` for `Value`.
#[verifier::external_body]
pub(crate) fn parse_value(text: &str) -> (r: Result<Value, TomlError>)
    ensures
        r == parsed_value(text@),
{
    text.parse::<Value>()
}

/// Calls `Value::from` on a string slice: the string value whose content
/// is the text. It is no inline table.
#[verifier::external_body]
pub(crate) fn string_value(text: &str) -> (r: Value)
    ensures
        r == text_value(text@),
        value_string(r) == Some(text@),
        !value_inline(r),
{
    Value::from(text)
}

/// Calls `toml_edit::value`, which wraps the value in an item. The item
/// holds that value.
#[verifier::external_body]
pub(crate) fn value_item(value: Value) -> (r: Item)
    ensures
        r == item_of(value),
        item_value(r) == Some(value),
{
    toml_edit::value(value)
}

/// Sets `key` of the table `section` through `Table::entry`,
/// `Entry::or_insert`, `Item::or_insert` and the `IndexMut` of `Item`.
///
/// The section is made, as a table, where the document has nothing of
/// that name; a section that is there stays what it is. An item of that
/// name that is neither a table nor an inline table cannot take a key, and
/// is left out here. Afterwards the section is there, is among the keys of
/// the root and still takes keys; a value that was set stands under its
/// key, which is among the keys of the section; and what stood under the
/// other keys of the section still stands there.
#[verifier::external_body]
pub(crate) fn set_entry(document: &mut DocumentMut, section: &str, key: &str, value: Item)
    requires
        takes_keys(document_root(*old(document)), section@),
    ensures
        *final(document) == document_with(*old(document), section@, key@, value),
        takes_keys(document_root(*final(document)), section@),
        item_child(document_root(*final(document)), section@) is Some,
        item_child_keys(document_root(*final(document))).contains(section@),
        keeps_others(
            document_root(*final(document)),
            document_root(*old(document)),
            section@,
            key@,
        ),
        section_is_table(document_root(*final(document)), section@) == makes_table(
            document_root(*old(document)),
            section@,
        ),
        item_value(value) is Some ==> holds_entry(
            document_root(*final(document)),
            section@,
            key@,
            value,
        ),
{
    let table = document.entry(section).or_insert(toml_edit::table());
    table.or_insert(toml_edit::table())[key] = value;
}

/// Whether `section` of `root` still has, under every key but `key`, what
/// it had in `root_before`, and still has those keys among its keys.
pub open spec fn keeps_others(
    root: Item,
    root_before: Item,
    section: Seq<char>,
    key: Seq<char>,
) -> bool {
    match (item_child(root, section), item_child(root_before, section)) {
        (Some(after), Some(before)) => {
            &&& forall|other: Seq<char>|
                other != key ==> item_child(after, other) == #[trigger] item_child(before, other)
            &&& forall|other: Seq<char>|
                other != key && #[trigger] item_child_keys(before).contains(other)
                    ==> item_child_keys(after).contains(other)
        },
        _ => true,
    }
}

/// Whether `section` of `root` is a table with a header of its own.
pub open spec fn section_is_table(root: Item, section: Seq<char>) -> bool {
    match item_child(root, section) {
        Some(child) => item_table(child),
        None => false,
    }
}

/// Whether setting a key under `section` of `root` leaves the section a
/// table with a header of its own: it is one already, or it is not there
/// and is made as one.
pub open spec fn makes_table(root: Item, section: Seq<char>) -> bool {
    match item_child(root, section) {
        Some(child) => item_table(child),
        None => true,
    }
}

/// Whether `value` stands under `key` of `section` of `root`, with the
/// section among the keys of the root and the key among those of the
/// section.
pub open spec fn holds_entry(root: Item, section: Seq<char>, key: Seq<char>, value: Item) -> bool {
    match item_child(root, section) {
        Some(child) => {
            &&& item_child_keys(root).contains(section)
            &&& item_child_keys(child).contains(key)
            &&& item_child(child, key) == Some(value)
        },
        None => false,
    }
}

/// A document without content: its root has no keys, and nothing stands
/// under any key.
pub open spec fn is_blank(document: DocumentMut) -> bool {
    &&& item_child_keys(document_root(document)).len() == 0
    &&& forall|key: Seq<char>| (#[trigger] item_child(document_root(document), key)) is None
}

/// The views of a list of optional strings.
pub open spec fn option_views(list: Seq<Option<String>>) -> Seq<Option<Seq<char>>> {
    Seq::new(
        list.len(),
        |i: int|
            match list[i] {
                Some(s) => Some(s@),
                None => None,
            },
    )
}

/// Whether keys can be set under `section` of `root`: there is no item of
/// that name yet, or it is a table or an inline table.
pub open spec fn takes_keys(root: Item, section: Seq<char>) -> bool {
    match item_child(root, section) {
        None => true,
        Some(child) => item_table(child) || match item_value(child) {
            Some(value) => value_inline(value),
            None => false,
        },
    }
}

/// The texts of the first `upto` tags of a tagged item. A tag under which
/// no value stands has no text.
pub open spec fn variants_of(item: Item, tags: Seq<Seq<char>>, upto: int) -> Seq<(Key, Seq<char>)>
    decreases upto,
{
    if upto <= 0 || upto > tags.len() {
        Seq::empty()
    } else {
        let before = variants_of(item, tags, upto - 1);
        let tag = tags[upto - 1];
        match item_child(item, tag) {
            Some(child) => match item_value(child) {
                Some(value) => before.push((tag, value_text(value))),
                None => before,
            },
            None => before,
        }
    }
}

/// What an entry of a table stands for. A value that is no inline table is
/// a scalar. An inline table and a table are both tagged values, with their
/// keys as tags. Anything else has no text under any tag.
pub open spec fn entry_of(item: Item) -> SpecValue {
    match item_value(item) {
        Some(value) => if value_inline(value) {
            SpecValue::Tagged(
                variants_of(item, item_child_keys(item), item_child_keys(item).len() as int),
            )
        } else {
            SpecValue::Scalar(value_text(value))
        },
        None => if item_table(item) {
            SpecValue::Tagged(
                variants_of(item, item_child_keys(item), item_child_keys(item).len() as int),
            )
        } else {
            SpecValue::Tagged(Seq::empty())
        },
    }
}

/// The entries under the first `upto` keys of a table.
pub open spec fn table_of(table: Item, keys: Seq<Seq<char>>, upto: int) -> Seq<(Key, SpecValue)>
    decreases upto,
{
    if upto <= 0 || upto > keys.len() {
        Seq::empty()
    } else {
        let before = table_of(table, keys, upto - 1);
        let key = keys[upto - 1];
        match item_child(table, key) {
            Some(child) => before.push((key, entry_of(child))),
            None => before,
        }
    }
}

/// The tables under the first `upto` keys of the root. Only a table with a
/// header of its own is a section.
pub open spec fn tables_of(root: Item, keys: Seq<Seq<char>>, upto: int) -> Seq<
    (Key, Seq<(Key, SpecValue)>),
>
    decreases upto,
{
    if upto <= 0 || upto > keys.len() {
        Seq::empty()
    } else {
        let before = tables_of(root, keys, upto - 1);
        let key = keys[upto - 1];
        match item_child(root, key) {
            Some(child) => if item_table(child) {
                before.push(
                    (key, table_of(child, item_child_keys(child), item_child_keys(child).len() as int)),
                )
            } else {
                before
            },
            None => before,
        }
    }
}

/// The layer of a document that was read from `origin_path`.
pub open spec fn layer_of(origin_path: Seq<char>, document: DocumentMut) -> LayerView {
    let root = document_root(document);
    LayerView {
        origin_path,
        tables: tables_of(root, item_child_keys(root), item_child_keys(root).len() as int),
    }
}

/// The texts of a tagged item, tag by tag.
fn read_variants(item: &Item) -> (out: Vec<(String, String)>)
    ensures
        pair_views(out@) == variants_of(
            *item,
            item_child_keys(*item),
            item_child_keys(*item).len() as int,
        ),
{
    let tags = item_keys(item);
    let ghost names = item_child_keys(*item);
    let mut out: Vec<(String, String)> = Vec::new();
    let mut i: usize = 0;
    while i < tags.len()
        invariant
            i <= tags@.len(),
            string_views(tags@) == names,
            pair_views(out@) == variants_of(*item, names, i as int),
        decreases tags@.len() - i,
    {
        match item_get(item, tags[i].as_str()) {
            Some(child) => match item_as_value(child) {
                Some(value) => {
                    let text = unwrap_toml_value(value);
                    let tag = tags[i].clone();
                    out.push((tag, text));
                },
                None => {},
            },
            None => {},
        }
        i += 1;
    }
    out
}

/// What an entry of a table stands for.
fn read_entry(item: &Item) -> (out: ValueSpec)
    ensures
        out@ == entry_of(*item),
{
    match item_as_value(item) {
        Some(value) => {
            if value_is_inline_table(value) {
                ValueSpec::TaggedVariants(read_variants(item))
            } else {
                ValueSpec::Scalar(unwrap_toml_value(value))
            }
        },
        None => {
            if item_is_table(item) {
                ValueSpec::TaggedVariants(read_variants(item))
            } else {
                let none: Vec<(String, String)> = Vec::new();
                proof {
                    assert(pair_views(none@) =~= Seq::empty());
                }
                ValueSpec::TaggedVariants(none)
            }
        },
    }
}

/// The entries of a table, key by key.
fn read_table(table: &Item) -> (out: Vec<(String, ValueSpec)>)
    ensures
        table_view(out@) == table_of(
            *table,
            item_child_keys(*table),
            item_child_keys(*table).len() as int,
        ),
{
    let keys = item_keys(table);
    let ghost names = item_child_keys(*table);
    let mut out: Vec<(String, ValueSpec)> = Vec::new();
    let mut i: usize = 0;
    while i < keys.len()
        invariant
            i <= keys@.len(),
            string_views(keys@) == names,
            table_view(out@) == table_of(*table, names, i as int),
        decreases keys@.len() - i,
    {
        match item_get(table, keys[i].as_str()) {
            Some(child) => {
                let value = read_entry(child);
                let key = keys[i].clone();
                out.push((key, value));
            },
            None => {},
        }
        i += 1;
    }
    out
}

/// The layer of `document`, with `origin_path` as the path that it was
/// read from.
pub fn layer_from_document(origin_path: &str, document: &DocumentMut) -> (layer: Layer)
    ensures
        layer@ == layer_of(origin_path@, *document),
{
    let root = document_item(document);
    let keys = item_keys(root);
    let ghost names = item_child_keys(*root);
    let mut sections: Vec<Section> = Vec::new();
    let mut i: usize = 0;
    while i < keys.len()
        invariant
            i <= keys@.len(),
            string_views(keys@) == names,
            tables_view(sections@) == tables_of(*root, names, i as int),
        decreases keys@.len() - i,
    {
        match item_get(root, keys[i].as_str()) {
            Some(child) => {
                if item_is_table(child) {
                    let section = Section { name: keys[i].clone(), entries: read_table(child) };
                    sections.push(section);
                }
            },
            None => {},
        }
        i += 1;
    }
    Layer { origin_path: origin_path.to_owned(), sections }
}

/// The item that a text given on the command line stands for: the value
/// that the text parses as, or, where it is no TOML value, the string with
/// that content.
pub open spec fn item_from_text(raw_value: Seq<char>) -> Item {
    item_of(
        match parsed_value(raw_value) {
            Ok(value) => value,
            Err(_) => text_value(raw_value),
        },
    )
}

/// The item for a text given on the command line.
pub fn value_from_string(raw_value: &str) -> (item: Item)
    ensures
        item == item_from_text(raw_value@),
        item_value(item) is Some,
        parsed_value(raw_value@) is Err ==> entry_of(item) == SpecValue::Scalar(raw_value@),
{
    let value = match parse_value(raw_value) {
        Ok(value) => value,
        Err(_) => string_value(raw_value),
    };
    value_item(value)
}

/// Whether keys can be set under `section` of the document.
pub fn section_takes_keys(document: &DocumentMut, section: &str) -> (r: bool)
    ensures
        r == takes_keys(document_root(*document), section@),
{
    match item_get(document_item(document), section) {
        None => true,
        Some(child) => {
            if item_is_table(child) {
                true
            } else {
                match item_as_value(child) {
                    Some(value) => value_is_inline_table(value),
                    None => false,
                }
            }
        },
    }
}

/// The message for a file that is no valid document.
pub open spec fn parse_failure(path: Seq<char>, error: Seq<char>) -> Message {
    seq![
        (Tone::RedBold, "Failed to parse "@),
        (Tone::YellowBold, path),
        (Tone::RedBold, ": \n"@),
        (Tone::Red, error),
    ]
}

/// What is left of an output after the content of `path` was read: nothing
/// new where the content is a document, and a parse error with its message
/// where it is none.
pub open spec fn after_reading(before: OutputView, path: Seq<char>, contents: Seq<char>) -> OutputView {
    match parsed_document(contents) {
        Ok(_) => before,
        Err(error) => before.failed(ErrorCode::ParseError).with_message(
            as_line(rendered(parse_failure(path, error_text(error)), before.color)),
        ),
    }
}

/// The document that `contents`, the content of the file `path`, holds. A
/// content that is no document is reported and stands for an empty
/// document; the command goes on.
pub fn get_document(path: &str, contents: &str, output: &mut Output) -> (document: DocumentMut)
    ensures
        match parsed_document(contents@) {
            Ok(parsed) => document == parsed,
            Err(_) => is_blank(document),
        },
        final(output)@ == after_reading(old(output)@, path@, contents@),
{
    match parse_document(contents) {
        Ok(document) => document,
        Err(error) => {
            let text = error_message(&error);
            let message = message_and(
                message_and(
                    message2(Tone::RedBold, "Failed to parse ", Tone::YellowBold, path),
                    Tone::RedBold,
                    ": \n",
                ),
                Tone::Red,
                text.as_str(),
            );
            proof {
                assert(crate::colors::message_view(message@) =~= parse_failure(path@, text@));
            }
            output.notify_error(ErrorCode::ParseError, &message);
            new_document()
        },
    }
}

/// Whether the table `entry` of a layer is the table of the item that
/// stands under its name in `root`.
pub open spec fn is_table_of(root: Item, entry: (Key, Seq<(Key, SpecValue)>)) -> bool {
    match item_child(root, entry.0) {
        Some(child) => item_table(child) && entry.1 == table_of(
            child,
            item_child_keys(child),
            item_child_keys(child).len() as int,
        ),
        None => false,
    }
}

/// Whether the entry `entry` of a table is what the item under its key in
/// `table` stands for.
pub open spec fn is_entry_of(table: Item, entry: (Key, SpecValue)) -> bool {
    match item_child(table, entry.0) {
        Some(child) => entry.1 == entry_of(child),
        None => false,
    }
}

/// The tables of a layer are those of the items under their names, and
/// every key of the root under which a table stands has its table.
pub proof fn lemma_tables_of(root: Item, keys: Seq<Seq<char>>, upto: int)
    requires
        0 <= upto <= keys.len(),
    ensures
        forall|i: int|
            0 <= i < tables_of(root, keys, upto).len() ==> is_table_of(
                root,
                #[trigger] tables_of(root, keys, upto)[i],
            ),
        forall|j: int|
            0 <= j < upto && section_is_table(root, #[trigger] keys[j]) ==> has_key(
                tables_of(root, keys, upto),
                keys[j],
            ),
    decreases upto,
{
    if upto > 0 {
        lemma_tables_of(root, keys, upto - 1);
        let before = tables_of(root, keys, upto - 1);
        let all = tables_of(root, keys, upto);
        assert forall|i: int| 0 <= i < all.len() implies is_table_of(root, #[trigger] all[i]) by {
            if i < before.len() {
                assert(all[i] == before[i]);
            }
        }
        assert forall|j: int| 0 <= j < upto && section_is_table(root, #[trigger] keys[j]) implies has_key(
            all,
            keys[j],
        ) by {
            if j < upto - 1 {
                let i = choose|i: int| 0 <= i < before.len() && (#[trigger] before[i]).0 == keys[j];
                assert(all[i] == before[i]);
            } else {
                assert(all[all.len() - 1].0 == keys[j]);
            }
        }
    }
}

/// The entries of a table are what the items under their keys stand for,
/// and every key under which something stands has its entry.
pub proof fn lemma_table_of(table: Item, keys: Seq<Seq<char>>, upto: int)
    requires
        0 <= upto <= keys.len(),
    ensures
        forall|i: int|
            0 <= i < table_of(table, keys, upto).len() ==> is_entry_of(
                table,
                #[trigger] table_of(table, keys, upto)[i],
            ),
        forall|j: int|
            0 <= j < upto && item_child(table, #[trigger] keys[j]) is Some ==> has_key(
                table_of(table, keys, upto),
                keys[j],
            ),
    decreases upto,
{
    if upto > 0 {
        lemma_table_of(table, keys, upto - 1);
        let before = table_of(table, keys, upto - 1);
        let all = table_of(table, keys, upto);
        assert forall|i: int| 0 <= i < all.len() implies is_entry_of(table, #[trigger] all[i]) by {
            if i < before.len() {
                assert(all[i] == before[i]);
            }
        }
        assert forall|j: int|
            0 <= j < upto && item_child(table, #[trigger] keys[j]) is Some implies has_key(
            all,
            keys[j],
        ) by {
            if j < upto - 1 {
                let i = choose|i: int| 0 <= i < before.len() && (#[trigger] before[i]).0 == keys[j];
                assert(all[i] == before[i]);
            } else {
                assert(all[all.len() - 1].0 == keys[j]);
            }
        }
    }
}

/// A value that stands under a key of a section that is a table is an
/// entry of the layer of the document: the layer has, under that section
/// and key, what the value stands for.
pub proof fn lemma_entry_stands(
    origin_path: Seq<char>,
    document: DocumentMut,
    section: Seq<char>,
    key: Seq<char>,
    value: Item,
)
    requires
        holds_entry(document_root(document), section, key, value),
        section_is_table(document_root(document), section),
    ensures
        layer_of(origin_path, document).entry(section, key) == Some(entry_of(value)),
{
    let root = document_root(document);
    let names = item_child_keys(root);
    let tables = tables_of(root, names, names.len() as int);
    let child = item_child(root, section).unwrap();
    let keys = item_child_keys(child);
    let entries = table_of(child, keys, keys.len() as int);
    lemma_tables_of(root, names, names.len() as int);
    lemma_table_of(child, keys, keys.len() as int);
    let j = choose|j: int| 0 <= j < names.len() && names[j] == section;
    assert(has_key(tables, names[j]));
    lemma_position(tables, section);
    let k = choose|k: int| 0 <= k < keys.len() && keys[k] == key;
    assert(has_key(entries, keys[k]));
    lemma_position(entries, key);
}

/// A table and an inline table with the same keys and the same items under
/// them stand for the same tagged value.
pub proof fn lemma_both_encodings_alike(inline: Item, table: Item)
    requires
        item_value(inline) is Some,
        value_inline(item_value(inline).unwrap()),
        item_value(table) is None,
        item_table(table),
        item_child_keys(inline) == item_child_keys(table),
        forall|key: Seq<char>| item_child(inline, key) == item_child(table, key),
    ensures
        entry_of(inline) == entry_of(table),
{
    let tags = item_child_keys(inline);
    lemma_same_variants(inline, table, tags, tags.len() as int);
}

/// Items with the same items under the same tags have the same texts under
/// those tags.
pub proof fn lemma_same_variants(a: Item, b: Item, tags: Seq<Seq<char>>, upto: int)
    requires
        forall|key: Seq<char>| item_child(a, key) == item_child(b, key),
    ensures
        variants_of(a, tags, upto) == variants_of(b, tags, upto),
    decreases upto,
{
    if 0 < upto <= tags.len() {
        lemma_same_variants(a, b, tags, upto - 1);
    }
}

} // verus!
