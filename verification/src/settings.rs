//! Settings: the switches that a user sets for every directory or for one.
//!
//! Settings stand in the `[settings]` table of a document. Those of the
//! global document and those of the document of the directory itself are
//! combined field by field: the value of the directory wins where it is
//! set, then the global value, then the built-in default.

use crate::colors::{message2, message_and, message_view, Message, Tone};
use crate::output::{ErrorCode, Output, OutputView};
use crate::paths::{extension_replaced, replace_extension};
use crate::text::{same, string_views};
use crate::toml::{
    document_item, document_root, get_document, is_blank, item_as_value, item_child, item_get,
    item_of, item_value, parse_value, parsed_document, parsed_value, value_as_bool,
    value_as_strings, value_bool, value_item, value_strings, after_reading,
};
use toml_edit::{DocumentMut, Item, Value};
use vstd::prelude::*;

verus! {

/// The settings in force, every field decided.
#[derive(Debug)]
pub struct RealizedSettings {
    pub autoload_hook: bool,
    pub autoload: bool,
    pub clear_ignore: Vec<String>,
}

/// The settings of one document. A field that the document does not set is
/// `None`.
#[derive(Debug)]
pub struct Settings {
    pub file: String,
    pub autoload_hook: Option<bool>,
    pub autoload: Option<bool>,
    pub clear_ignore: Option<Vec<String>>,
}

/// One setting by its name and the item that stands under that name.
pub struct Setting<'a> {
    pub name: &'a str,
    pub item: Option<&'a Item>,
}

/// The first of the two that is set, else the default.
pub open spec fn first_set<T>(local: Option<T>, global: Option<T>, default: T) -> T {
    match local {
        Some(v) => v,
        None => match global {
            Some(v) => v,
            None => default,
        },
    }
}

/// The views of an optional list of strings.
pub open spec fn list_view(list: Option<Vec<String>>) -> Option<Seq<Seq<char>>> {
    match list {
        Some(v) => Some(string_views(v@)),
        None => None,
    }
}

/// The item under `name` in the `[settings]` table of a document.
pub open spec fn setting_item(document: DocumentMut, name: Seq<char>) -> Option<Item> {
    match item_child(document_root(document), "settings"@) {
        Some(general) => item_child(general, name),
        None => None,
    }
}

/// The message for a setting that is a table.
pub open spec fn expected_value_message(name: Seq<char>) -> Message {
    seq![
        (Tone::RedBold, "Settings Error: Expected"@),
        (Tone::Plain, " "@),
        (Tone::Yellow, name),
        (Tone::Plain, " "@),
        (Tone::RedBold, "to be a value, not a table"@),
    ]
}

/// The message for a setting of the wrong kind.
pub open spec fn invalid_message(name: Seq<char>, kind: Seq<char>) -> Message {
    seq![
        (Tone::RedBold, "Settings Error: Failed to interpret value"@),
        (Tone::Plain, " "@),
        (Tone::Yellow, name),
        (Tone::Plain, " "@),
        (Tone::RedBold, "value as"@),
        (Tone::Plain, " "@),
        (Tone::Yellow, kind),
    ]
}

/// The message for a value that is no TOML value.
pub open spec fn unparsed_message(value: Seq<char>) -> Message {
    seq![(Tone::RedBold, "Could not parse config value"@), (Tone::YellowBold, value)]
}

/// The message for a name that is no setting.
pub open spec fn unrecognized_message(name: Seq<char>) -> Message {
    seq![(Tone::RedBold, "Unrecognized config name"@), (Tone::YellowBold, name)]
}

/// The value that an item holds, where there is an item and it holds one.
pub open spec fn held_value(item: Option<Item>) -> Option<Value> {
    match item {
        Some(i) => item_value(i),
        None => None,
    }
}

/// The output after an item was asked for its value: a complaint where
/// there is an item that holds no value. Complaints about settings are
/// written in colour whatever the switches say.
pub open spec fn after_value(before: OutputView, item: Option<Item>, name: Seq<char>) -> OutputView {
    if item is Some && held_value(item) is None {
        before.complained(expected_value_message(name))
    } else {
        before
    }
}

/// The output after a value was or was not of the kind asked for.
pub open spec fn after_kind(before: OutputView, valid: bool, name: Seq<char>, kind: Seq<char>) -> OutputView {
    if valid {
        before
    } else {
        before.complained(invalid_message(name, kind))
    }
}

/// The boolean of a setting.
pub open spec fn bool_read(item: Option<Item>) -> Option<bool> {
    match held_value(item) {
        Some(v) => value_bool(v),
        None => None,
    }
}

/// The output after a setting was read as a boolean.
pub open spec fn after_bool(before: OutputView, item: Option<Item>, name: Seq<char>) -> OutputView {
    let asked = after_value(before, item, name);
    match held_value(item) {
        Some(v) => after_kind(asked, value_bool(v) is Some, name, "bool"@),
        None => asked,
    }
}

/// Each element as its text, an element that is no string as the empty
/// text.
pub open spec fn texts_or_empty(list: Seq<Option<Seq<char>>>) -> Seq<Seq<char>> {
    Seq::new(
        list.len(),
        |i: int|
            match list[i] {
                Some(s) => s,
                None => Seq::empty(),
            },
    )
}

/// The list of strings of a setting.
pub open spec fn list_read(item: Option<Item>) -> Option<Seq<Seq<char>>> {
    match held_value(item) {
        Some(v) => match value_strings(v) {
            Some(list) => Some(texts_or_empty(list)),
            None => None,
        },
        None => None,
    }
}

/// The output after a setting was read as a list of strings.
pub open spec fn after_list(before: OutputView, item: Option<Item>, name: Seq<char>) -> OutputView {
    let asked = after_value(before, item, name);
    match held_value(item) {
        Some(v) => after_kind(asked, value_strings(v) is Some, name, "list of string"@),
        None => asked,
    }
}

/// The output after the three settings of a document were read.
pub open spec fn after_settings(before: OutputView, document: DocumentMut) -> OutputView {
    after_list(
        after_bool(
            after_bool(before, setting_item(document, "autoload-hook"@), "autoload-hook"@),
            setting_item(document, "autoload"@),
            "autoload"@,
        ),
        setting_item(document, "clear-ignore"@),
        "clear-ignore"@,
    )
}

/// Whether `name` is the name of a setting.
pub open spec fn recognized(name: Seq<char>) -> bool {
    name == "autoload"@ || name == "autoload-hook"@ || name == "clear-ignore"@
}

/// Names and values as plain sequences.
pub open spec fn name_values(pairs: Seq<(String, String)>) -> Seq<(Seq<char>, Seq<char>)> {
    Seq::new(pairs.len(), |i: int| (pairs[i].0@, pairs[i].1@))
}

/// Of the first `upto` pairs, those that name a setting and give a TOML
/// value, each with the item of its value.
pub open spec fn accepted(pairs: Seq<(Seq<char>, Seq<char>)>, upto: int) -> Seq<(Seq<char>, Item)>
    decreases upto,
{
    if upto <= 0 || upto > pairs.len() {
        Seq::empty()
    } else {
        let before = accepted(pairs, upto - 1);
        let pair = pairs[upto - 1];
        if recognized(pair.0) {
            match parsed_value(pair.1) {
                Ok(value) => before.push((pair.0, item_of(value))),
                Err(_) => before,
            }
        } else {
            before
        }
    }
}

/// The output after the first `upto` pairs were looked at: a parse error
/// for each value that is no TOML value, and an unrecognized setting for
/// each name that is no setting.
pub open spec fn after_checking(before: OutputView, pairs: Seq<(Seq<char>, Seq<char>)>, upto: int) -> OutputView
    decreases upto,
{
    if upto <= 0 || upto > pairs.len() {
        before
    } else {
        let so_far = after_checking(before, pairs, upto - 1);
        let pair = pairs[upto - 1];
        if recognized(pair.0) {
            match parsed_value(pair.1) {
                Ok(_) => so_far,
                Err(_) => so_far.failed(ErrorCode::ParseError).notified(unparsed_message(pair.1)),
            }
        } else {
            so_far.failed(ErrorCode::UnrecognizedSetting).notified(unrecognized_message(pair.0))
        }
    }
}

impl Default for RealizedSettings {
    fn default() -> (r: Self)
        ensures
            !r.autoload_hook,
            !r.autoload,
            r.clear_ignore@.len() == 0,
    {
        Self { autoload_hook: false, autoload: false, clear_ignore: Vec::new() }
    }
}

impl Default for Settings {
    fn default() -> (r: Self)
        ensures
            r.file@.len() == 0,
            r.autoload_hook is None,
            r.autoload is None,
            r.clear_ignore is None,
    {
        Self { file: String::new(), autoload_hook: None, autoload: None, clear_ignore: None }
    }
}

/// A copy of a list of strings.
pub fn copy_strings(list: &Vec<String>) -> (out: Vec<String>)
    ensures
        string_views(out@) == string_views(list@),
{
    let mut out: Vec<String> = Vec::new();
    let mut i: usize = 0;
    while i < list.len()
        invariant
            i <= list@.len(),
            out@.len() == i,
            forall|j: int| 0 <= j < i ==> out@[j]@ == list@[j]@,
        decreases list@.len() - i,
    {
        out.push(list[i].clone());
        i += 1;
    }
    out
}

impl<'a> Setting<'a> {
    /// The setting `name` of the table `item`, where there is such a table.
    pub fn new(item: Option<&'a Item>, name: &'a str) -> (r: Self)
        ensures
            r.name@ == name@,
            match r.item {
                Some(child) => item is Some && item_child(*item.unwrap(), name@) == Some(*child),
                None => item is None || item_child(*item.unwrap(), name@) is None,
            },
    {
        Self {
            name,
            item: match item {
                Some(table) => item_get(table, name),
                None => None,
            },
        }
    }

    /// The item of the setting, as a plain value.
    pub open spec fn held(&self) -> Option<Item> {
        match self.item {
            Some(i) => Some(*i),
            None => None,
        }
    }

    /// The name of the setting.
    pub open spec fn named(&self) -> Seq<char> {
        self.name@
    }

    /// The setting as a boolean. A setting of another kind is reported
    /// and counts as not set.
    pub fn as_bool(&self, output: &mut Output) -> (r: Option<bool>)
        ensures
            r == bool_read(self.held()),
            final(output)@ == after_bool(old(output)@, self.held(), self.named()),
    {
        match self.get_value(output) {
            Some(value) => self.notify_invalid("bool", value_as_bool(value), output),
            None => None,
        }
    }

    /// The setting as a list of strings. A setting of another kind is
    /// reported and counts as not set; an element that is no string
    /// counts as the empty string.
    pub fn as_vec_of_string(&self, output: &mut Output) -> (r: Option<Vec<String>>)
        ensures
            list_view(r) == list_read(self.held()),
            final(output)@ == after_list(old(output)@, self.held(), self.named()),
    {
        match self.get_value(output) {
            Some(value) => {
                match self.notify_invalid("list of string", value_as_strings(value), output) {
                    Some(list) => {
                        let ghost want = texts_or_empty(crate::toml::option_views(list@));
                        let mut texts: Vec<String> = Vec::new();
                        let mut i: usize = 0;
                        while i < list.len()
                            invariant
                                i <= list@.len(),
                                want == texts_or_empty(crate::toml::option_views(list@)),
                                texts@.len() == i,
                                forall|j: int| 0 <= j < i ==> texts@[j]@ == want[j],
                            decreases list@.len() - i,
                        {
                            let text = match &list[i] {
                                Some(s) => s.clone(),
                                None => String::new(),
                            };
                            texts.push(text);
                            i += 1;
                        }
                        Some(texts)
                    },
                    None => None,
                }
            },
            None => None,
        }
    }

    /// Hands `value` on, with a complaint where there is none.
    fn notify_invalid<T>(&self, kind: &str, value: Option<T>, output: &mut Output) -> (r: Option<T>)
        ensures
            r == value,
            final(output)@ == after_kind(old(output)@, value is Some, self.named(), kind@),
    {
        if value.is_none() {
            let message = message2(
                Tone::RedBold,
                "Settings Error: Failed to interpret value",
                Tone::Plain,
                " ",
            );
            let message = message_and(message, Tone::Yellow, self.name);
            let message = message_and(message, Tone::Plain, " ");
            let message = message_and(message, Tone::RedBold, "value as");
            let message = message_and(message, Tone::Plain, " ");
            let message = message_and(message, Tone::Yellow, kind);
            proof {
                assert(message_view(message@) =~= invalid_message(self.name@, kind@));
            }
            output.complain(&message);
        }
        value
    }

    /// The value of the setting, with a complaint where the setting is
    /// there and is no value.
    fn get_value(&self, output: &mut Output) -> (r: Option<&'a Value>)
        ensures
            match r {
                Some(v) => held_value(self.held()) == Some(*v),
                None => held_value(self.held()) is None,
            },
            final(output)@ == after_value(old(output)@, self.held(), self.named()),
    {
        match self.item {
            None => None,
            Some(item) => match item_as_value(item) {
                Some(value) => Some(value),
                None => {
                    let message = message2(
                        Tone::RedBold,
                        "Settings Error: Expected",
                        Tone::Plain,
                        " ",
                    );
                    let message = message_and(message, Tone::Yellow, self.name);
                    let message = message_and(message, Tone::Plain, " ");
                    let message = message_and(
                        message,
                        Tone::RedBold,
                        "to be a value, not a table",
                    );
                    proof {
                        assert(message_view(message@) =~= expected_value_message(self.name@));
                    }
                    output.complain(&message);
                    None
                },
            },
        }
    }
}

/// The file of the settings kept for `config_dir`: the directory's path
/// with `toml` as the extension of its last component, in place of the
/// extension that it has, if it has one.
pub open spec fn settings_file(config_dir: Seq<char>) -> Seq<char> {
    extension_replaced(config_dir, "toml"@)
}

impl Settings {
    /// The settings in `contents`, the content of the settings file of
    /// `config_dir`. A content that is no document is reported and sets
    /// nothing.
    pub fn load(config_dir: &str, contents: &str, output: &mut Output) -> (r: Self)
        ensures
            r.file@ == settings_file(config_dir@),
            match parsed_document(contents@) {
                Ok(document) => {
                    &&& r.autoload_hook == bool_read(setting_item(document, "autoload-hook"@))
                    &&& r.autoload == bool_read(setting_item(document, "autoload"@))
                    &&& list_view(r.clear_ignore) == list_read(
                        setting_item(document, "clear-ignore"@),
                    )
                    &&& final(output)@ == after_settings(old(output)@, document)
                },
                Err(_) => {
                    &&& r.autoload_hook is None
                    &&& r.autoload is None
                    &&& r.clear_ignore is None
                    &&& final(output)@ == after_reading(
                        old(output)@,
                        settings_file(config_dir@),
                        contents@,
                    )
                },
            },
    {
        let file = Self::file_for(config_dir);
        let document = get_document(file.as_str(), contents, output);
        Self::from_document(file, &document, output)
    }

    /// The file of the settings kept for `config_dir`.
    pub fn file_for(config_dir: &str) -> (file: String)
        ensures
            file@ == settings_file(config_dir@),
    {
        proof {
            reveal_strlit("toml");
        }
        replace_extension(config_dir, "toml")
    }

    /// The settings that a document sets. A setting of the wrong kind is
    /// reported and counts as not set.
    pub fn from_document(file: String, document: &DocumentMut, output: &mut Output) -> (r: Self)
        ensures
            r.file == file,
            r.autoload_hook == bool_read(setting_item(*document, "autoload-hook"@)),
            r.autoload == bool_read(setting_item(*document, "autoload"@)),
            list_view(r.clear_ignore) == list_read(setting_item(*document, "clear-ignore"@)),
            final(output)@ == after_settings(old(output)@, *document),
    {
        let general = item_get(document_item(document), "settings");
        let autoload_hook = Setting::new(general, "autoload-hook").as_bool(output);
        let autoload = Setting::new(general, "autoload").as_bool(output);
        let clear_ignore = Setting::new(general, "clear-ignore").as_vec_of_string(output);
        Self { file, autoload_hook, autoload, clear_ignore }
    }

    /// The settings in force where `self` are those of the directory and
    /// `fallback` the global ones. A list is taken whole from the one or
    /// the other, never merged.
    pub fn resolve_precedence(&self, fallback: &Self) -> (r: RealizedSettings)
        ensures
            r.autoload_hook == first_set(self.autoload_hook, fallback.autoload_hook, false),
            r.autoload == first_set(self.autoload, fallback.autoload, false),
            string_views(r.clear_ignore@) == first_set(
                list_view(self.clear_ignore),
                list_view(fallback.clear_ignore),
                Seq::empty(),
            ),
    {
        let mut realized = RealizedSettings::default();
        if let Some(v) = fallback.autoload_hook {
            realized.autoload_hook = v;
        }
        if let Some(v) = fallback.autoload {
            realized.autoload = v;
        }
        if let Some(v) = &fallback.clear_ignore {
            realized.clear_ignore = copy_strings(v);
        }
        if let Some(v) = self.autoload_hook {
            realized.autoload_hook = v;
        }
        if let Some(v) = self.autoload {
            realized.autoload = v;
        }
        if let Some(v) = &self.clear_ignore {
            realized.clear_ignore = copy_strings(v);
        }
        realized
    }

    /// Sets the given settings in `document`, the document of the file of
    /// these settings. A pair whose name is no setting, or whose value is
    /// no TOML value, is reported and skipped; the others still apply. The
    /// answer says whether the document was changed and is to be written
    /// back.
    pub fn set_values(
        &self,
        pairs: &Vec<(String, String)>,
        document: &mut DocumentMut,
        output: &mut Output,
    ) -> (changed: bool)
        ensures
            accepted(name_values(pairs@), pairs@.len() as int).len() == 0 ==> {
                &&& !changed
                &&& *final(document) == *old(document)
                &&& final(output)@ == after_checking(
                    old(output)@,
                    name_values(pairs@),
                    pairs@.len() as int,
                )
            },
            accepted(name_values(pairs@), pairs@.len() as int).len() > 0 ==> crate::output::toml_written(
                after_checking(old(output)@, name_values(pairs@), pairs@.len() as int),
                *old(document),
                "settings"@,
                accepted(name_values(pairs@), pairs@.len() as int),
                final(output)@,
                *final(document),
                changed,
            ),
    {
        let ghost all = name_values(pairs@);
        let ghost start = output@;
        let mut values: Vec<(String, Item)> = Vec::new();
        let mut i: usize = 0;
        while i < pairs.len()
            invariant
                i <= pairs@.len(),
                all == name_values(pairs@),
                crate::output::value_views(values@) == accepted(all, i as int),
                output@ == after_checking(start, all, i as int),
            decreases pairs@.len() - i,
        {
            let name = pairs[i].0.as_str();
            let value = pairs[i].1.as_str();
            if same(name, "autoload") || same(name, "autoload-hook") || same(name, "clear-ignore") {
                match parse_value(value) {
                    Ok(parsed) => {
                        let item = value_item(parsed);
                        let owned = name.to_owned();
                        values.push((owned, item));
                    },
                    Err(_) => {
                        let message = message2(
                            Tone::RedBold,
                            "Could not parse config value",
                            Tone::YellowBold,
                            value,
                        );
                        output.notify_error(ErrorCode::ParseError, &message);
                    },
                }
            } else {
                let message = message2(
                    Tone::RedBold,
                    "Unrecognized config name",
                    Tone::YellowBold,
                    name,
                );
                output.notify_error(ErrorCode::UnrecognizedSetting, &message);
            }
            i += 1;
        }
        if values.len() == 0 {
            return false;
        }
        output.write_toml(document, "settings", values)
    }
}

/// The settings of a document set nothing where the document has no
/// content.
pub proof fn lemma_blank_document_sets_nothing(document: DocumentMut, before: OutputView)
    requires
        is_blank(document),
    ensures
        bool_read(setting_item(document, "autoload-hook"@)) is None,
        bool_read(setting_item(document, "autoload"@)) is None,
        list_read(setting_item(document, "clear-ignore"@)) is None,
        after_settings(before, document) == before,
{
}

} // verus!
