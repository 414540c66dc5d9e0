//! The documents that configure one directory, and what they resolve to.
//!
//! A `Saucefile` holds the document of the directory itself, which is the
//! only one that is ever changed, and the documents of the directories
//! above it that have one, root-most first.

use crate::filter::FilterOptions;
use crate::layer::{
    distinct_origins, layer_views, pair_views, CascadeChain, Layer, LayerView,
};
use crate::output::{is_last_for_name, toml_written, value_views, Output, OutputView};
use crate::resolve::{materialize, materialized, ResolvedSet};
use crate::settings::{after_settings, bool_read, list_read, list_view, setting_item, Settings};
use crate::text::{string_views, views};
use crate::layer::SpecValue;
use crate::toml::{
    after_reading, document_root, entry_of, get_document, is_blank, item_from_text, item_value,
    layer_from_document, layer_of, lemma_entry_stands, makes_table, new_document,
    parsed_document, parsed_value, value_from_string,
};
use toml_edit::{DocumentMut, Item};
use vstd::prelude::*;

verus! {

/// The documents of one directory and of those above it.
#[derive(Debug)]
pub struct Saucefile {
    /// The file of the directory itself. It is set whether or not that
    /// file exists, and empty where the documents were made in memory.
    pub path: Option<String>,
    /// The files above that exist, and their documents.
    pub ancestors: Vec<(String, DocumentMut)>,
    /// The document of the directory itself, without content where its
    /// file does not exist.
    pub document: DocumentMut,
    /// Whether the file of the directory itself exists.
    pub exists: bool,
}

/// A file on the way down to a directory: its path and, where the file
/// exists, its content.
pub type FileRead = (String, Option<String>);

/// Paths and contents as plain sequences.
pub open spec fn file_views(files: Seq<FileRead>) -> Seq<(Seq<char>, Option<Seq<char>>)> {
    Seq::new(
        files.len(),
        |i: int|
            (
                files[i].0@,
                match files[i].1 {
                    Some(c) => Some(c@),
                    None => None,
                },
            ),
    )
}

/// Whether `document` is what a file with the content `text` holds: the
/// document that the text parses as, or a document without content where
/// the text is no document.
pub open spec fn holds(document: DocumentMut, text: Seq<char>) -> bool {
    match parsed_document(text) {
        Ok(parsed) => document == parsed,
        Err(_) => is_blank(document),
    }
}

/// The paths and contents of those of the first `upto` files that exist,
/// in the order of the files.
pub open spec fn existing_files(files: Seq<(Seq<char>, Option<Seq<char>>)>, upto: int) -> Seq<
    (Seq<char>, Seq<char>),
>
    decreases upto,
{
    if upto <= 0 || upto > files.len() {
        Seq::empty()
    } else {
        let before = existing_files(files, upto - 1);
        match files[upto - 1].1 {
            Some(text) => before.push((files[upto - 1].0, text)),
            None => before,
        }
    }
}

/// Whether `documents` are the paths and documents of those of the first
/// `upto` files that exist, in the order of the files.
pub open spec fn documents_read(
    documents: Seq<(String, DocumentMut)>,
    files: Seq<(Seq<char>, Option<Seq<char>>)>,
    upto: int,
) -> bool {
    let found = existing_files(files, upto);
    &&& documents.len() == found.len()
    &&& forall|i: int|
        0 <= i < documents.len() ==> (#[trigger] documents[i]).0@ == found[i].0 && holds(
            documents[i].1,
            found[i].1,
        )
}

/// Whether `document` is that of the leaf file: what its content holds,
/// or a document without content where the file does not exist.
pub open spec fn leaf_read(document: DocumentMut, contents: Option<Seq<char>>) -> bool {
    match contents {
        Some(text) => holds(document, text),
        None => is_blank(document),
    }
}

/// The layer of a file. A file that does not exist, and one whose content
/// is no document, has the layer without tables.
pub open spec fn layer_read(path: Seq<char>, contents: Option<Seq<char>>) -> LayerView {
    match contents {
        Some(text) => match parsed_document(text) {
            Ok(document) => layer_of(path, document),
            Err(_) => LayerView { origin_path: path, tables: Seq::empty() },
        },
        None => LayerView { origin_path: path, tables: Seq::empty() },
    }
}

/// The layers of the first `upto` files, those that exist.
pub open spec fn ancestors_read(files: Seq<(Seq<char>, Option<Seq<char>>)>, upto: int) -> Seq<
    LayerView,
>
    decreases upto,
{
    if upto <= 0 || upto > files.len() {
        Seq::empty()
    } else {
        let before = ancestors_read(files, upto - 1);
        if files[upto - 1].1 is Some {
            before.push(layer_read(files[upto - 1].0, files[upto - 1].1))
        } else {
            before
        }
    }
}

/// The output after the first `upto` files were read: a parse error for
/// each file that exists and holds no document, nothing for the others.
pub open spec fn output_read(
    before: OutputView,
    files: Seq<(Seq<char>, Option<Seq<char>>)>,
    upto: int,
) -> OutputView
    decreases upto,
{
    if upto <= 0 || upto > files.len() {
        before
    } else {
        let so_far = output_read(before, files, upto - 1);
        match files[upto - 1].1 {
            Some(text) => after_reading(so_far, files[upto - 1].0, text),
            None => so_far,
        }
    }
}

/// The chain that reading `files` gives: the layers of the files above
/// that exist, then the layer of the last file, which is there whether or
/// not the file is.
pub open spec fn chain_read(files: Seq<(Seq<char>, Option<Seq<char>>)>) -> Seq<LayerView> {
    if files.len() == 0 {
        seq![LayerView { origin_path: Seq::empty(), tables: Seq::empty() }]
    } else {
        ancestors_read(files, files.len() - 1).push(layer_read(files.last().0, files.last().1))
    }
}

impl Default for Saucefile {
    fn default() -> (r: Self)
        ensures
            r.path is Some,
            r.path.unwrap()@.len() == 0,
            r.ancestors@.len() == 0,
            is_blank(r.document),
            !r.exists,
            r.layers() == chain_read(Seq::empty()),
    {
        let r = Self {
            path: Some(String::new()),
            ancestors: Vec::new(),
            document: new_document(),
            exists: false,
        };
        r
    }
}

impl Saucefile {
    /// The path of the leaf, empty where it has none.
    pub open spec fn leaf_path(&self) -> Seq<char> {
        match self.path {
            Some(p) => p@,
            None => Seq::empty(),
        }
    }

    /// The layers of the documents above.
    pub open spec fn ancestor_layers(&self) -> Seq<LayerView> {
        Seq::new(
            self.ancestors@.len(),
            |i: int| layer_of(self.ancestors@[i].0@, self.ancestors@[i].1),
        )
    }

    /// The layer of the document of the directory itself.
    pub open spec fn leaf_layer(&self) -> LayerView {
        layer_of(self.leaf_path(), self.document)
    }

    /// The layers in the order in which they apply.
    pub open spec fn layers(&self) -> Seq<LayerView> {
        self.ancestor_layers().push(self.leaf_layer())
    }

    /// The paths of the files that exist, root-most first.
    pub open spec fn existing(&self) -> Seq<Seq<char>> {
        let above = Seq::new(self.ancestors@.len(), |i: int| self.ancestors@[i].0@);
        if self.exists {
            above.push(self.leaf_path())
        } else {
            above
        }
    }

    /// Reads the documents of the files on the way down to a directory,
    /// given root-most first with the file of the directory itself last.
    ///
    /// A file above that does not exist is passed over. A file whose
    /// content is no document is reported and stands for an empty document.
    /// The last file is the leaf whether or not it exists.
    pub fn read(output: &mut Output, files: &Vec<FileRead>) -> (r: Self)
        ensures
            r.layers() == chain_read(file_views(files@)),
            final(output)@ == output_read(
                old(output)@,
                file_views(files@),
                files@.len() as int,
            ),
            files@.len() > 0 ==> r.path is Some && r.path.unwrap()@ == files@.last().0@
                && r.exists == (files@.last().1 is Some),
            files@.len() > 0 ==> documents_read(
                r.ancestors@,
                file_views(files@),
                files@.len() - 1,
            ) && leaf_read(r.document, file_views(files@).last().1),
            files@.len() == 0 ==> r.path is Some && r.path.unwrap()@.len() == 0 && !r.exists
                && r.ancestors@.len() == 0 && is_blank(r.document),
    {
        if files.len() == 0 {
            return Saucefile::default();
        }
        let ghost all = file_views(files@);
        let ghost start = output@;
        let last = files.len() - 1;
        let mut ancestors: Vec<(String, DocumentMut)> = Vec::new();
        let ghost mut layers: Seq<LayerView> = Seq::empty();
        let mut i: usize = 0;
        while i < last
            invariant
                i <= last,
                last == files@.len() - 1,
                all == file_views(files@),
                layers == ancestors_read(all, i as int),
                layers.len() == ancestors@.len(),
                documents_read(ancestors@, all, i as int),
                forall|j: int|
                    0 <= j < ancestors@.len() ==> layers[j] == layer_of(
                        (#[trigger] ancestors@[j]).0@,
                        ancestors@[j].1,
                    ),
                output@ == output_read(start, all, i as int),
            decreases last - i,
        {
            match &files[i].1 {
                Some(contents) => {
                    let path = files[i].0.clone();
                    let document = get_document(path.as_str(), contents.as_str(), output);
                    proof {
                        layers = layers.push(layer_of(path@, document));
                    }
                    ancestors.push((path, document));
                },
                None => {},
            }
            i += 1;
        }
        let path = files[last].0.clone();
        let (document, exists) = match &files[last].1 {
            Some(contents) => (get_document(path.as_str(), contents.as_str(), output), true),
            None => (new_document(), false),
        };
        Self { path: Some(path), ancestors, document, exists }
    }

    /// The settings of the document of the directory itself.
    pub fn settings(&self, output: &mut Output) -> (r: Settings)
        ensures
            match self.path {
                Some(path) => {
                    &&& r.file == path
                    &&& r.autoload_hook == bool_read(setting_item(self.document, "autoload-hook"@))
                    &&& r.autoload == bool_read(setting_item(self.document, "autoload"@))
                    &&& list_view(r.clear_ignore) == list_read(
                        setting_item(self.document, "clear-ignore"@),
                    )
                    &&& final(output)@ == after_settings(old(output)@, self.document)
                },
                None => {
                    &&& r.autoload_hook is None
                    &&& r.autoload is None
                    &&& r.clear_ignore is None
                    &&& final(output)@ == old(output)@
                },
            },
    {
        match &self.path {
            Some(path) => Settings::from_document(path.clone(), &self.document, output),
            None => Settings::default(),
        }
    }

    /// The paths of the files that exist, root-most first.
    pub fn paths(&self) -> (out: Vec<String>)
        ensures
            string_views(out@) == self.existing(),
    {
        let mut out: Vec<String> = Vec::new();
        let mut i: usize = 0;
        while i < self.ancestors.len()
            invariant
                i <= self.ancestors@.len(),
                out@.len() == i,
                forall|j: int| 0 <= j < i ==> out@[j]@ == self.ancestors@[j].0@,
            decreases self.ancestors@.len() - i,
        {
            out.push(self.ancestors[i].0.clone());
            i += 1;
        }
        if self.exists {
            match &self.path {
                Some(path) => out.push(path.clone()),
                None => out.push(String::new()),
            }
        }
        out
    }

    /// The chain of layers of these documents.
    pub fn chain(&self) -> (chain: CascadeChain)
        ensures
            chain.layers() == self.layers(),
    {
        let mut ancestors: Vec<Layer> = Vec::new();
        let mut i: usize = 0;
        while i < self.ancestors.len()
            invariant
                i <= self.ancestors@.len(),
                ancestors@.len() == i,
                forall|j: int|
                    0 <= j < i ==> (#[trigger] ancestors@[j])@ == layer_of(
                        self.ancestors@[j].0@,
                        self.ancestors@[j].1,
                    ),
            decreases self.ancestors@.len() - i,
        {
            let layer = layer_from_document(self.ancestors[i].0.as_str(), &self.ancestors[i].1);
            ancestors.push(layer);
            i += 1;
        }
        let leaf = match &self.path {
            Some(path) => layer_from_document(path.as_str(), &self.document),
            None => layer_from_document("", &self.document),
        };
        proof {
            reveal_strlit("");
            assert(""@ =~= Seq::<char>::empty());
        }
        CascadeChain::new(ancestors, leaf)
    }

    /// The resolved set of the section family `sections`.
    pub fn section(&self, sections: &[&str], filter_options: &FilterOptions) -> (out: ResolvedSet)
        ensures
            pair_views(out@) == materialized(self.layers(), views(sections@), filter_options@),
    {
        let chain = self.chain();
        materialize(&chain, sections, filter_options)
    }

    /// The environment variables: the family `env`, `environment`.
    pub fn vars(&self, filter_options: &FilterOptions) -> (out: ResolvedSet)
        ensures
            pair_views(out@) == materialized(self.layers(), views(var_sections()@), filter_options@),
    {
        self.section(var_sections(), filter_options)
    }

    /// The aliases: the family `alias`.
    pub fn aliases(&self, filter_options: &FilterOptions) -> (out: ResolvedSet)
        ensures
            pair_views(out@) == materialized(self.layers(), views(alias_sections()@), filter_options@),
    {
        self.section(alias_sections(), filter_options)
    }

    /// The shell functions: the family `function`.
    pub fn functions(&self, filter_options: &FilterOptions) -> (out: ResolvedSet)
        ensures
            pair_views(out@) == materialized(self.layers(), views(function_sections()@), filter_options@),
    {
        self.section(function_sections(), filter_options)
    }

    /// The files: the family `file`.
    pub fn files(&self, filter_options: &FilterOptions) -> (out: ResolvedSet)
        ensures
            pair_views(out@) == materialized(self.layers(), views(file_sections()@), filter_options@),
    {
        self.section(file_sections(), filter_options)
    }
}

/// Names and texts as the values to set: each text as the item that it
/// stands for.
pub open spec fn items_of(raw_values: Seq<(String, String)>) -> Seq<(Seq<char>, Item)> {
    Seq::new(raw_values.len(), |i: int| (raw_values[i].0@, item_from_text(raw_values[i].1@)))
}

/// What a text that was set stands for in a layer: what its item stands
/// for, which is the text itself where the text is no TOML value.
pub open spec fn text_stands_for(raw: Seq<char>, entry: SpecValue) -> bool {
    &&& entry == entry_of(item_from_text(raw))
    &&& parsed_value(raw) is Err ==> entry == SpecValue::Scalar(raw)
}

/// What the leaf holds after the text `raw` was set under `key` of
/// `section`, where the section is a table with a header of its own or
/// was not there before: the layer of the leaf has, under that section and
/// key, what the text stands for.
pub open spec fn set_in_leaf(
    after: Saucefile,
    before: Saucefile,
    section: Seq<char>,
    key: Seq<char>,
    raw: Seq<char>,
) -> bool {
    makes_table(document_root(before.document), section) ==> match after.leaf_layer().entry(
        section,
        key,
    ) {
        Some(entry) => text_stands_for(raw, entry),
        None => false,
    }
}

/// What the leaf holds after names and texts were set under `section`:
/// under each name, what the text given last for it stands for.
pub open spec fn all_set_in_leaf(
    after: Saucefile,
    before: Saucefile,
    section: Seq<char>,
    raw_values: Seq<(String, String)>,
) -> bool {
    forall|j: int|
        0 <= j < raw_values.len() && is_last_for_name(items_of(raw_values), j) ==> set_in_leaf(
            after,
            before,
            section,
            (#[trigger] raw_values[j]).0@,
            raw_values[j].1@,
        )
}

/// The values to set for names and texts given on the command line. Each
/// is an item that holds a value.
pub fn values_from_pairs(raw_values: &Vec<(String, String)>) -> (values: Vec<(String, Item)>)
    ensures
        value_views(values@) == items_of(raw_values@),
        forall|j: int|
            0 <= j < values@.len() ==> item_value((#[trigger] values@[j]).1) is Some
                && text_stands_for(raw_values@[j].1@, entry_of(values@[j].1)),
{
    let mut values: Vec<(String, Item)> = Vec::new();
    let mut i: usize = 0;
    while i < raw_values.len()
        invariant
            i <= raw_values@.len(),
            values@.len() == i,
            forall|j: int|
                0 <= j < i ==> (#[trigger] values@[j]).0@ == raw_values@[j].0@ && values@[j].1
                    == item_from_text(raw_values@[j].1@) && item_value(values@[j].1) is Some
                    && text_stands_for(raw_values@[j].1@, entry_of(values@[j].1)),
        decreases raw_values@.len() - i,
    {
        values.push((raw_values[i].0.clone(), value_from_string(raw_values[i].1.as_str())));
        i += 1;
    }
    values
}

impl Saucefile {
    /// Sets environment variables in the document of the directory
    /// itself. The answer says whether the document is to be written back.
    pub fn set_var(&mut self, raw_values: &Vec<(String, String)>, output: &mut Output) -> (changed:
        bool)
        ensures
            toml_written(
                old(output)@,
                old(self).document,
                "environment"@,
                items_of(raw_values@),
                final(output)@,
                final(self).document,
                changed,
            ),
            changed ==> all_set_in_leaf(*final(self), *old(self), "environment"@, raw_values@),
            final(self).path == old(self).path,
            final(self).ancestors == old(self).ancestors,
            final(self).exists == old(self).exists,
    {
        let values = values_from_pairs(raw_values);
        let ghost set = values@;
        let changed = output.write_toml(&mut self.document, "environment", values);
        proof {
            if changed && makes_table(document_root(old(self).document), "environment"@) {
                assert forall|j: int|
                    0 <= j < raw_values@.len() && is_last_for_name(
                        items_of(raw_values@),
                        j,
                    ) implies set_in_leaf(
                    *self,
                    *old(self),
                    "environment"@,
                    (#[trigger] raw_values@[j]).0@,
                    raw_values@[j].1@,
                ) by {
                    assert(value_views(set)[j] == (set[j].0@, set[j].1));
                    lemma_entry_stands(
                        self.leaf_path(),
                        self.document,
                        "environment"@,
                        set[j].0@,
                        set[j].1,
                    );
                }
            }
        }
        changed
    }

    /// Sets aliases in the document of the directory itself.
    pub fn set_alias(&mut self, raw_values: &Vec<(String, String)>, output: &mut Output) -> (changed:
        bool)
        ensures
            toml_written(
                old(output)@,
                old(self).document,
                "alias"@,
                items_of(raw_values@),
                final(output)@,
                final(self).document,
                changed,
            ),
            changed ==> all_set_in_leaf(*final(self), *old(self), "alias"@, raw_values@),
            final(self).path == old(self).path,
            final(self).ancestors == old(self).ancestors,
            final(self).exists == old(self).exists,
    {
        let values = values_from_pairs(raw_values);
        let ghost set = values@;
        let changed = output.write_toml(&mut self.document, "alias", values);
        proof {
            if changed && makes_table(document_root(old(self).document), "alias"@) {
                assert forall|j: int|
                    0 <= j < raw_values@.len() && is_last_for_name(
                        items_of(raw_values@),
                        j,
                    ) implies set_in_leaf(
                    *self,
                    *old(self),
                    "alias"@,
                    (#[trigger] raw_values@[j]).0@,
                    raw_values@[j].1@,
                ) by {
                    assert(value_views(set)[j] == (set[j].0@, set[j].1));
                    lemma_entry_stands(
                        self.leaf_path(),
                        self.document,
                        "alias"@,
                        set[j].0@,
                        set[j].1,
                    );
                }
            }
        }
        changed
    }

    /// Sets the content of one file in the document of the directory
    /// itself.
    pub fn set_file(&mut self, name: &str, body: &str, output: &mut Output) -> (changed: bool)
        ensures
            toml_written(
                old(output)@,
                old(self).document,
                "file"@,
                seq![(name@, item_from_text(body@))],
                final(output)@,
                final(self).document,
                changed,
            ),
            changed ==> set_in_leaf(*final(self), *old(self), "file"@, name@, body@),
            final(self).path == old(self).path,
            final(self).ancestors == old(self).ancestors,
            final(self).exists == old(self).exists,
    {
        let mut values: Vec<(String, Item)> = Vec::new();
        let item = value_from_string(body);
        let ghost set = item;
        values.push((name.to_owned(), item));
        proof {
            assert(value_views(values@) =~= seq![(name@, item_from_text(body@))]);
        }
        let changed = output.write_toml(&mut self.document, "file", values);
        proof {
            if changed && makes_table(document_root(old(self).document), "file"@) {
                lemma_entry_stands(self.leaf_path(), self.document, "file"@, name@, set);
            }
        }
        changed
    }

    /// Sets one shell function in the document of the directory itself.
    pub fn set_function(&mut self, name: &str, body: &str, output: &mut Output) -> (changed: bool)
        ensures
            toml_written(
                old(output)@,
                old(self).document,
                "function"@,
                seq![(name@, item_from_text(body@))],
                final(output)@,
                final(self).document,
                changed,
            ),
            changed ==> set_in_leaf(*final(self), *old(self), "function"@, name@, body@),
            final(self).path == old(self).path,
            final(self).ancestors == old(self).ancestors,
            final(self).exists == old(self).exists,
    {
        let mut values: Vec<(String, Item)> = Vec::new();
        let item = value_from_string(body);
        let ghost set = item;
        values.push((name.to_owned(), item));
        proof {
            assert(value_views(values@) =~= seq![(name@, item_from_text(body@))]);
        }
        let changed = output.write_toml(&mut self.document, "function", values);
        proof {
            if changed && makes_table(document_root(old(self).document), "function"@) {
                lemma_entry_stands(self.leaf_path(), self.document, "function"@, name@, set);
            }
        }
        changed
    }
}

/// The section names of the environment variables.
#[verifier::when_used_as_spec(var_sections_spec)]
pub fn var_sections() -> (names: &'static [&'static str])
    ensures
        names == var_sections_spec(),
{
    &VAR_SECTIONS
}

/// The section names of the aliases.
#[verifier::when_used_as_spec(alias_sections_spec)]
pub fn alias_sections() -> (names: &'static [&'static str])
    ensures
        names == alias_sections_spec(),
{
    &ALIAS_SECTIONS
}

/// The section names of the shell functions.
#[verifier::when_used_as_spec(function_sections_spec)]
pub fn function_sections() -> (names: &'static [&'static str])
    ensures
        names == function_sections_spec(),
{
    &FUNCTION_SECTIONS
}

/// The section names of the files.
#[verifier::when_used_as_spec(file_sections_spec)]
pub fn file_sections() -> (names: &'static [&'static str])
    ensures
        names == file_sections_spec(),
{
    &FILE_SECTIONS
}

/// `env` and `environment` are one family.
pub const VAR_SECTIONS: [&'static str; 2] = ["env", "environment"];

/// The one name of the aliases.
pub const ALIAS_SECTIONS: [&'static str; 1] = ["alias"];

/// The one name of the shell functions.
pub const FUNCTION_SECTIONS: [&'static str; 1] = ["function"];

/// The one name of the files.
pub const FILE_SECTIONS: [&'static str; 1] = ["file"];

/// The section names of the environment variables.
pub open spec fn var_sections_spec() -> &'static [&'static str] {
    &VAR_SECTIONS
}

/// The section names of the aliases.
pub open spec fn alias_sections_spec() -> &'static [&'static str] {
    &ALIAS_SECTIONS
}

/// The section names of the shell functions.
pub open spec fn function_sections_spec() -> &'static [&'static str] {
    &FUNCTION_SECTIONS
}

/// The section names of the files.
pub open spec fn file_sections_spec() -> &'static [&'static str] {
    &FILE_SECTIONS
}

/// Each layer above has the path of one of the first `upto` files as its
/// origin, and where no path stands twice among the files, no origin
/// stands twice among the layers.
pub proof fn lemma_ancestors_read(files: Seq<(Seq<char>, Option<Seq<char>>)>, upto: int)
    requires
        0 <= upto <= files.len(),
        forall|i: int, j: int|
            0 <= i < files.len() && 0 <= j < files.len() && i != j ==> files[i].0 != files[j].0,
    ensures
        forall|i: int|
            0 <= i < ancestors_read(files, upto).len() ==> exists|j: int|
                0 <= j < upto && (#[trigger] ancestors_read(files, upto)[i]).origin_path
                    == files[j].0,
        distinct_origins(ancestors_read(files, upto)),
    decreases upto,
{
    if upto > 0 {
        lemma_ancestors_read(files, upto - 1);
        let before = ancestors_read(files, upto - 1);
        let all = ancestors_read(files, upto);
        assert forall|i: int| 0 <= i < all.len() implies exists|j: int|
            0 <= j < upto && (#[trigger] all[i]).origin_path == files[j].0 by {
            if i < before.len() {
                let j = choose|j: int| 0 <= j < upto - 1 && before[i].origin_path == files[j].0;
                assert(all[i] == before[i]);
                assert(0 <= j < upto && all[i].origin_path == files[j].0);
            } else {
                assert(all[i].origin_path == files[upto - 1].0);
            }
        }
        assert forall|i: int, k: int|
            0 <= i < all.len() && 0 <= k < all.len() && i != k implies (#[trigger] all[i]).origin_path
            != (#[trigger] all[k]).origin_path by {
            let (a, b) = if i < k {
                (i, k)
            } else {
                (k, i)
            };
            assert(all[a] == before[a]);
            if b < before.len() {
                assert(all[b] == before[b]);
            } else {
                let j = choose|j: int| 0 <= j < upto - 1 && before[a].origin_path == files[j].0;
                assert(all[b].origin_path == files[upto - 1].0);
                assert(files[j].0 != files[upto - 1].0);
            }
        }
    }
}

/// A chain always has its leaf, and where no path stands twice among the
/// files, no origin stands twice in the chain.
pub proof fn lemma_chain_read_origins(files: Seq<(Seq<char>, Option<Seq<char>>)>)
    requires
        forall|i: int, j: int|
            0 <= i < files.len() && 0 <= j < files.len() && i != j ==> files[i].0 != files[j].0,
    ensures
        chain_read(files).len() >= 1,
        files.len() > 0 ==> chain_read(files).last().origin_path == files.last().0,
        distinct_origins(chain_read(files)),
{
    let chain = chain_read(files);
    if files.len() > 0 {
        let n = files.len() - 1;
        lemma_ancestors_read(files, n);
        let above = ancestors_read(files, n);
        assert forall|i: int, k: int|
            0 <= i < chain.len() && 0 <= k < chain.len() && i != k implies (
        #[trigger] chain[i]).origin_path != (#[trigger] chain[k]).origin_path by {
            let (a, b) = if i < k {
                (i, k)
            } else {
                (k, i)
            };
            assert(chain[a] == above[a]);
            if b < above.len() {
                assert(chain[b] == above[b]);
            } else {
                let j = choose|j: int| 0 <= j < n && above[a].origin_path == files[j].0;
                assert(chain[b].origin_path == files[n].0);
                assert(files[j].0 != files[n].0);
            }
        }
    }
}

/// Reading goes the same way through the files with and without a missing
/// file among them: before the place of the missing file step by step,
/// behind it one step apart.
proof fn lemma_read_skips_missing(
    front: Seq<(Seq<char>, Option<Seq<char>>)>,
    path: Seq<char>,
    back: Seq<(Seq<char>, Option<Seq<char>>)>,
    before: OutputView,
    upto: int,
)
    requires
        0 <= upto <= front.len() + back.len(),
    ensures
        upto <= front.len() ==> ancestors_read(front + seq![(path, None)] + back, upto)
            == ancestors_read(front + back, upto) && output_read(
            before,
            front + seq![(path, None)] + back,
            upto,
        ) == output_read(before, front + back, upto),
        upto >= front.len() ==> ancestors_read(front + seq![(path, None)] + back, upto + 1)
            == ancestors_read(front + back, upto) && output_read(
            before,
            front + seq![(path, None)] + back,
            upto + 1,
        ) == output_read(before, front + back, upto),
    decreases upto,
{
    let with = front + seq![(path, None)] + back;
    let without = front + back;
    assert(with.len() == without.len() + 1);
    if upto > 0 {
        lemma_read_skips_missing(front, path, back, before, upto - 1);
        if upto <= front.len() {
            assert(with[upto - 1] == without[upto - 1]);
        } else {
            assert(with[upto] == without[upto - 1]);
        }
    }
    if upto == front.len() {
        assert(with[upto] == (path, None::<Seq<char>>));
        assert(ancestors_read(with, upto + 1) == ancestors_read(with, upto));
        assert(output_read(before, with, upto + 1) == output_read(before, with, upto));
    }
}

/// A file above that does not exist contributes no layer and no message:
/// the chain and the output are those of reading without it.
pub proof fn lemma_missing_ancestor_reads_nothing(
    front: Seq<(Seq<char>, Option<Seq<char>>)>,
    path: Seq<char>,
    back: Seq<(Seq<char>, Option<Seq<char>>)>,
    before: OutputView,
)
    requires
        back.len() > 0,
    ensures
        chain_read(front + seq![(path, None)] + back) == chain_read(front + back),
        output_read(
            before,
            front + seq![(path, None)] + back,
            (front.len() + 1 + back.len()) as int,
        ) == output_read(before, front + back, (front.len() + back.len()) as int),
{
    let with = front + seq![(path, None)] + back;
    let without = front + back;
    lemma_read_skips_missing(front, path, back, before, without.len() - 1);
    lemma_read_skips_missing(front, path, back, before, without.len() as int);
    assert(with.last() == without.last());
}

/// The layer of a document without content has no tables.
pub proof fn lemma_blank_layer(path: Seq<char>, document: DocumentMut)
    ensures
        is_blank(document) ==> layer_of(path, document) == (LayerView {
            origin_path: path,
            tables: Seq::empty(),
        }),
{
}

} // verus!
