//! Layers: the content of one configuration document as plain values.
//!
//! A layer maps section names to tables, and a table maps keys to value
//! specifications, both in the order of the document. A chain is the
//! sequence of layers that apply to one directory, root-most first, with
//! the layer of the directory itself, the leaf, last.

use crate::ordered::{distinct_keys, position, upsert, value_of, Key};
use crate::text::same;
use vstd::prelude::*;

verus! {

/// A value of a document in its textual form: one text, or one text for
/// each of several tags.
#[derive(Debug, Clone)]
pub enum ValueSpec {
    Scalar(String),
    TaggedVariants(Vec<(String, String)>),
}

/// What a `ValueSpec` stands for.
pub enum SpecValue {
    Scalar(Seq<char>),
    Tagged(Seq<(Key, Seq<char>)>),
}

/// One table of a layer: its section name and its entries in order.
#[derive(Debug, Clone)]
pub struct Section {
    pub name: String,
    pub entries: Vec<(String, ValueSpec)>,
}

/// The content of one document, and the path that it was read from. The
/// path is empty for a layer that no file backs.
#[derive(Debug, Clone)]
pub struct Layer {
    pub origin_path: String,
    pub sections: Vec<Section>,
}

/// What a `Layer` stands for.
pub struct LayerView {
    pub origin_path: Seq<char>,
    pub tables: Seq<(Key, Seq<(Key, SpecValue)>)>,
}

/// The layers that apply to one directory. Only the leaf is ever changed.
#[derive(Debug, Clone)]
pub struct CascadeChain {
    pub ancestors: Vec<Layer>,
    pub leaf: Layer,
}

/// Pairs of strings as pairs of character sequences.
pub open spec fn pair_views(pairs: Seq<(String, String)>) -> Seq<(Key, Seq<char>)> {
    Seq::new(pairs.len(), |i: int| (pairs[i].0@, pairs[i].1@))
}

/// The entries of a table as keys and what their values stand for.
pub open spec fn table_view(entries: Seq<(String, ValueSpec)>) -> Seq<(Key, SpecValue)> {
    Seq::new(entries.len(), |i: int| (entries[i].0@, entries[i].1@))
}

/// The sections of a layer as names and tables.
pub open spec fn tables_view(sections: Seq<Section>) -> Seq<(Key, Seq<(Key, SpecValue)>)> {
    Seq::new(sections.len(), |i: int| (sections[i].name@, table_view(sections[i].entries@)))
}

/// The views of a list of layers.
pub open spec fn layer_views(layers: Seq<Layer>) -> Seq<LayerView> {
    Seq::new(layers.len(), |i: int| layers[i]@)
}

/// The text that a value has under a tag. A scalar has its one text under
/// every tag. A tagged value has the text of that tag, and the empty text
/// under a tag that it does not define.
pub open spec fn resolved(value: SpecValue, tag: Key) -> Seq<char> {
    match value {
        SpecValue::Scalar(text) => text,
        SpecValue::Tagged(variants) => match value_of(variants, tag) {
            Some(text) => text,
            None => Seq::empty(),
        },
    }
}

/// No origin path stands twice among the layers.
pub open spec fn distinct_origins(layers: Seq<LayerView>) -> bool {
    forall|i: int, j: int|
        0 <= i < layers.len() && 0 <= j < layers.len() && i != j ==> (
        #[trigger] layers[i]).origin_path != (#[trigger] layers[j]).origin_path
}

impl View for ValueSpec {
    type V = SpecValue;

    open spec fn view(&self) -> SpecValue {
        match self {
            ValueSpec::Scalar(text) => SpecValue::Scalar(text@),
            ValueSpec::TaggedVariants(variants) => SpecValue::Tagged(pair_views(variants@)),
        }
    }
}

impl View for Layer {
    type V = LayerView;

    open spec fn view(&self) -> LayerView {
        LayerView { origin_path: self.origin_path@, tables: tables_view(self.sections@) }
    }
}

impl LayerView {
    /// Section names are distinct, and so are the keys of each table.
    pub open spec fn well_formed(self) -> bool {
        &&& distinct_keys(self.tables)
        &&& forall|i: int| 0 <= i < self.tables.len() ==> distinct_keys((#[trigger] self.tables[i]).1)
    }

    /// The layer with `key` of `section` set to `value`. The section is
    /// made at the end where the layer has none of that name.
    pub open spec fn with_entry(self, section: Key, key: Key, value: SpecValue) -> LayerView {
        let table = match value_of(self.tables, section) {
            Some(t) => t,
            None => Seq::empty(),
        };
        LayerView {
            origin_path: self.origin_path,
            tables: upsert(self.tables, section, upsert(table, key, value)),
        }
    }

    /// What stands under `key` of `section`.
    pub open spec fn entry(self, section: Key, key: Key) -> Option<SpecValue> {
        match value_of(self.tables, section) {
            Some(t) => value_of(t, key),
            None => None,
        }
    }
}

/// Position of the first pair of `pairs` whose key is `key`.
pub fn find_tag(pairs: &Vec<(String, String)>, key: &str) -> (r: Option<usize>)
    ensures
        match r {
            Some(i) => position(pair_views(pairs@), key@) == Some(i as int) && i < pairs@.len(),
            None => position(pair_views(pairs@), key@) is None,
        },
{
    let mut i: usize = 0;
    while i < pairs.len()
        invariant
            i <= pairs@.len(),
            position(pair_views(pairs@).take(i as int), key@) is None,
        decreases pairs@.len() - i,
    {
        proof {
            assert(pair_views(pairs@).take(i + 1).drop_last() =~= pair_views(pairs@).take(
                i as int,
            ));
        }
        if same(pairs[i].0.as_str(), key) {
            proof {
                lemma_position_prefix(pair_views(pairs@), key@, i + 1);
            }
            return Some(i);
        }
        i += 1;
    }
    proof {
        assert(pair_views(pairs@).take(i as int) =~= pair_views(pairs@));
    }
    None
}

/// A position found in a prefix is the position in the whole.
pub proof fn lemma_position_prefix<V>(pairs: Seq<(Key, V)>, key: Key, n: int)
    requires
        0 <= n <= pairs.len(),
        position(pairs.take(n), key) is Some,
    ensures
        position(pairs, key) == position(pairs.take(n), key),
    decreases pairs.len() - n,
{
    if n < pairs.len() {
        assert(pairs.take(n + 1).drop_last() =~= pairs.take(n));
        lemma_position_prefix(pairs, key, n + 1);
    } else {
        assert(pairs.take(n) =~= pairs);
    }
}

impl ValueSpec {
    /// The text of this value under `tag`.
    pub fn resolve(&self, tag: &str) -> (out: String)
        ensures
            out@ == resolved(self@, tag@),
    {
        match self {
            ValueSpec::Scalar(text) => text.clone(),
            ValueSpec::TaggedVariants(variants) => match find_tag(variants, tag) {
                Some(i) => variants[i].1.clone(),
                None => String::new(),
            },
        }
    }
}

impl Section {
    /// Position of the first entry with the key.
    pub fn find(&self, key: &str) -> (r: Option<usize>)
        ensures
            match r {
                Some(i) => position(table_view(self.entries@), key@) == Some(i as int) && i
                    < self.entries@.len(),
                None => position(table_view(self.entries@), key@) is None,
            },
    {
        let mut i: usize = 0;
        while i < self.entries.len()
            invariant
                i <= self.entries@.len(),
                position(table_view(self.entries@).take(i as int), key@) is None,
            decreases self.entries@.len() - i,
        {
            proof {
                assert(table_view(self.entries@).take(i + 1).drop_last() =~= table_view(
                    self.entries@,
                ).take(i as int));
            }
            if same(self.entries[i].0.as_str(), key) {
                proof {
                    lemma_position_prefix(table_view(self.entries@), key@, i + 1);
                }
                return Some(i);
            }
            i += 1;
        }
        proof {
            assert(table_view(self.entries@).take(i as int) =~= table_view(self.entries@));
        }
        None
    }
}

impl Layer {
    /// A layer without sections.
    pub fn new(origin_path: &str) -> (layer: Layer)
        ensures
            layer@.origin_path == origin_path@,
            layer@.tables.len() == 0,
            layer@.well_formed(),
    {
        Layer { origin_path: origin_path.to_owned(), sections: Vec::new() }
    }

    /// Whether the layer has no entry at all.
    pub fn is_empty(&self) -> (r: bool)
        ensures
            r == forall|i: int| 0 <= i < self@.tables.len() ==> (#[trigger] self@.tables[i]).1.len() == 0,
    {
        let mut i: usize = 0;
        while i < self.sections.len()
            invariant
                i <= self.sections@.len(),
                forall|j: int| 0 <= j < i ==> (#[trigger] self@.tables[j]).1.len() == 0,
            decreases self.sections@.len() - i,
        {
            if self.sections[i].entries.len() != 0 {
                assert(self@.tables[i as int].1.len() != 0);
                return false;
            }
            i += 1;
        }
        true
    }

    /// Position of the first section with the name.
    pub fn find_section(&self, name: &str) -> (r: Option<usize>)
        ensures
            match r {
                Some(i) => position(self@.tables, name@) == Some(i as int) && i < self.sections@.len(),
                None => position(self@.tables, name@) is None,
            },
    {
        let mut i: usize = 0;
        while i < self.sections.len()
            invariant
                i <= self.sections@.len(),
                position(self@.tables.take(i as int), name@) is None,
            decreases self.sections@.len() - i,
        {
            proof {
                assert(self@.tables.take(i + 1).drop_last() =~= self@.tables.take(i as int));
            }
            if same(self.sections[i].name.as_str(), name) {
                proof {
                    lemma_position_prefix(self@.tables, name@, i + 1);
                }
                return Some(i);
            }
            i += 1;
        }
        proof {
            assert(self@.tables.take(i as int) =~= self@.tables);
        }
        None
    }

    /// The value under `key` of `section`, if there is one.
    pub fn get(&self, section: &str, key: &str) -> (r: Option<&ValueSpec>)
        ensures
            match r {
                Some(v) => self@.entry(section@, key@) == Some(v@),
                None => self@.entry(section@, key@) is None,
            },
    {
        match self.find_section(section) {
            Some(s) => {
                let table = &self.sections[s];
                match table.find(key) {
                    Some(e) => Some(&table.entries[e].1),
                    None => None,
                }
            },
            None => None,
        }
    }

    /// Sets `key` of `section` to `value`. A key that is there keeps its
    /// place; a new key comes last, in a new last section where there is
    /// none of that name.
    pub fn set(&mut self, section: &str, key: &str, value: ValueSpec)
        ensures
            final(self)@ == old(self)@.with_entry(section@, key@, value@),
            old(self)@.well_formed() ==> final(self)@.well_formed(),
    {
        let ghost before = self@;
        let ghost new_value = value@;
        let found = self.find_section(section);
        let index = match found {
            Some(s) => s,
            None => {
                self.sections.push(Section { name: section.to_owned(), entries: Vec::new() });
                self.sections.len() - 1
            },
        };
        let ghost old_table = match value_of(before.tables, section@) {
            Some(t) => t,
            None => Seq::empty(),
        };
        proof {
            crate::ordered::lemma_position(before.tables, section@);
        }
        let mut table = Section { name: String::new(), entries: Vec::new() };
        std::mem::swap(&mut self.sections[index], &mut table);
        match table.find(key) {
            Some(e) => {
                table.entries[e] = (key.to_owned(), value);
            },
            None => {
                table.entries.push((key.to_owned(), value));
            },
        }
        self.sections[index] = table;
        proof {
            let want = before.with_entry(section@, key@, new_value);
            assert forall|i: int| 0 <= i < want.tables.len() implies self@.tables[i]
                == want.tables[i] by {}
            assert(self@.tables =~= want.tables);
            if before.well_formed() {
                crate::ordered::lemma_upsert(old_table, key@, new_value);
                assert forall|i: int| 0 <= i < want.tables.len() implies distinct_keys(
                    (#[trigger] want.tables[i]).1,
                ) by {}
            }
        }
    }

    /// Sets `key` of `section` to the one text `value`.
    pub fn set_scalar(&mut self, section: &str, key: &str, value: &str)
        ensures
            final(self)@ == old(self)@.with_entry(section@, key@, SpecValue::Scalar(value@)),
            old(self)@.well_formed() ==> final(self)@.well_formed(),
    {
        self.set(section, key, ValueSpec::Scalar(value.to_owned()));
    }

    /// Sets the text that `key` of `section` has under `tag`. The texts of
    /// its other tags stay; a key that held one text, or was not there,
    /// then holds the text of this tag alone.
    pub fn set_tagged_variant(&mut self, section: &str, key: &str, tag: &str, value: &str)
        ensures
            final(self)@ == old(self)@.with_entry(
                section@,
                key@,
                SpecValue::Tagged(
                    upsert(
                        match old(self)@.entry(section@, key@) {
                            Some(SpecValue::Tagged(variants)) => variants,
                            _ => Seq::empty(),
                        },
                        tag@,
                        value@,
                    ),
                ),
            ),
            old(self)@.well_formed() ==> final(self)@.well_formed(),
    {
        let mut variants: Vec<(String, String)> = Vec::new();
        let ghost kept = match self@.entry(section@, key@) {
            Some(SpecValue::Tagged(variants)) => variants,
            _ => Seq::empty(),
        };
        match self.get(section, key) {
            Some(ValueSpec::TaggedVariants(existing)) => {
                variants = copy_pairs(existing);
            },
            _ => {},
        }
        let ghost before = pair_views(variants@);
        proof {
            assert(before =~= kept);
        }
        match find_tag(&variants, tag) {
            Some(i) => {
                variants[i] = (tag.to_owned(), value.to_owned());
            },
            None => {
                variants.push((tag.to_owned(), value.to_owned()));
            },
        }
        proof {
            assert(pair_views(variants@) =~= upsert(before, tag@, value@));
        }
        self.set(section, key, ValueSpec::TaggedVariants(variants));
    }
}

/// A copy of a list of pairs.
pub fn copy_pairs(pairs: &Vec<(String, String)>) -> (out: Vec<(String, String)>)
    ensures
        pair_views(out@) == pair_views(pairs@),
{
    let mut out: Vec<(String, String)> = Vec::new();
    let mut i: usize = 0;
    while i < pairs.len()
        invariant
            i <= pairs@.len(),
            out@.len() == i,
            forall|j: int| 0 <= j < i ==> out@[j].0@ == pairs@[j].0@ && out@[j].1@ == pairs@[j].1@,
        decreases pairs@.len() - i,
    {
        out.push((pairs[i].0.clone(), pairs[i].1.clone()));
        i += 1;
    }
    out
}

impl CascadeChain {
    /// The layers in the order in which they apply: ancestors, then leaf.
    pub open spec fn layers(&self) -> Seq<LayerView> {
        layer_views(self.ancestors@).push(self.leaf@)
    }

    /// A chain of the given ancestors and leaf.
    pub fn new(ancestors: Vec<Layer>, leaf: Layer) -> (chain: CascadeChain)
        ensures
            chain.ancestors == ancestors,
            chain.leaf == leaf,
            chain.layers().len() == ancestors@.len() + 1,
    {
        CascadeChain { ancestors, leaf }
    }
}

/// A tagged value without a text for the active tag resolves to the empty
/// text.
pub proof fn lemma_tag_fallback(variants: Seq<(Key, Seq<char>)>, tag: Key)
    requires
        forall|i: int| 0 <= i < variants.len() ==> (#[trigger] variants[i]).0 != tag,
    ensures
        resolved(SpecValue::Tagged(variants), tag) == Seq::<char>::empty(),
{
    crate::ordered::lemma_position(variants, tag);
}

/// A tagged value with one text for the active tag resolves to that text.
pub proof fn lemma_tag_chosen(variants: Seq<(Key, Seq<char>)>, tag: Key, i: int)
    requires
        0 <= i < variants.len(),
        variants[i].0 == tag,
        distinct_keys(variants),
    ensures
        resolved(SpecValue::Tagged(variants), tag) == variants[i].1,
{
    crate::ordered::lemma_position(variants, tag);
}

/// A scalar resolves to its text under every tag.
pub proof fn lemma_scalar_ignores_tag(text: Seq<char>, a: Key, b: Key)
    ensures
        resolved(SpecValue::Scalar(text), a) == text,
        resolved(SpecValue::Scalar(text), a) == resolved(SpecValue::Scalar(text), b),
{
}

} // verus!
