//! Materialization: from a chain of layers to the resolved key/value list
//! of one section family.
//!
//! The layers are walked root-most first. In each layer the requested
//! section names are taken in the order given, and the entries of each
//! table in the order of the table. Every entry that the filters keep is
//! resolved under the active tag and set in the result: a key that was set
//! before keeps its place and takes the new value.

use crate::filter::{FilterOptions, FilterView};
use crate::text::views;
use crate::layer::{
    layer_views, pair_views, resolved, table_view, CascadeChain, Layer, LayerView, SpecValue,
    ValueSpec,
};
use crate::ordered::{
    distinct_keys, has_key, last_position, lemma_upsert_all, lemma_upsert_all_concat,
    lemma_upsert_all_push, position, upsert, upsert_all, value_of, Key,
};
use indexmap::IndexMap;
use vstd::prelude::*;

verus! {

/// A map that keeps its keys in the order in which they came in.
#[verifier::external_type_specification]
#[verifier::external_body]
#[verifier::reject_recursive_types(K)]
#[verifier::reject_recursive_types(V)]
#[verifier::reject_recursive_types(S)]
pub struct ExIndexMap<K, V, S>(IndexMap<K, V, S>);

/// The resolved keys and values of one section family, in order.
pub type ResolvedSet = Vec<(String, String)>;

/// The pairs that an `IndexMap` holds, in its order.
pub uninterp spec fn index_map_pairs(map: IndexMap<String, String>) -> Seq<(Key, Seq<char>)>;

/// Calls `IndexMap::new`: a map that holds nothing.
#[verifier::external_body]
fn index_map_new() -> (map: IndexMap<String, String>)
    ensures
        index_map_pairs(map) == Seq::<(Key, Seq<char>)>::empty(),
{
    IndexMap::new()
}

/// Calls `IndexMap::insert`. A key that the map holds keeps its place and
/// takes the new value; a key that it does not hold comes last.
#[verifier::external_body]
fn index_map_insert(map: &mut IndexMap<String, String>, key: String, value: String)
    ensures
        index_map_pairs(*final(map)) == upsert(index_map_pairs(*old(map)), key@, value@),
{
    map.insert(key, value);
}

/// Calls `IndexMap::into_iter` and collects the pairs, which come in the
/// order of the map.
#[verifier::external_body]
fn index_map_into_vec(map: IndexMap<String, String>) -> (out: Vec<(String, String)>)
    ensures
        pair_views(out@) == index_map_pairs(map),
{
    map.into_iter().collect()
}

/// The pairs that one table contributes: for each entry that the filters
/// keep, in the order of the table, its key and its text under the active
/// tag.
pub open spec fn table_stream(
    entries: Seq<(Key, SpecValue)>,
    names: Seq<Seq<char>>,
    filters: FilterView,
) -> Seq<(Key, Seq<char>)>
    decreases entries.len(),
{
    if entries.len() == 0 {
        Seq::empty()
    } else {
        let before = table_stream(entries.drop_last(), names, filters);
        let entry = entries.last();
        if filters.includes(names, entry.0) {
            before.push((entry.0, resolved(entry.1, filters.tag())))
        } else {
            before
        }
    }
}

/// The pairs that one layer contributes through the first `upto` of the
/// section names: name by name, the pairs of the table of that name. A
/// name without a table contributes nothing.
pub open spec fn layer_stream(
    tables: Seq<(Key, Seq<(Key, SpecValue)>)>,
    names: Seq<Seq<char>>,
    upto: int,
    filters: FilterView,
) -> Seq<(Key, Seq<char>)>
    decreases upto,
{
    if upto <= 0 || upto > names.len() {
        Seq::empty()
    } else {
        layer_stream(tables, names, upto - 1, filters) + (match value_of(
            tables,
            names[upto - 1],
        ) {
            Some(table) => table_stream(table, names, filters),
            None => Seq::empty(),
        })
    }
}

/// The pairs that the layers contribute, layer by layer.
pub open spec fn chain_stream(
    layers: Seq<LayerView>,
    names: Seq<Seq<char>>,
    filters: FilterView,
) -> Seq<(Key, Seq<char>)>
    decreases layers.len(),
{
    if layers.len() == 0 {
        Seq::empty()
    } else {
        chain_stream(layers.drop_last(), names, filters) + layer_stream(
            layers.last().tables,
            names,
            names.len() as int,
            filters,
        )
    }
}

/// The resolved set of a chain: what setting the contributed pairs in
/// turn, from nothing, leaves.
pub open spec fn materialized(
    layers: Seq<LayerView>,
    names: Seq<Seq<char>>,
    filters: FilterView,
) -> Seq<(Key, Seq<char>)> {
    upsert_all(Seq::empty(), chain_stream(layers, names, filters))
}

/// Sets in `result` what one table contributes.
fn fold_table(
    result: &mut IndexMap<String, String>,
    entries: &Vec<(String, ValueSpec)>,
    names: &[&str],
    filters: &FilterOptions,
)
    ensures
        index_map_pairs(*final(result)) == upsert_all(
            index_map_pairs(*old(result)),
            table_stream(table_view(entries@), views(names@), filters@),
        ),
{
    let tag = filters.active_tag();
    let ghost start = index_map_pairs(*result);
    let ghost table = table_view(entries@);
    let mut i: usize = 0;
    while i < entries.len()
        invariant
            i <= entries@.len(),
            table == table_view(entries@),
            tag@ == filters@.tag(),
            index_map_pairs(*result) == upsert_all(
                start,
                table_stream(table.take(i as int), views(names@), filters@),
            ),
        decreases entries@.len() - i,
    {
        let key = entries[i].0.as_str();
        proof {
            assert(table.take(i + 1).drop_last() =~= table.take(i as int));
        }
        if filters.is_included(names, key) {
            let text = entries[i].1.resolve(tag);
            proof {
                lemma_upsert_all_push(
                    start,
                    table_stream(table.take(i as int), views(names@), filters@),
                    key@,
                    text@,
                );
            }
            index_map_insert(result, key.to_owned(), text);
        }
        i += 1;
    }
    proof {
        assert(table.take(i as int) =~= table);
    }
}

/// Sets in `result` what one layer contributes.
fn fold_layer(
    result: &mut IndexMap<String, String>,
    layer: &Layer,
    names: &[&str],
    filters: &FilterOptions,
)
    ensures
        index_map_pairs(*final(result)) == upsert_all(
            index_map_pairs(*old(result)),
            layer_stream(layer@.tables, views(names@), names@.len() as int, filters@),
        ),
{
    let ghost start = index_map_pairs(*result);
    let mut n: usize = 0;
    while n < names.len()
        invariant
            n <= names@.len(),
            index_map_pairs(*result) == upsert_all(
                start,
                layer_stream(layer@.tables, views(names@), n as int, filters@),
            ),
        decreases names@.len() - n,
    {
        let ghost done = layer_stream(layer@.tables, views(names@), n as int, filters@);
        match layer.find_section(names[n]) {
            Some(s) => {
                let section = &layer.sections[s];
                proof {
                    lemma_upsert_all_concat(
                        start,
                        done,
                        table_stream(table_view(section.entries@), views(names@), filters@),
                    );
                }
                fold_table(result, &section.entries, names, filters);
            },
            None => {},
        }
        n += 1;
    }
}

/// The resolved set of `chain` for the section family `section_names`.
///
/// The order of the keys is that of their first definition along the
/// chain; the value of each key is that of its last definition.
pub fn materialize(chain: &CascadeChain, section_names: &[&str], filters: &FilterOptions) -> (out:
    ResolvedSet)
    ensures
        pair_views(out@) == materialized(chain.layers(), views(section_names@), filters@),
        distinct_keys(pair_views(out@)),
{
    let mut result = index_map_new();
    let ghost above = layer_views(chain.ancestors@);
    let mut i: usize = 0;
    while i < chain.ancestors.len()
        invariant
            i <= chain.ancestors@.len(),
            above == layer_views(chain.ancestors@),
            index_map_pairs(result) == upsert_all(
                Seq::empty(),
                chain_stream(above.take(i as int), views(section_names@), filters@),
            ),
        decreases chain.ancestors@.len() - i,
    {
        proof {
            assert(above.take(i + 1).drop_last() =~= above.take(i as int));
            lemma_upsert_all_concat(
                Seq::empty(),
                chain_stream(above.take(i as int), views(section_names@), filters@),
                layer_stream(
                    chain.ancestors@[i as int]@.tables,
                    views(section_names@),
                    section_names@.len() as int,
                    filters@,
                ),
            );
        }
        fold_layer(&mut result, &chain.ancestors[i], section_names, filters);
        i += 1;
    }
    proof {
        assert(above.take(i as int) =~= above);
        assert(chain.layers().drop_last() =~= above);
        lemma_upsert_all_concat(
            Seq::empty(),
            chain_stream(above, views(section_names@), filters@),
            layer_stream(
                chain.leaf@.tables,
                views(section_names@),
                section_names@.len() as int,
                filters@,
            ),
        );
        lemma_upsert_all(chain_stream(chain.layers(), views(section_names@), filters@));
    }
    fold_layer(&mut result, &chain.leaf, section_names, filters);
    index_map_into_vec(result)
}

/// Resolving depends on the chain, the section names and the filters
/// alone: any two resolved sets of the same three are equal.
pub proof fn lemma_materialize_is_a_function(
    layers: Seq<LayerView>,
    names: Seq<Seq<char>>,
    filters: FilterView,
    first: Seq<(Key, Seq<char>)>,
    second: Seq<(Key, Seq<char>)>,
)
    requires
        first == materialized(layers, names, filters),
        second == materialized(layers, names, filters),
    ensures
        first == second,
{
}

/// Each key of the resolved set stands once; it is a key that some layer
/// contributes; its value is the one contributed last; and the keys stand
/// in the order in which they were first contributed.
pub proof fn lemma_override_wins_value_first_wins_position(
    layers: Seq<LayerView>,
    names: Seq<Seq<char>>,
    filters: FilterView,
)
    ensures
        distinct_keys(materialized(layers, names, filters)),
        forall|key: Key|
            has_key(materialized(layers, names, filters), key) <==> has_key(
                chain_stream(layers, names, filters),
                key,
            ),
        forall|key: Key|
            has_key(chain_stream(layers, names, filters), key) ==> value_of(
                materialized(layers, names, filters),
                key,
            ) == Some(
                chain_stream(layers, names, filters)[last_position(
                    chain_stream(layers, names, filters),
                    key,
                ).unwrap()].1,
            ),
        forall|a: Key, b: Key|
            has_key(chain_stream(layers, names, filters), a) && has_key(
                chain_stream(layers, names, filters),
                b,
            ) ==> (position(materialized(layers, names, filters), a).unwrap() < position(
                materialized(layers, names, filters),
                b,
            ).unwrap() <==> position(chain_stream(layers, names, filters), a).unwrap() < position(
                chain_stream(layers, names, filters),
                b,
            ).unwrap()),
{
    lemma_upsert_all(chain_stream(layers, names, filters));
}

/// A layer without tables contributes nothing, whatever is asked of it.
pub proof fn lemma_empty_layer_contributes_nothing(
    names: Seq<Seq<char>>,
    upto: int,
    filters: FilterView,
)
    ensures
        layer_stream(Seq::empty(), names, upto, filters) == Seq::<(Key, Seq<char>)>::empty(),
    decreases upto,
{
    if 0 < upto <= names.len() {
        lemma_empty_layer_contributes_nothing(names, upto - 1, filters);
    }
}

/// What a run of layers contributes is what its front contributes and then
/// what its back contributes.
pub proof fn lemma_chain_stream_concat(
    front: Seq<LayerView>,
    back: Seq<LayerView>,
    names: Seq<Seq<char>>,
    filters: FilterView,
)
    ensures
        chain_stream(front + back, names, filters) == chain_stream(front, names, filters)
            + chain_stream(back, names, filters),
    decreases back.len(),
{
    if back.len() > 0 {
        assert((front + back).drop_last() =~= front + back.drop_last());
        lemma_chain_stream_concat(front, back.drop_last(), names, filters);
    }
}

/// A layer that holds nothing, as one has it from a path without a file,
/// changes nothing wherever it stands in the chain.
pub proof fn lemma_missing_layer_is_neutral(
    front: Seq<LayerView>,
    missing: LayerView,
    back: Seq<LayerView>,
    names: Seq<Seq<char>>,
    filters: FilterView,
)
    requires
        missing.tables.len() == 0,
    ensures
        materialized(front + seq![missing] + back, names, filters) == materialized(
            front + back,
            names,
            filters,
        ),
{
    let one = seq![missing];
    lemma_chain_stream_concat(front + one, back, names, filters);
    lemma_chain_stream_concat(front, one, names, filters);
    lemma_chain_stream_concat(front, back, names, filters);
    assert(missing.tables =~= Seq::empty());
    lemma_empty_layer_contributes_nothing(names, names.len() as int, filters);
    assert(chain_stream(one.drop_last(), names, filters) =~= Seq::<(Key, Seq<char>)>::empty());
}

/// An ancestor that sets a key and a leaf that sets it again: the resolved
/// set holds the key once, with the value of the leaf.
pub proof fn lemma_leaf_overrides_ancestor(
    key: Key,
    old_text: Seq<char>,
    new_text: Seq<char>,
)
    ensures
        upsert_all(Seq::empty(), seq![(key, old_text), (key, new_text)]) == seq![(key, new_text)],
{
    let items = seq![(key, old_text), (key, new_text)];
    let one = seq![(key, old_text)];
    let none = Seq::<(Key, Seq<char>)>::empty();
    assert(items.drop_last() =~= one);
    assert(one.drop_last() =~= none);
    assert(upsert_all(none, none) == none);
    assert(upsert_all(none, one) == one);
}

} // verus!
