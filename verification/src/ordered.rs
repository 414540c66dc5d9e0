//! Ordered mappings from keys to values, as sequences of pairs.
//!
//! A mapping keeps its keys in the order in which they first came in. To
//! set a key that is already there replaces its value and leaves its place
//! alone; to set a new key appends it.

use vstd::prelude::*;

verus! {

/// A key of a mapping: the characters of its name.
pub type Key = Seq<char>;

/// Position of the first pair with the key, if there is one.
pub open spec fn position<V>(pairs: Seq<(Key, V)>, key: Key) -> Option<int>
    decreases pairs.len(),
{
    if pairs.len() == 0 {
        None
    } else {
        match position(pairs.drop_last(), key) {
            Some(i) => Some(i),
            None => if pairs.last().0 == key {
                Some(pairs.len() - 1)
            } else {
                None
            },
        }
    }
}

/// Position of the last pair with the key, if there is one.
pub open spec fn last_position<V>(pairs: Seq<(Key, V)>, key: Key) -> Option<int>
    decreases pairs.len(),
{
    if pairs.len() == 0 {
        None
    } else if pairs.last().0 == key {
        Some(pairs.len() - 1)
    } else {
        last_position(pairs.drop_last(), key)
    }
}

/// Whether some pair has the key.
pub open spec fn has_key<V>(pairs: Seq<(Key, V)>, key: Key) -> bool {
    exists|i: int| 0 <= i < pairs.len() && (#[trigger] pairs[i]).0 == key
}

/// No key stands twice.
pub open spec fn distinct_keys<V>(pairs: Seq<(Key, V)>) -> bool {
    forall|i: int, j: int|
        0 <= i < pairs.len() && 0 <= j < pairs.len() && i != j ==> (#[trigger] pairs[i]).0 != (
        #[trigger] pairs[j]).0
}

/// The value under the key: that of the first pair with it.
pub open spec fn value_of<V>(pairs: Seq<(Key, V)>, key: Key) -> Option<V> {
    match position(pairs, key) {
        Some(i) => Some(pairs[i].1),
        None => None,
    }
}

/// Sets `key` to `value`: in place where the key is there, at the end
/// where it is new.
pub open spec fn upsert<V>(pairs: Seq<(Key, V)>, key: Key, value: V) -> Seq<(Key, V)> {
    match position(pairs, key) {
        Some(i) => pairs.update(i, (key, value)),
        None => pairs.push((key, value)),
    }
}

/// Sets each pair of `items` in turn, starting from `acc`.
pub open spec fn upsert_all<V>(acc: Seq<(Key, V)>, items: Seq<(Key, V)>) -> Seq<(Key, V)>
    decreases items.len(),
{
    if items.len() == 0 {
        acc
    } else {
        upsert(upsert_all(acc, items.drop_last()), items.last().0, items.last().1)
    }
}

/// `position` gives the first pair with the key, and nothing only where no
/// pair has it.
pub proof fn lemma_position<V>(pairs: Seq<(Key, V)>, key: Key)
    ensures
        match position(pairs, key) {
            Some(i) => 0 <= i < pairs.len() && pairs[i].0 == key && forall|j: int|
                0 <= j < i ==> (#[trigger] pairs[j]).0 != key,
            None => forall|j: int| 0 <= j < pairs.len() ==> (#[trigger] pairs[j]).0 != key,
        },
        position(pairs, key) is Some <==> has_key(pairs, key),
    decreases pairs.len(),
{
    if pairs.len() > 0 {
        let front = pairs.drop_last();
        lemma_position(front, key);
        assert forall|j: int| 0 <= j < front.len() implies front[j] == pairs[j] by {}
        if position(front, key) is None {
            assert forall|j: int| 0 <= j < pairs.len() - 1 implies (#[trigger] pairs[j]).0
                != key by {}
        }
    }
}

/// `last_position` gives the last pair with the key, and nothing only where
/// no pair has it.
pub proof fn lemma_last_position<V>(pairs: Seq<(Key, V)>, key: Key)
    ensures
        match last_position(pairs, key) {
            Some(i) => 0 <= i < pairs.len() && pairs[i].0 == key && forall|j: int|
                i < j < pairs.len() ==> (#[trigger] pairs[j]).0 != key,
            None => forall|j: int| 0 <= j < pairs.len() ==> (#[trigger] pairs[j]).0 != key,
        },
        last_position(pairs, key) is Some <==> has_key(pairs, key),
    decreases pairs.len(),
{
    if pairs.len() > 0 {
        let front = pairs.drop_last();
        lemma_last_position(front, key);
        assert forall|j: int| 0 <= j < front.len() implies front[j] == pairs[j] by {}
        if pairs.last().0 != key {
            match last_position(front, key) {
                Some(i) => {
                    assert forall|j: int| i < j < pairs.len() implies (#[trigger] pairs[j]).0
                        != key by {}
                },
                None => {
                    assert forall|j: int| 0 <= j < pairs.len() implies (#[trigger] pairs[j]).0
                        != key by {}
                },
            }
        }
    }
}

/// What `upsert` does to the keys and their places: the key that is set
/// has the value given, at its old place or at the end; every other key
/// keeps its place and its value; no key is lost and no other comes in.
pub proof fn lemma_upsert<V>(pairs: Seq<(Key, V)>, key: Key, value: V)
    ensures
        value_of(upsert(pairs, key, value), key) == Some(value),
        position(upsert(pairs, key, value), key) == Some(
            match position(pairs, key) {
                Some(i) => i,
                None => pairs.len() as int,
            },
        ),
        forall|other: Key|
            other != key ==> position(upsert(pairs, key, value), other) == position(pairs, other),
        forall|other: Key|
            other != key ==> value_of(upsert(pairs, key, value), other) == value_of(pairs, other),
        forall|other: Key|
            has_key(upsert(pairs, key, value), other) <==> (other == key || has_key(pairs, other)),
        distinct_keys(pairs) ==> distinct_keys(upsert(pairs, key, value)),
        upsert(pairs, key, value).len() == pairs.len() + (if has_key(pairs, key) {
            0int
        } else {
            1int
        }),
{
    let out = upsert(pairs, key, value);
    lemma_position(pairs, key);
    lemma_position(out, key);
    match position(pairs, key) {
        Some(i) => {
            assert(out[i].0 == key);
            assert forall|j: int| 0 <= j < i implies (#[trigger] out[j]).0 != key by {}
        },
        None => {
            assert forall|j: int| 0 <= j < pairs.len() implies (#[trigger] out[j]).0 != key by {}
        },
    }
    assert forall|other: Key| other != key implies position(out, other) == position(pairs, other)
        && value_of(out, other) == value_of(pairs, other) by {
        lemma_position(pairs, other);
        lemma_position(out, other);
        if let Some(i) = position(pairs, other) {
            assert(out[i].0 == other);
            assert forall|j: int| 0 <= j < i implies (#[trigger] out[j]).0 != other by {}
        }
    }
    assert forall|other: Key| has_key(out, other) <==> (other == key || has_key(pairs, other)) by {
        lemma_position(pairs, other);
    }
    if distinct_keys(pairs) {
        assert forall|i: int, j: int|
            0 <= i < out.len() && 0 <= j < out.len() && i != j implies (#[trigger] out[i]).0 != (
        #[trigger] out[j]).0 by {}
    }
}

/// Setting a list of pairs in two runs is setting them in one.
pub proof fn lemma_upsert_all_concat<V>(
    acc: Seq<(Key, V)>,
    first: Seq<(Key, V)>,
    second: Seq<(Key, V)>,
)
    ensures
        upsert_all(acc, first + second) == upsert_all(upsert_all(acc, first), second),
    decreases second.len(),
{
    if second.len() > 0 {
        assert((first + second).drop_last() =~= first + second.drop_last());
        lemma_upsert_all_concat(acc, first, second.drop_last());
    }
}

/// Setting one more pair after a list is `upsert` on what the list gave.
pub proof fn lemma_upsert_all_push<V>(acc: Seq<(Key, V)>, items: Seq<(Key, V)>, key: Key, value: V)
    ensures
        upsert_all(acc, items.push((key, value))) == upsert(upsert_all(acc, items), key, value),
{
    assert(items.push((key, value)).drop_last() =~= items);
}

/// A mapping built from nothing by setting the pairs of `items` in turn
/// holds each key of `items` once and no other; each key has the value of
/// its last pair in `items`, and stands where its first pair in `items`
/// puts it among the keys.
pub proof fn lemma_upsert_all<V>(items: Seq<(Key, V)>)
    ensures
        distinct_keys(upsert_all(Seq::<(Key, V)>::empty(), items)),
        upsert_all(Seq::<(Key, V)>::empty(), items).len() <= items.len(),
        forall|key: Key|
            has_key(upsert_all(Seq::<(Key, V)>::empty(), items), key) <==> has_key(items, key),
        forall|key: Key|
            has_key(items, key) ==> value_of(upsert_all(Seq::<(Key, V)>::empty(), items), key)
                == Some(items[last_position(items, key).unwrap()].1),
        forall|a: Key, b: Key|
            has_key(items, a) && has_key(items, b) ==> (position(
                upsert_all(Seq::<(Key, V)>::empty(), items),
                a,
            ).unwrap() < position(upsert_all(Seq::<(Key, V)>::empty(), items), b).unwrap()
                <==> position(items, a).unwrap() < position(items, b).unwrap()),
    decreases items.len(),
{
    let empty = Seq::<(Key, V)>::empty();
    let out = upsert_all(empty, items);
    if items.len() > 0 {
        let front = items.drop_last();
        let x = items.last();
        let before = upsert_all(empty, front);
        lemma_upsert_all(front);
        lemma_upsert(before, x.0, x.1);
        assert forall|key: Key| has_key(out, key) <==> has_key(items, key) by {
            lemma_position(items, key);
            lemma_position(front, key);
        }
        assert forall|key: Key| has_key(items, key) implies value_of(out, key) == Some(
            items[last_position(items, key).unwrap()].1,
        ) by {
            lemma_last_position(front, key);
        }
        assert forall|a: Key, b: Key| has_key(items, a) && has_key(items, b) implies (position(
            out,
            a,
        ).unwrap() < position(out, b).unwrap() <==> position(items, a).unwrap() < position(
            items,
            b,
        ).unwrap()) by {
            lemma_position(front, a);
            lemma_position(front, b);
            lemma_position(before, a);
            lemma_position(before, b);
        }
    }
}

} // verus!
