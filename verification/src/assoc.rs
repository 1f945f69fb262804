//! Lists of named values, read as finite maps.
//!
//! A list may name a key more than once; the last entry for a key is the one
//! that counts, as if the entries had been inserted into a map in order.

use vstd::prelude::*;

verus! {

/// The map that a list of pairs stands for: the pairs inserted in order.
pub open spec fn map_of<V>(pairs: Seq<(Seq<char>, V)>) -> Map<Seq<char>, V>
    decreases pairs.len(),
{
    if pairs.len() == 0 {
        Map::empty()
    } else {
        map_of(pairs.drop_last()).insert(pairs.last().0, pairs.last().1)
    }
}

/// The keys of a list of entries, in order.
pub open spec fn keys_of<V>(entries: Seq<(String, V)>) -> Seq<Seq<char>> {
    Seq::new(entries.len(), |i: int| entries[i].0@)
}

/// No entry from position `from` on has the key `key`.
pub open spec fn absent_from(keys: Seq<Seq<char>>, from: int, key: Seq<char>) -> bool {
    forall|j: int| from <= j < keys.len() ==> keys[j] != key
}

/// Appending a pair inserts it.
pub proof fn lemma_map_of_push<V>(pairs: Seq<(Seq<char>, V)>, key: Seq<char>, value: V)
    ensures
        map_of(pairs.push((key, value))) == map_of(pairs).insert(key, value),
{
    assert(pairs.push((key, value)).drop_last() =~= pairs);
}

/// The map of a list has finitely many keys.
pub proof fn lemma_map_of_finite<V>(pairs: Seq<(Seq<char>, V)>)
    ensures
        map_of(pairs).dom().finite(),
    decreases pairs.len(),
{
    if pairs.len() > 0 {
        lemma_map_of_finite(pairs.drop_last());
    }
}

/// A key is in the map exactly when some pair has it.
pub proof fn lemma_map_of_dom<V>(pairs: Seq<(Seq<char>, V)>, key: Seq<char>)
    ensures
        map_of(pairs).dom().contains(key) <==> exists|i: int|
            0 <= i < pairs.len() && (#[trigger] pairs[i]).0 == key,
    decreases pairs.len(),
{
    if pairs.len() > 0 {
        let init = pairs.drop_last();
        lemma_map_of_dom(init, key);
        if map_of(pairs).dom().contains(key) {
            if pairs.last().0 == key {
            } else {
                let i = choose|i: int| 0 <= i < init.len() && (#[trigger] init[i]).0 == key;
            }
        }
        if exists|i: int| 0 <= i < pairs.len() && (#[trigger] pairs[i]).0 == key {
            let i = choose|i: int| 0 <= i < pairs.len() && (#[trigger] pairs[i]).0 == key;
            if i < pairs.len() - 1 {
                assert(init[i].0 == key);
            }
        }
    }
}

/// The last pair with a key gives the key's value.
pub proof fn lemma_map_of_last<V>(pairs: Seq<(Seq<char>, V)>, i: int)
    requires
        0 <= i < pairs.len(),
        forall|j: int| i < j < pairs.len() ==> (#[trigger] pairs[j]).0 != pairs[i].0,
    ensures
        map_of(pairs).dom().contains(pairs[i].0),
        map_of(pairs)[pairs[i].0] == pairs[i].1,
    decreases pairs.len(),
{
    if i < pairs.len() - 1 {
        let init = pairs.drop_last();
        lemma_map_of_last(init, i);
    }
}

/// Replacing the value of the last pair with a key inserts the new value.
pub proof fn lemma_map_of_update<V>(pairs: Seq<(Seq<char>, V)>, i: int, value: V)
    requires
        0 <= i < pairs.len(),
        forall|j: int| i < j < pairs.len() ==> (#[trigger] pairs[j]).0 != pairs[i].0,
    ensures
        map_of(pairs.update(i, (pairs[i].0, value))) == map_of(pairs).insert(pairs[i].0, value),
    decreases pairs.len(),
{
    let key = pairs[i].0;
    let updated = pairs.update(i, (key, value));
    let init = pairs.drop_last();
    if i == pairs.len() - 1 {
        assert(updated.drop_last() =~= init);
    } else {
        lemma_map_of_update(init, i, value);
        assert(updated.drop_last() =~= init.update(i, (key, value)));
    }
}

/// Whether `keys` lists the keys of `pairs`, one by one.
pub open spec fn keyed_by<V>(pairs: Seq<(Seq<char>, V)>, keys: Seq<Seq<char>>) -> bool {
    keys.len() == pairs.len() && forall|j: int|
        0 <= j < pairs.len() ==> (#[trigger] pairs[j]).0 == keys[j]
}

/// Where the last entry named `key` stands at `i`, the map holds the key
/// with the value of that entry.
pub proof fn lemma_found<V>(
    pairs: Seq<(Seq<char>, V)>,
    keys: Seq<Seq<char>>,
    key: Seq<char>,
    i: int,
)
    requires
        keyed_by(pairs, keys),
        0 <= i < keys.len(),
        keys[i] == key,
        absent_from(keys, i + 1, key),
    ensures
        map_of(pairs).dom().contains(key),
        map_of(pairs)[key] == pairs[i].1,
{
    assert forall|j: int| i < j < pairs.len() implies (#[trigger] pairs[j]).0 != pairs[i].0 by {
        assert(keys[j] != key);
    }
    lemma_map_of_last(pairs, i);
}

/// Where the last entry named `key` stands at `i`, giving that entry a new
/// value sets the key in the map.
pub proof fn lemma_replaced<V>(
    pairs: Seq<(Seq<char>, V)>,
    keys: Seq<Seq<char>>,
    key: Seq<char>,
    i: int,
    value: V,
)
    requires
        keyed_by(pairs, keys),
        0 <= i < keys.len(),
        keys[i] == key,
        absent_from(keys, i + 1, key),
    ensures
        map_of(pairs.update(i, (key, value))) == map_of(pairs).insert(key, value),
{
    assert forall|j: int| i < j < pairs.len() implies (#[trigger] pairs[j]).0 != pairs[i].0 by {
        assert(keys[j] != key);
    }
    lemma_map_of_update(pairs, i, value);
}

/// Where no entry is named `key`, the map does not hold the key.
pub proof fn lemma_not_found<V>(pairs: Seq<(Seq<char>, V)>, keys: Seq<Seq<char>>, key: Seq<char>)
    requires
        keyed_by(pairs, keys),
        absent_from(keys, 0, key),
    ensures
        !map_of(pairs).dom().contains(key),
{
    lemma_map_of_dom(pairs, key);
    assert forall|j: int| 0 <= j < pairs.len() implies (#[trigger] pairs[j]).0 != key by {
        assert(keys[j] != key);
    }
}

/// The position of the last entry named `key`, if there is one.
pub fn find_last<V>(entries: &Vec<(String, V)>, key: &str) -> (found: Option<usize>)
    ensures
        match found {
            Some(i) => i < entries@.len() && entries@[i as int].0@ == key@ && absent_from(
                keys_of(entries@),
                i + 1,
                key@,
            ),
            None => absent_from(keys_of(entries@), 0, key@),
        },
{
    let wanted = key.to_owned();
    let mut i = entries.len();
    while i > 0
        invariant
            i <= entries@.len(),
            wanted@ == key@,
            absent_from(keys_of(entries@), i as int, key@),
        decreases i,
    {
        i = i - 1;
        if entries[i].0 == wanted {
            return Some(i);
        }
    }
    None
}

} // verus!
