//! Lists of entries with distinct keys, read as maps: what the overlay, the
//! input bindings and the file cache have in common.

use vstd::prelude::*;

verus! {

/// No key occurs twice.
pub open spec fn distinct<K>(keys: Seq<K>) -> bool {
    forall|i: int, j: int| 0 <= i < j < keys.len() ==> keys[i] != keys[j]
}

/// Whether `keys[i]` is `key`.
pub open spec fn key_at<K>(keys: Seq<K>, key: K, i: int) -> bool {
    0 <= i < keys.len() && keys[i] == key
}

/// The value that stands where the key stands, if the key occurs.
pub open spec fn value_for<K, V>(keys: Seq<K>, values: Seq<V>, key: K) -> Option<V> {
    if exists|i: int| key_at(keys, key, i) {
        Some(values[choose|i: int| key_at(keys, key, i)])
    } else {
        None
    }
}

/// The keys and the values that stand where they stand, as a map.
pub open spec fn as_map<K, V>(keys: Seq<K>, values: Seq<V>) -> Map<K, V> {
    Map::new(
        |key: K| value_for(keys, values, key) is Some,
        |key: K| value_for(keys, values, key)->0,
    )
}

/// Among distinct keys, the value for `keys[i]` is `values[i]`.
pub proof fn lemma_value_at<K, V>(keys: Seq<K>, values: Seq<V>, i: int)
    requires
        distinct(keys),
        0 <= i < keys.len(),
    ensures
        value_for(keys, values, keys[i]) == Some(values[i]),
        as_map(keys, values).contains_key(keys[i]),
        as_map(keys, values)[keys[i]] == values[i],
{
    assert(key_at(keys, keys[i], i));
    let k = choose|k: int| key_at(keys, keys[i], k);
    assert(k == i);
}

/// A key that stands nowhere has no value.
pub proof fn lemma_absent<K, V>(keys: Seq<K>, values: Seq<V>, key: K)
    requires
        forall|i: int| !key_at(keys, key, i),
    ensures
        value_for(keys, values, key) is None,
        !as_map(keys, values).contains_key(key),
{
}

/// No keys make the empty map.
pub proof fn lemma_empty<K, V>(keys: Seq<K>, values: Seq<V>)
    requires
        keys.len() == 0,
    ensures
        as_map(keys, values) == Map::<K, V>::empty(),
{
    assert(as_map(keys, values) =~= Map::<K, V>::empty());
}

/// Values that differ from earlier ones only where `key` stands, under
/// keys that differ from the earlier ones at most by `key` at the end,
/// are the same for every other key.
proof fn lemma_others_keep<K, V>(
    keys: Seq<K>,
    values: Seq<V>,
    later_keys: Seq<K>,
    later_values: Seq<V>,
    key: K,
    other: K,
)
    requires
        distinct(keys),
        distinct(later_keys),
        other != key,
        keys.len() <= later_keys.len() <= keys.len() + 1,
        forall|k: int| 0 <= k < keys.len() ==> later_keys[k] == keys[k],
        forall|k: int| 0 <= k < keys.len() && keys[k] != key ==> later_values[k] == values[k],
        later_keys.len() > keys.len() ==> later_keys[keys.len() as int] == key,
    ensures
        value_for(later_keys, later_values, other) == value_for(keys, values, other),
{
    if exists|k: int| key_at(keys, other, k) {
        let k = choose|k: int| key_at(keys, other, k);
        lemma_value_at(keys, values, k);
        assert(key_at(later_keys, other, k));
        lemma_value_at(later_keys, later_values, k);
    } else {
        assert forall|k: int| !key_at(later_keys, other, k) by {
            if key_at(later_keys, other, k) {
                assert(key_at(keys, other, k));
            }
        }
    }
}

/// A new value where a key stands is an insertion for that key.
pub proof fn lemma_update<K, V>(keys: Seq<K>, values: Seq<V>, i: int, value: V)
    requires
        distinct(keys),
        keys.len() == values.len(),
        0 <= i < keys.len(),
    ensures
        as_map(keys, values.update(i, value)) == as_map(keys, values).insert(keys[i], value),
{
    let later = values.update(i, value);
    lemma_value_at(keys, later, i);
    assert forall|other: K| other != keys[i] implies #[trigger] value_for(keys, later, other)
        == value_for(keys, values, other) by {
        lemma_others_keep(keys, values, keys, later, keys[i], other);
    }
    assert(as_map(keys, later) =~= as_map(keys, values).insert(keys[i], value));
}

/// A key that stood nowhere, put at the end with a value, keeps the keys
/// distinct and is an insertion for that key.
pub proof fn lemma_push<K, V>(keys: Seq<K>, values: Seq<V>, key: K, value: V)
    requires
        distinct(keys),
        keys.len() == values.len(),
        forall|i: int| !key_at(keys, key, i),
    ensures
        distinct(keys.push(key)),
        as_map(keys.push(key), values.push(value)) == as_map(keys, values).insert(key, value),
{
    let later_keys = keys.push(key);
    let later_values = values.push(value);
    assert forall|i: int, j: int| 0 <= i < j < later_keys.len() implies later_keys[i]
        != later_keys[j] by {
        if j == keys.len() {
            assert(!key_at(keys, key, i));
        }
    }
    lemma_value_at(later_keys, later_values, keys.len() as int);
    assert forall|other: K| other != key implies #[trigger] value_for(
        later_keys,
        later_values,
        other,
    ) == value_for(keys, values, other) by {
        lemma_others_keep(keys, values, later_keys, later_values, key, other);
    }
    assert(as_map(later_keys, later_values) =~= as_map(keys, values).insert(key, value));
}

/// A key taken out with its value keeps the keys distinct and is a removal
/// of that key.
pub proof fn lemma_remove<K, V>(keys: Seq<K>, values: Seq<V>, i: int)
    requires
        distinct(keys),
        keys.len() == values.len(),
        0 <= i < keys.len(),
    ensures
        distinct(keys.remove(i)),
        as_map(keys.remove(i), values.remove(i)) == as_map(keys, values).remove(keys[i]),
{
    let key = keys[i];
    let later_keys = keys.remove(i);
    let later_values = values.remove(i);
    assert(forall|k: int| !key_at(later_keys, key, k));
    assert forall|other: K| other != key implies #[trigger] value_for(
        later_keys,
        later_values,
        other,
    ) == value_for(keys, values, other) by {
        if exists|k: int| key_at(keys, other, k) {
            let k = choose|k: int| key_at(keys, other, k);
            lemma_value_at(keys, values, k);
            let moved = if k < i {
                k
            } else {
                k - 1
            };
            assert(later_keys[moved] == keys[k]);
            lemma_value_at(later_keys, later_values, moved);
        } else {
            assert forall|k: int| !key_at(later_keys, other, k) by {
                if key_at(later_keys, other, k) {
                    let origin = if k < i {
                        k
                    } else {
                        k + 1
                    };
                    assert(key_at(keys, other, origin));
                }
            }
        }
    }
    assert(as_map(later_keys, later_values) =~= as_map(keys, values).remove(key));
}

/// Values changed one by one are the values of the map changed one by one.
pub proof fn lemma_map_values<K, V, W>(keys: Seq<K>, values: Seq<V>, f: spec_fn(V) -> W)
    requires
        distinct(keys),
        keys.len() == values.len(),
    ensures
        as_map(keys, values.map_values(f)) == as_map(keys, values).map_values(f),
{
    let later = values.map_values(f);
    assert forall|key: K| #[trigger]
        value_for(keys, later, key) == (match value_for(keys, values, key) {
            Some(value) => Some(f(value)),
            None => None,
        }) by {
        if exists|k: int| key_at(keys, key, k) {
            let k = choose|k: int| key_at(keys, key, k);
            lemma_value_at(keys, values, k);
            lemma_value_at(keys, later, k);
        }
    }
    assert(as_map(keys, later) =~= as_map(keys, values).map_values(f));
}

/// The index of the first entry of which `is_it` says yes.
pub fn position<E, F>(entries: &Vec<E>, is_it: F) -> (at: Option<usize>) where F: Fn(&E) -> bool
    requires
        forall|entry: E| call_requires(is_it, (&entry,)),
    ensures
        match at {
            Some(i) => i < entries@.len() && call_ensures(is_it, (&entries@[i as int],), true),
            None => forall|i: int|
                0 <= i < entries@.len() ==> call_ensures(is_it, (&#[trigger] entries@[i],), false),
        },
{
    let mut i: usize = 0;
    while i < entries.len()
        invariant
            i <= entries.len(),
            forall|entry: E| call_requires(is_it, (&entry,)),
            forall|k: int| 0 <= k < i ==> call_ensures(is_it, (&#[trigger] entries@[k],), false),
        decreases entries.len() - i,
    {
        if is_it(&entries[i]) {
            return Some(i);
        }
        i += 1;
    }
    None
}

} // verus!
