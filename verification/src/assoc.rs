//! Association lists: keys kept in the order in which they first came, each
//! with the value that was last given for it, read as a map.

use vstd::prelude::*;

verus! {

/// The first place at which `key` stands in `keys`, or `keys.len()` where
/// it stands nowhere.
pub open spec fn position<K>(keys: Seq<K>, key: K) -> int
    decreases keys.len(),
{
    if keys.len() == 0 || keys[0] == key {
        0
    } else {
        1 + position(keys.drop_first(), key)
    }
}

/// Whether no key stands at two places.
pub open spec fn distinct<K>(keys: Seq<K>) -> bool {
    forall|i: int, j: int| 0 <= i < j < keys.len() ==> keys[i] != keys[j]
}

/// The map that sends each key to the value at the key's first place.
pub open spec fn to_map<K, V>(keys: Seq<K>, values: Seq<V>) -> Map<K, V> {
    Map::new(|k: K| position(keys, k) < keys.len(), |k: K| values[position(keys, k)])
}

/// [`position`] names the first place of the key and none before it.
pub proof fn lemma_position<K>(keys: Seq<K>, key: K)
    ensures
        0 <= position(keys, key) <= keys.len(),
        forall|j: int| 0 <= j < position(keys, key) ==> keys[j] != key,
        position(keys, key) < keys.len() ==> keys[position(keys, key)] == key,
    decreases keys.len(),
{
    if keys.len() == 0 || keys[0] == key {
    } else {
        let rest = keys.drop_first();
        lemma_position(rest, key);
        assert forall|j: int| 0 <= j < position(keys, key) implies keys[j] != key by {
            if j > 0 {
                assert(keys[j] == rest[j - 1]);
            }
        }
    }
}

/// Whatever place is the first to hold `key` is the one [`position`] names.
pub proof fn lemma_position_is<K>(keys: Seq<K>, key: K, i: int)
    requires
        0 <= i <= keys.len(),
        forall|j: int| 0 <= j < i ==> keys[j] != key,
        i < keys.len() ==> keys[i] == key,
    ensures
        position(keys, key) == i,
{
    lemma_position(keys, key);
    let k = position(keys, key);
    if k < i {
        assert(keys[k] != key);
    } else if k > i {
        assert(keys[i] != key);
    }
}

/// Adding a key that was not there adds one entry to the map.
pub proof fn lemma_to_map_push<K, V>(keys: Seq<K>, values: Seq<V>, key: K, value: V)
    requires
        keys.len() == values.len(),
        position(keys, key) == keys.len(),
    ensures
        to_map(keys.push(key), values.push(value)) == to_map(keys, values).insert(key, value),
{
    let keys2 = keys.push(key);
    let values2 = values.push(value);
    let before = to_map(keys, values);
    let after = to_map(keys2, values2);
    assert forall|k: K| #[trigger] after.dom().contains(k) == before.insert(key, value).dom().contains(k)
        && (after.dom().contains(k) ==> after[k] == before.insert(key, value)[k]) by {
        lemma_position(keys, k);
        let p = position(keys, k);
        if p < keys.len() {
            lemma_position_is(keys2, k, p);
        } else if k == key {
            lemma_position_is(keys2, k, keys.len() as int);
        } else {
            lemma_position_is(keys2, k, keys2.len() as int);
        }
    }
    assert(after =~= before.insert(key, value));
}

/// Giving a key that was there a new value changes that entry of the map
/// and no other.
pub proof fn lemma_to_map_update<K, V>(keys: Seq<K>, values: Seq<V>, key: K, value: V)
    requires
        keys.len() == values.len(),
        position(keys, key) < keys.len(),
    ensures
        to_map(keys, values.update(position(keys, key), value)) == to_map(keys, values).insert(
            key,
            value,
        ),
{
    lemma_position(keys, key);
    let i = position(keys, key);
    let values2 = values.update(i, value);
    assert forall|k: K| position(keys, k) < keys.len() implies (#[trigger] to_map(keys, values2)[k])
        == (if k == key {
        value
    } else {
        to_map(keys, values)[k]
    }) by {
        lemma_position(keys, k);
    }
    assert(to_map(keys, values2) =~= to_map(keys, values).insert(key, value));
}

} // verus!
