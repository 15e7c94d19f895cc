//! Finding the first row with a given key.

use vstd::prelude::*;

verus! {

/// Index of the first of `keys[from..]` that equals `key`.
pub open spec fn first_index<K>(keys: Seq<K>, key: K, from: int) -> Option<int>
    decreases keys.len() - from,
{
    if from < 0 || from >= keys.len() {
        None
    } else if keys[from] == key {
        Some(from)
    } else {
        first_index(keys, key, from + 1)
    }
}

/// Index of the first of `keys` that equals `key`.
pub open spec fn first_of<K>(keys: Seq<K>, key: K) -> Option<int> {
    first_index(keys, key, 0)
}

/// What `first_index` finds is the first match at or after `from`; where it
/// finds nothing there is none.
pub proof fn lemma_first_index<K>(keys: Seq<K>, key: K, from: int)
    requires
        0 <= from,
    ensures
        match first_index(keys, key, from) {
            Some(i) => from <= i < keys.len() && keys[i] == key && forall|k: int|
                from <= k < i ==> keys[k] != key,
            None => forall|k: int| from <= k < keys.len() ==> keys[k] != key,
        },
    decreases keys.len() - from,
{
    if from < keys.len() && keys[from] != key {
        lemma_first_index(keys, key, from + 1);
    }
}

/// Appending a key changes a lookup only where nothing was found before and
/// the new key is the one looked for.
pub proof fn lemma_first_index_push<K>(keys: Seq<K>, key: K, extra: K, from: int)
    requires
        0 <= from,
    ensures
        first_index(keys.push(extra), key, from) == match first_index(keys, key, from) {
            Some(i) => Some(i),
            None => if extra == key && from <= keys.len() {
                Some(keys.len() as int)
            } else {
                None
            },
        },
    decreases keys.len() - from,
{
    let longer = keys.push(extra);
    if from < keys.len() {
        if keys[from] != key {
            lemma_first_index_push(keys, key, extra, from + 1);
        }
    } else if from == keys.len() {
        assert(first_index(longer, key, from + 1).is_none());
    }
}

} // verus!
