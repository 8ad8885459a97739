//! Looking a key up in a column.
use vstd::prelude::*;

verus! {

/// The index of the first entry of `keys`, at or after `start`, that equals
/// `key`.
pub open spec fn position_from(keys: Seq<u128>, key: u128, start: int) -> Option<int>
    decreases keys.len() - start,
{
    if start < 0 || start >= keys.len() {
        None
    } else if keys[start] == key {
        Some(start)
    } else {
        position_from(keys, key, start + 1)
    }
}

/// The index of the first entry of `keys` that equals `key`.
pub open spec fn position(keys: Seq<u128>, key: u128) -> Option<int> {
    position_from(keys, key, 0)
}

/// `position_from` finds the first match and misses none.
pub proof fn lemma_position_from(keys: Seq<u128>, key: u128, start: int)
    requires
        0 <= start,
    ensures
        match position_from(keys, key, start) {
            Some(i) => {
                &&& start <= i < keys.len()
                &&& keys[i] == key
                &&& forall|j: int| start <= j < i ==> keys[j] != key
            },
            None => forall|j: int| start <= j < keys.len() ==> keys[j] != key,
        },
    decreases keys.len() - start,
{
    if start < keys.len() && keys[start] != key {
        lemma_position_from(keys, key, start + 1);
    }
}

/// `position` finds the first match and misses none.
pub proof fn lemma_position(keys: Seq<u128>, key: u128)
    ensures
        match position(keys, key) {
            Some(i) => {
                &&& 0 <= i < keys.len()
                &&& keys[i] == key
                &&& forall|j: int| 0 <= j < i ==> keys[j] != key
            },
            None => forall|j: int| 0 <= j < keys.len() ==> keys[j] != key,
        },
{
    lemma_position_from(keys, key, 0);
}

/// In a column without duplicates, an entry is found where it stands.
pub proof fn lemma_position_of_entry(keys: Seq<u128>, i: int)
    requires
        keys.no_duplicates(),
        0 <= i < keys.len(),
    ensures
        position(keys, keys[i]) == Some(i),
{
    lemma_position(keys, keys[i]);
}

/// A key that a column lacks is found at the end once it is added, and
/// every other key is found where it was.
pub proof fn lemma_position_push(keys: Seq<u128>, added: u128, key: u128)
    ensures
        position(keys, key) is Some ==> position(keys.push(added), key) == position(keys, key),
        position(keys, key) is None && key == added ==> position(keys.push(added), key) == Some(
            keys.len() as int,
        ),
        position(keys, key) is None && key != added ==> position(keys.push(added), key) is None,
{
    lemma_position(keys, key);
    lemma_position(keys.push(added), key);
    let longer = keys.push(added);
    if let Some(i) = position(keys, key) {
        assert(longer[i] == key);
    } else {
        assert(longer[keys.len() as int] == added);
        assert forall|j: int| 0 <= j < keys.len() implies longer[j] != key by {
            assert(longer[j] == keys[j]);
        }
    }
}

/// Once an entry is removed from a column without duplicates, its key is
/// gone, and every other key is found as before, the keys behind the gap
/// one place earlier.
pub proof fn lemma_position_remove(keys: Seq<u128>, removed: int, key: u128)
    requires
        keys.no_duplicates(),
        0 <= removed < keys.len(),
    ensures
        keys.remove(removed).no_duplicates(),
        key == keys[removed] ==> position(keys.remove(removed), key) is None,
        key != keys[removed] ==> position(keys.remove(removed), key) == match position(keys, key) {
            Some(i) => Some(
                if i < removed {
                    i
                } else {
                    i - 1
                },
            ),
            None => None::<int>,
        },
{
    let rest = keys.remove(removed);
    lemma_position(keys, key);
    lemma_position(rest, key);
    assert forall|j: int| 0 <= j < rest.len() implies rest[j] == keys[if j < removed {
        j
    } else {
        j + 1
    }] by {}
    if key != keys[removed] {
        if let Some(i) = position(keys, key) {
            let i2 = if i < removed {
                i
            } else {
                i - 1
            };
            assert(rest[i2] == key);
        }
    }
}

} // verus!
