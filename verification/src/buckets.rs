//! Maps that file items in lists under a 128-bit key, and what they hold.

use crate::filters::{lemma_filter_empty, lemma_filter_keeps_all, lemma_filter_len_split};
use std::collections::HashMap;
use vstd::prelude::*;
use vstd::std_specs::iter::IteratorSpec;

verus! {

broadcast use vstd::std_specs::hash::group_hash_axioms;

/// Holds of the items whose key is `k`.
pub open spec fn keyed<T>(key: spec_fn(T) -> u128, k: u128) -> spec_fn(T) -> bool {
    |item: T| key(item) == k
}

/// The items, in order, whose key is `k`.
pub open spec fn filed_under<T>(items: Seq<T>, key: spec_fn(T) -> u128, k: u128) -> Seq<T> {
    items.filter(keyed(key, k))
}

/// What a map holds under `k`, or nothing.
pub open spec fn stored<T>(map: Map<u128, Vec<T>>, k: u128) -> Seq<T> {
    if map.contains_key(k) {
        map[k]@
    } else {
        Seq::empty()
    }
}

/// A map files each of `items` under its key, in order, and holds no empty list.
pub open spec fn files_match<T>(map: Map<u128, Vec<T>>, items: Seq<T>, key: spec_fn(T) -> u128) -> bool {
    &&& forall|k: u128|
        #![trigger stored(map, k)]
        #![trigger filed_under(items, key, k)]
        stored(map, k) == filed_under(items, key, k)
    &&& forall|k: u128| #[trigger] map.contains_key(k) ==> map[k]@.len() > 0
}

/// An empty map files an empty sequence.
pub proof fn lemma_empty_files_match<T>(map: Map<u128, Vec<T>>, key: spec_fn(T) -> u128)
    requires
        map == Map::<u128, Vec<T>>::empty(),
    ensures
        files_match(map, Seq::empty(), key),
{
    assert forall|k: u128| #![trigger stored(map, k)] stored(map, k) == filed_under(Seq::<T>::empty(), key, k) by {
        lemma_filter_empty(Seq::<T>::empty(), keyed(key, k));
    }
}

/// An item is filed under its key, so that key is in the map.
pub proof fn lemma_filed<T>(map: Map<u128, Vec<T>>, items: Seq<T>, key: spec_fn(T) -> u128, i: int)
    requires
        files_match(map, items, key),
        0 <= i < items.len(),
    ensures
        map.contains_key(key(items[i])),
        stored(map, key(items[i])).contains(items[i]),
{
    items.lemma_filter_contains(keyed(key, key(items[i])), i);
    assert(stored(map, key(items[i])) == filed_under(items, key, key(items[i])));
}

/// The keys of a map, each once.
pub fn key_list<V>(map: &HashMap<u128, V>) -> (keys: Vec<u128>)
    ensures
        keys@.to_set() == map@.dom(),
        keys@.no_duplicates(),
{
    let mut keys: Vec<u128> = Vec::new();
    let ghost all = vstd::std_specs::hash::spec_keys_iter(map).remaining();
    for k in it: map.keys()
        invariant
            keys@ == it.seq().take(it.index()).unref(),
            it.seq() == all,
    {
        keys.push(*k);
    }
    assert(keys@ == all.unref()) by {
        assert(all.take(all.len() as int) =~= all);
    }
    keys
}

/// Files `item` at the end of the list under `k`, its key.
pub fn file_item<T>(
    map: &mut HashMap<u128, Vec<T>>,
    k: u128,
    item: T,
    Ghost(items): Ghost<Seq<T>>,
    Ghost(key): Ghost<spec_fn(T) -> u128>,
)
    requires
        files_match(old(map)@, items, key),
        k == key(item),
    ensures
        files_match(final(map)@, items.push(item), key),
{
    let ghost before = map@;
    let ghost filed = item;
    let bucket = match map.remove(&k) {
        Some(existing) => {
            let mut existing = existing;
            existing.push(item);
            existing
        },
        None => {
            let mut fresh = Vec::new();
            fresh.push(item);
            fresh
        },
    };
    map.insert(k, bucket);
    proof {
        assert forall|j: u128| #![trigger stored(map@, j)] stored(map@, j) == filed_under(items.push(filed), key, j) by {
            items.lemma_filter_push(filed, keyed(key, j));
            assert(stored(before, j) == filed_under(items, key, j));
            if j == k {
                assert(stored(map@, j) =~= stored(before, j).push(filed));
            }
        }
    }
}

/// Holds of the items whose key is one of `keys`.
spec fn key_among<T>(keys: Seq<u128>, key: spec_fn(T) -> u128) -> spec_fn(T) -> bool {
    |item: T| keys.contains(key(item))
}

/// The number of items that a map files, summed over its lists.
pub fn total_len<T>(
    map: &HashMap<u128, Vec<T>>,
    Ghost(items): Ghost<Seq<T>>,
    Ghost(key): Ghost<spec_fn(T) -> u128>,
) -> (count: usize)
    requires
        files_match(map@, items, key),
        items.len() <= usize::MAX,
    ensures
        count == items.len(),
{
    let keys = key_list(map);
    let mut count: usize = 0;
    let mut i: usize = 0;
    proof {
        lemma_filter_empty(items, key_among(keys@.take(0), key));
    }
    while i < keys.len()
        invariant
            0 <= i <= keys@.len(),
            keys@.to_set() == map@.dom(),
            keys@.no_duplicates(),
            files_match(map@, items, key),
            items.len() <= usize::MAX,
            count == items.filter(key_among(keys@.take(i as int), key)).len(),
        decreases keys@.len() - i,
    {
        let k = keys[i];
        proof {
            assert(keys@.to_set().contains(k));
        }
        let bucket_len = match map.get(&k) {
            Some(bucket) => bucket.len(),
            None => 0,
        };
        proof {
            assert(stored(map@, k) == filed_under(items, key, k));
            let seen = keys@.take(i as int);
            let next = keys@.take(i + 1);
            assert(next =~= seen.push(k));
            assert forall|x: T| #[trigger] (key_among(next, key))(x) == ((key_among(seen, key))(x) || (keyed(key, k))(x)) by {
                if next.contains(key(x)) {
                    let j = choose|j: int| 0 <= j < next.len() && next[j] == key(x);
                    if j < seen.len() {
                        assert(seen[j] == next[j]);
                    }
                }
                if seen.contains(key(x)) {
                    let j = choose|j: int| 0 <= j < seen.len() && seen[j] == key(x);
                    assert(next[j] == seen[j]);
                }
                if key(x) == k {
                    assert(next[seen.len() as int] == k);
                }
            }
            assert forall|x: T| !(#[trigger] (key_among(seen, key))(x) && (keyed(key, k))(x)) by {
                if (key_among(seen, key))(x) && key(x) == k {
                    let j = choose|j: int| 0 <= j < seen.len() && seen[j] == k;
                    assert(keys@[j] == keys@[i as int]);
                }
            }
            lemma_filter_len_split(items, key_among(seen, key), keyed(key, k), key_among(next, key));
            items.lemma_filter_len(key_among(next, key));
        }
        count = count + bucket_len;
        i += 1;
    }
    proof {
        assert(keys@.take(keys@.len() as int) =~= keys@);
        assert forall|i: int| 0 <= i < items.len() implies (key_among(keys@, key))(#[trigger] items[i]) by {
            lemma_filed(map@, items, key, i);
            assert(keys@.to_set().contains(key(items[i])));
        }
        lemma_filter_keeps_all(items, key_among(keys@, key));
    }
    count
}

} // verus!
