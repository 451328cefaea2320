//! The trusted boundary around `lru::LruCache`, the bounded
//! least-recently-used map that backs the strategy cache.
//!
//! Verus sees the cache's contents through `lru_entries`: the key/value pairs
//! ordered from least-recently used (index 0) to most-recently used (last
//! index), and the capacity through `lru_capacity`. Each wrapper's contract
//! states, over those two names, what the crate's source shows of the call.

use std::collections::hash_map::RandomState;

use vstd::prelude::*;

use crate::cache::has_key;
use crate::cache::key_index;
use crate::cache::unique_keys;

verus! {

#[verifier::external_type_specification]
#[verifier::external_body]
#[verifier::reject_recursive_types(K)]
#[verifier::reject_recursive_types(V)]
#[verifier::reject_recursive_types(S)]
pub struct ExLruCache<K, V, S>(lru::LruCache<K, V, S>);

/// The cache's contents: key/value pairs ordered from least-recently used
/// (index 0) to most-recently used (last index).
pub uninterp spec fn lru_entries(c: lru::LruCache<String, u8, RandomState>) -> Seq<(Seq<char>, u8)>;

/// The capacity the cache was created with.
pub uninterp spec fn lru_capacity(c: lru::LruCache<String, u8, RandomState>) -> nat;

/// Relies on lru::LruCache::with_hasher: an empty cache that holds at most
/// `cap` entries. The capacity is passed through NonZeroUsize, so zero is
/// ruled out here.
#[verifier::external_body]
pub(crate) fn lru_new(cap: usize) -> (c: lru::LruCache<String, u8, RandomState>)
    requires
        1 <= cap,
    ensures
        lru_entries(c) == Seq::<(Seq<char>, u8)>::empty(),
        lru_capacity(c) == cap as nat,
{
    lru::LruCache::with_hasher(std::num::NonZeroUsize::new(cap).unwrap(), RandomState::new())
}

/// Relies on lru::LruCache::get: returns the value stored under the key and
/// moves that entry to the most-recently-used end; a miss changes nothing.
/// The backing map keys entries uniquely.
#[verifier::external_body]
pub(crate) fn lru_get(c: &mut lru::LruCache<String, u8, RandomState>, k: &String) -> (r: Option<u8>)
    ensures
        lru_capacity(*final(c)) == lru_capacity(*old(c)),
        lru_entries(*final(c)).len() == lru_entries(*old(c)).len(),
        unique_keys(lru_entries(*final(c))),
        ({
            let es = lru_entries(*old(c));
            if has_key(es, k@) {
                r == Some(es[key_index(es, k@)].1) && lru_entries(*final(c)) == es.remove(
                    key_index(es, k@),
                ).push(es[key_index(es, k@)])
            } else {
                r == None::<u8> && lru_entries(*final(c)) == es
            }
        }),
{
    c.get(k).copied()
}

/// Relies on lru::LruCache::put: inserts or updates the entry and moves it
/// to the most-recently-used end; a new key arriving with the cache full
/// first evicts the least-recently-used entry. Returns the value the key
/// held before, if any. The backing map keys entries uniquely and never
/// holds more entries than the capacity.
#[verifier::external_body]
pub(crate) fn lru_put(c: &mut lru::LruCache<String, u8, RandomState>, k: String, v: u8) -> (r: Option<u8>)
    ensures
        lru_capacity(*final(c)) == lru_capacity(*old(c)),
        unique_keys(lru_entries(*final(c))),
        lru_entries(*final(c)).len() <= lru_capacity(*final(c)),
        ({
            let es = lru_entries(*old(c));
            if has_key(es, k@) {
                r == Some(es[key_index(es, k@)].1) && lru_entries(*final(c)) == es.remove(
                    key_index(es, k@),
                ).push((k@, v))
            } else if es.len() < lru_capacity(*old(c)) {
                r == None::<u8> && lru_entries(*final(c)) == es.push((k@, v))
            } else {
                r == None::<u8> && lru_entries(*final(c)) == es.drop_first().push((k@, v))
            }
        }),
{
    c.put(k, v)
}

/// Relies on lru::LruCache::len: the number of entries the cache holds.
#[verifier::external_body]
pub(crate) fn lru_len(c: &lru::LruCache<String, u8, RandomState>) -> (n: usize)
    ensures
        n == lru_entries(*c).len(),
{
    c.len()
}

} // verus!
