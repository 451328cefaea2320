//! The strategy cache: a bounded, least-recently-used map from application
//! identifier to the extraction strategy that worked last for it.
//!
//! The mathematical model of the cache is a sequence of (key, code) pairs
//! ordered from least-recently used (index 0) to most-recently used (last
//! index), with pairwise-distinct keys and at most `CACHE_CAPACITY` entries.
//! `refreshed` and `recorded` say exactly how a lookup and a record reshape
//! that sequence.

use std::collections::hash_map::RandomState;

use vstd::prelude::*;

use crate::lru_store::lru_entries;
use crate::lru_store::lru_capacity;
use crate::lru_store::lru_get;
use crate::lru_store::lru_len;
use crate::lru_store::lru_new;
use crate::lru_store::lru_put;
use crate::types::Strategy;

verus! {

/// The most entries the cache holds at any time.
pub const CACHE_CAPACITY: usize = 100;

/// The stored code of a strategy.
pub open spec fn code_of(s: Strategy) -> u8 {
    match s {
        Strategy::AccessibilityFirst => 0u8,
        Strategy::ClipboardFirst => 1u8,
    }
}

/// The strategy a stored code stands for.
pub open spec fn decoded(v: u8) -> Strategy {
    if v == 0 {
        Strategy::AccessibilityFirst
    } else {
        Strategy::ClipboardFirst
    }
}

/// Whether some entry carries key `k`.
pub open spec fn has_key(entries: Seq<(Seq<char>, u8)>, k: Seq<char>) -> bool {
    exists|i: int| 0 <= i < entries.len() && #[trigger] entries[i].0 == k
}

/// The index of the entry carrying key `k` (meaningful when `has_key` holds
/// and the keys are pairwise distinct).
pub open spec fn key_index(entries: Seq<(Seq<char>, u8)>, k: Seq<char>) -> int {
    choose|i: int| 0 <= i < entries.len() && #[trigger] entries[i].0 == k
}

/// Pairwise-distinct keys.
pub open spec fn unique_keys(entries: Seq<(Seq<char>, u8)>) -> bool {
    forall|i: int, j: int|
        0 <= i < j < entries.len() ==> (#[trigger] entries[i].0) != (#[trigger] entries[j].0)
}

/// The strategy the cache remembers for key `k`, if any.
pub open spec fn strategy_for(entries: Seq<(Seq<char>, u8)>, k: Seq<char>) -> Option<Strategy> {
    if has_key(entries, k) {
        Some(decoded(entries[key_index(entries, k)].1))
    } else {
        None
    }
}

/// The cache contents after a lookup of `k`: a hit moves the entry to the
/// most-recently-used end, a miss changes nothing.
pub open spec fn refreshed(entries: Seq<(Seq<char>, u8)>, k: Seq<char>) -> Seq<(Seq<char>, u8)> {
    if has_key(entries, k) {
        entries.remove(key_index(entries, k)).push(entries[key_index(entries, k)])
    } else {
        entries
    }
}

/// The cache contents after recording strategy `s` for `k`: the entry lands
/// at the most-recently-used end; a new key arriving with the cache full
/// evicts the least-recently-used entry (index 0) first.
pub open spec fn recorded(entries: Seq<(Seq<char>, u8)>, k: Seq<char>, s: Strategy) -> Seq<
    (Seq<char>, u8),
> {
    if has_key(entries, k) {
        entries.remove(key_index(entries, k)).push((k, code_of(s)))
    } else if entries.len() < CACHE_CAPACITY {
        entries.push((k, code_of(s)))
    } else {
        entries.drop_first().push((k, code_of(s)))
    }
}

/// The index `choose` picks in `key_index` is the one carrying the key, and
/// with pairwise-distinct keys it is the only one.
proof fn lemma_key_index_unique(entries: Seq<(Seq<char>, u8)>, k: Seq<char>)
    requires
        unique_keys(entries),
        has_key(entries, k),
    ensures
        0 <= key_index(entries, k) < entries.len(),
        entries[key_index(entries, k)].0 == k,
        forall|i: int|
            0 <= i < entries.len() && (#[trigger] entries[i].0) == k ==> i == key_index(entries, k),
{
    let ki = key_index(entries, k);
    assert(0 <= ki < entries.len() && entries[ki].0 == k);
}

/// Removing the entry at `i` and pushing `p`, whose key no other entry
/// carries, keeps the keys distinct, puts `p`'s key at the
/// most-recently-used end, and leaves every other key's strategy alone.
proof fn lemma_move_to_end(entries: Seq<(Seq<char>, u8)>, i: int, p: (Seq<char>, u8))
    requires
        unique_keys(entries),
        0 <= i < entries.len(),
        forall|j: int| 0 <= j < entries.len() && j != i ==> (#[trigger] entries[j].0) != p.0,
    ensures
        ({
            let e2 = entries.remove(i).push(p);
            &&& e2.len() == entries.len()
            &&& unique_keys(e2)
            &&& has_key(e2, p.0)
            &&& key_index(e2, p.0) == e2.len() - 1
            &&& e2[e2.len() - 1] == p
            &&& entries[i].0 != p.0 ==> !has_key(e2, entries[i].0)
            &&& forall|q: Seq<char>|
                q != p.0 && q != entries[i].0 ==> strategy_for(e2, q) == strategy_for(entries, q)
        }),
{
    let r = entries.remove(i);
    let e2 = r.push(p);
    entries.remove_ensures(i);
    assert(e2.len() == entries.len());
    assert forall|a: int, b: int| 0 <= a < b < e2.len() implies (#[trigger] e2[a].0) != (
    #[trigger] e2[b].0) by {
        if b == e2.len() - 1 {
            let a0: int = if a < i {
                a
            } else {
                a + 1
            };
            assert(e2[a] == entries[a0] && a0 != i);
        } else {
            let a0: int = if a < i {
                a
            } else {
                a + 1
            };
            let b0: int = if b < i {
                b
            } else {
                b + 1
            };
            assert(e2[a] == entries[a0] && e2[b] == entries[b0] && a0 < b0);
        }
    }
    assert(e2[e2.len() - 1].0 == p.0);
    assert(has_key(e2, p.0));
    lemma_key_index_unique(e2, p.0);
    if entries[i].0 != p.0 {
        assert forall|j: int| 0 <= j < e2.len() implies (#[trigger] e2[j].0) != entries[i].0 by {
            if j < e2.len() - 1 {
                let j0: int = if j < i {
                    j
                } else {
                    j + 1
                };
                assert(e2[j] == entries[j0] && j0 != i);
            }
        }
    }
    assert forall|q: Seq<char>| q != p.0 && q != entries[i].0 implies strategy_for(e2, q)
        == strategy_for(entries, q) by {
        if has_key(entries, q) {
            lemma_key_index_unique(entries, q);
            let j = key_index(entries, q);
            let j2: int = if j < i {
                j
            } else {
                j - 1
            };
            assert(e2[j2] == entries[j]);
            assert(has_key(e2, q));
            lemma_key_index_unique(e2, q);
            assert(key_index(e2, q) == j2);
        } else {
            assert(!has_key(e2, q)) by {
                if has_key(e2, q) {
                    let j = choose|j: int| 0 <= j < e2.len() && #[trigger] e2[j].0 == q;
                    if j < e2.len() - 1 {
                        let j0: int = if j < i {
                            j
                        } else {
                            j + 1
                        };
                        assert(e2[j] == entries[j0]);
                        assert(has_key(entries, q));
                    }
                }
            }
        }
    }
}

/// Once a strategy is recorded for an application, consulting the cache for
/// that application yields exactly that strategy, and the keys stay
/// pairwise distinct.
pub proof fn lemma_record_then_lookup(entries: Seq<(Seq<char>, u8)>, k: Seq<char>, s: Strategy)
    requires
        unique_keys(entries),
    ensures
        strategy_for(recorded(entries, k, s), k) == Some(s),
        unique_keys(recorded(entries, k, s)),
{
    let p = (k, code_of(s));
    let e2 = recorded(entries, k, s);
    if has_key(entries, k) {
        lemma_key_index_unique(entries, k);
        lemma_move_to_end(entries, key_index(entries, k), p);
    } else if entries.len() < CACHE_CAPACITY {
        assert(e2 == entries.push(p));
        assert(e2[e2.len() - 1].0 == k);
        assert(has_key(e2, k));
        assert forall|a: int, b: int| 0 <= a < b < e2.len() implies (#[trigger] e2[a].0) != (
        #[trigger] e2[b].0) by {
            if b == e2.len() - 1 {
                assert(e2[a] == entries[a]);
                assert(entries[a].0 != k);
            } else {
                assert(e2[a] == entries[a] && e2[b] == entries[b]);
            }
        }
        lemma_key_index_unique(e2, k);
    } else {
        assert(entries.remove(0) =~= entries.drop_first());
        assert(e2 == entries.remove(0).push(p));
        assert forall|j: int| 0 <= j < entries.len() && j != 0 implies (#[trigger] entries[j].0)
            != p.0 by {
            assert(!has_key(entries, k));
        }
        lemma_move_to_end(entries, 0, p);
    }
}

/// A lookup never changes which strategy any application maps to: a hit
/// only moves its entry to the most-recently-used end.
pub proof fn lemma_refresh_preserves_strategies(entries: Seq<(Seq<char>, u8)>, k: Seq<char>)
    requires
        unique_keys(entries),
    ensures
        refreshed(entries, k).len() == entries.len(),
        unique_keys(refreshed(entries, k)),
        forall|q: Seq<char>| #[trigger]
            strategy_for(refreshed(entries, k), q) == strategy_for(entries, q),
{
    let e2 = refreshed(entries, k);
    if has_key(entries, k) {
        lemma_key_index_unique(entries, k);
        let ki = key_index(entries, k);
        lemma_move_to_end(entries, ki, entries[ki]);
        assert forall|q: Seq<char>| #[trigger] strategy_for(e2, q) == strategy_for(entries, q) by {
            if q == k {
                lemma_key_index_unique(e2, k);
                assert(e2[key_index(e2, k)] == entries[ki]);
            }
        }
    }
}

/// Eviction: recording a strategy for a new application with the cache full
/// keeps the count at capacity, evicts exactly the least-recently-used
/// entry — its application is cold again — and keeps every other
/// application's strategy.
pub proof fn lemma_eviction(entries: Seq<(Seq<char>, u8)>, k: Seq<char>, s: Strategy)
    requires
        unique_keys(entries),
        entries.len() == CACHE_CAPACITY,
        !has_key(entries, k),
    ensures
        recorded(entries, k, s).len() == CACHE_CAPACITY,
        strategy_for(recorded(entries, k, s), k) == Some(s),
        strategy_for(recorded(entries, k, s), entries[0].0) == None::<Strategy>,
        forall|j: int|
            1 <= j < entries.len() ==> strategy_for(recorded(entries, k, s), (
            #[trigger] entries[j]).0) == strategy_for(entries, entries[j].0),
{
    let p = (k, code_of(s));
    let e2 = recorded(entries, k, s);
    assert(entries.remove(0) =~= entries.drop_first());
    assert(e2 == entries.remove(0).push(p));
    assert forall|j: int| 0 <= j < entries.len() && j != 0 implies (#[trigger] entries[j].0)
        != p.0 by {
        assert(!has_key(entries, k));
    }
    lemma_move_to_end(entries, 0, p);
    lemma_record_then_lookup(entries, k, s);
    assert(entries[0].0 != k);
    assert(!has_key(e2, entries[0].0));
    assert forall|j: int| 1 <= j < entries.len() implies strategy_for(e2, (
    #[trigger] entries[j]).0) == strategy_for(entries, entries[j].0) by {
        assert(entries[j].0 != k);
        assert(entries[j].0 != entries[0].0);
    }
}

/// A bounded map from application identifier to the strategy that worked
/// last, with least-recently-used eviction. Its view is the model sequence,
/// least-recently used first.
pub struct StrategyCache {
    store: lru::LruCache<String, u8, RandomState>,
}

impl View for StrategyCache {
    type V = Seq<(Seq<char>, u8)>;

    closed spec fn view(&self) -> Seq<(Seq<char>, u8)> {
        lru_entries(self.store)
    }
}

impl StrategyCache {
    /// Well-formed: created with capacity `CACHE_CAPACITY`, within bounds,
    /// keys pairwise distinct.
    pub closed spec fn wf(&self) -> bool {
        &&& lru_capacity(self.store) == CACHE_CAPACITY
        &&& lru_entries(self.store).len() <= CACHE_CAPACITY
        &&& unique_keys(lru_entries(self.store))
    }

    /// An empty cache.
    pub fn new() -> (c: StrategyCache)
        ensures
            c.wf(),
            c@ == Seq::<(Seq<char>, u8)>::empty(),
    {
        StrategyCache { store: lru_new(CACHE_CAPACITY) }
    }

    /// The remembered strategy for `app_id`, if any; a hit refreshes the
    /// entry's recency. Never fails and never changes which strategies are
    /// remembered.
    pub fn lookup(&mut self, app_id: &String) -> (r: Option<Strategy>)
        requires
            old(self).wf(),
        ensures
            final(self).wf(),
            r == strategy_for(old(self)@, app_id@),
            final(self)@ == refreshed(old(self)@, app_id@),
    {
        match lru_get(&mut self.store, app_id) {
            Some(code) => {
                if code == 0 {
                    Some(Strategy::AccessibilityFirst)
                } else {
                    Some(Strategy::ClipboardFirst)
                }
            },
            None => None,
        }
    }

    /// Inserts or updates the mapping for `app_id`, making it the
    /// most-recently-used entry; with the cache full, a new identifier
    /// evicts the least-recently-used entry. Never fails.
    pub fn record(&mut self, app_id: String, strategy: Strategy)
        requires
            old(self).wf(),
        ensures
            final(self).wf(),
            final(self)@ == recorded(old(self)@, app_id@, strategy),
    {
        let code: u8 = match strategy {
            Strategy::AccessibilityFirst => 0,
            Strategy::ClipboardFirst => 1,
        };
        let _ = lru_put(&mut self.store, app_id, code);
    }

    /// The number of applications with a remembered strategy.
    pub fn len(&self) -> (n: usize)
        ensures
            n == self@.len(),
    {
        lru_len(&self.store)
    }
}

} // verus!
