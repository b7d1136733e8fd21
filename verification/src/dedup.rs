//! Gateway-side deduplication of beacon burst retransmissions.
//!
//! Each device address gets a bounded recency cache of the most recently
//! seen cycle counters.  A frame whose counter is already remembered for its
//! address is a retransmission and is suppressed.  Matching is exact: the
//! counter wraps around, so no ordering comparison would be correct.

use std::collections::HashMap;
use std::collections::hash_map::RandomState;
use std::num::NonZeroUsize;

use lru::LruCache;

use vstd::prelude::*;

use crate::types::Address;

verus! {

broadcast use vstd::std_specs::hash::group_hash_axioms;

/// The number of most-recently-seen counters remembered per device address.
pub const DEDUPLICATION_LRU_SIZE: usize = 5;

#[verifier::external_type_specification]
#[verifier::external_body]
#[verifier::reject_recursive_types(K)]
#[verifier::reject_recursive_types(V)]
#[verifier::reject_recursive_types(S)]
pub struct ExLruCache<K, V, S>(LruCache<K, V, S>);

/// The keys a bounded recency cache holds, most recently used first.
pub uninterp spec fn lru_keys(c: LruCache<u16, (), RandomState>) -> Seq<u16>;

/// The capacity a bounded recency cache was created with.
pub uninterp spec fn lru_capacity(c: LruCache<u16, (), RandomState>) -> nat;

/// Relies on lru::LruCache::with_hasher: an empty cache that holds at most
/// `cap` entries.
#[verifier::external_body]
fn lru_new(cap: usize) -> (r: LruCache<u16, (), RandomState>)
    requires
        1 <= cap,
    ensures
        lru_keys(r) == Seq::<u16>::empty(),
        lru_capacity(r) == cap,
{
    LruCache::with_hasher(NonZeroUsize::new(cap).unwrap(), RandomState::new())
}

/// Relies on lru::LruCache::contains: whether the key is in the cache.  The
/// receiver is shared, so the recency order cannot change.
#[verifier::external_body]
fn lru_contains(c: &LruCache<u16, (), RandomState>, k: &u16) -> (r: bool)
    ensures
        r == lru_keys(*c).contains(*k),
{
    c.contains(k)
}

/// Relies on lru::LruCache::put: a key not yet present enters at the
/// most-recently-used position; when the cache is already at capacity, the
/// least-recently-used key leaves to make room.
#[verifier::external_body]
fn lru_put(c: &mut LruCache<u16, (), RandomState>, k: u16)
    requires
        !lru_keys(*old(c)).contains(k),
    ensures
        lru_capacity(*final(c)) == lru_capacity(*old(c)),
        lru_keys(*old(c)).len() < lru_capacity(*old(c)) ==> lru_keys(*final(c)) == seq![k]
            + lru_keys(*old(c)),
        lru_keys(*old(c)).len() >= lru_capacity(*old(c)) ==> lru_keys(*final(c)) == seq![k]
            + lru_keys(*old(c)).drop_last(),
{
    c.put(k, ());
}

/// The 48-bit integer formed from an address's six bytes.  Distinct
/// addresses give distinct values, so it can serve as a lookup key.
pub open spec fn addr_key_spec(a: Seq<u8>) -> u64
    recommends
        a.len() == 6,
{
    (a[0] + a[1] * 256 + a[2] * 65536 + a[3] * 16777216 + a[4] * 4294967296 + a[5]
        * 1099511627776) as u64
}

/// Distinct addresses never share a deduplication slot.
pub proof fn lemma_addr_key_injective(a: Seq<u8>, b: Seq<u8>)
    requires
        a.len() == 6,
        b.len() == 6,
        addr_key_spec(a) == addr_key_spec(b),
    ensures
        a =~= b,
{
    let x0 = a[0] as int;
    let x1 = a[1] as int;
    let x2 = a[2] as int;
    let x3 = a[3] as int;
    let x4 = a[4] as int;
    let x5 = a[5] as int;
    let y0 = b[0] as int;
    let y1 = b[1] as int;
    let y2 = b[2] as int;
    let y3 = b[3] as int;
    let y4 = b[4] as int;
    let y5 = b[5] as int;
    let ta = x1 + 256 * (x2 + 256 * (x3 + 256 * (x4 + 256 * x5)));
    let tb = y1 + 256 * (y2 + 256 * (y3 + 256 * (y4 + 256 * y5)));
    assert(x0 + 256 * ta == y0 + 256 * tb);
    assert(x0 == y0 && ta == tb);
    assert(x1 == y1 && x2 + 256 * (x3 + 256 * (x4 + 256 * x5)) == y2 + 256 * (y3 + 256 * (y4 + 256
        * y5)));
    assert(x2 == y2 && x3 + 256 * (x4 + 256 * x5) == y3 + 256 * (y4 + 256 * y5));
    assert(x3 == y3 && x4 + 256 * x5 == y4 + 256 * y5);
    assert(x4 == y4 && x5 == y5);
}

/// The integer key of an address.
fn addr_key(a: &Address) -> (r: u64)
    ensures
        r == addr_key_spec(a.0@),
{
    a.0[0] as u64 + a.0[1] as u64 * 256 + a.0[2] as u64 * 65536 + a.0[3] as u64 * 16777216 + a.0[4]
        as u64 * 4294967296 + a.0[5] as u64 * 1099511627776
}

/// The counters remembered for one address slot; the empty sequence when
/// the address has never been seen.
pub open spec fn entry_of(m: Map<u64, Seq<u16>>, key: u64) -> Seq<u16> {
    if m.dom().contains(key) {
        m[key]
    } else {
        Seq::empty()
    }
}

/// Whether a counter is accepted as new for an entry: exact match only.
pub open spec fn accepts(e: Seq<u16>, c: u16) -> bool {
    !e.contains(c)
}

/// The entry after a counter is recorded.  A duplicate leaves the entry
/// unchanged, recency order included; a new counter enters at the
/// most-recently-seen position, evicting the least-recently-seen one when
/// the entry is full.
pub open spec fn record(e: Seq<u16>, c: u16) -> Seq<u16> {
    if e.contains(c) {
        e
    } else if e.len() < DEDUPLICATION_LRU_SIZE {
        seq![c] + e
    } else {
        seq![c] + e.drop_last()
    }
}

/// Recording keeps an entry free of duplicates and within its bound.
proof fn lemma_record_wf(e: Seq<u16>, c: u16)
    requires
        e.no_duplicates(),
        e.len() <= DEDUPLICATION_LRU_SIZE,
    ensures
        record(e, c).no_duplicates(),
        record(e, c).len() <= DEDUPLICATION_LRU_SIZE,
{
    if !e.contains(c) {
        let tail = if e.len() < DEDUPLICATION_LRU_SIZE {
            e
        } else {
            e.drop_last()
        };
        let r = seq![c] + tail;
        assert(forall|i: int| 0 <= i < tail.len() ==> tail[i] == e[i]);
        assert forall|i: int, j: int|
            0 <= i < r.len() && 0 <= j < r.len() && i != j implies r[i] != r[j] by {
            if i >= 1 && j >= 1 {
                assert(r[i] == e[i - 1] && r[j] == e[j - 1]);
                assert(e[i - 1] != e[j - 1]);
            } else if i == 0 {
                assert(r[j] == e[j - 1]);
                if r[j] == c {
                    assert(e.contains(c));
                }
            } else {
                assert(r[i] == e[i - 1]);
                if r[i] == c {
                    assert(e.contains(c));
                }
            }
        }
        assert(r.no_duplicates());
    }
}

/// A bounded per-device-address cache of recently seen cycle counters.
///
/// An entry is created lazily on the first sighting of an address and lives
/// for the lifetime of the cache; only counters within an entry are ever
/// evicted.
pub struct DeduplicationCache {
    map: HashMap<u64, LruCache<u16, (), RandomState>>,
}

impl View for DeduplicationCache {
    type V = Map<u64, Seq<u16>>;

    closed spec fn view(&self) -> Map<u64, Seq<u16>> {
        Map::new(
            |k: u64| self.map@.dom().contains(k),
            |k: u64| lru_keys(self.map@[k]),
        )
    }
}

impl DeduplicationCache {
    /// Every entry respects the bound, holds no duplicate counter, and
    /// evicts at the configured capacity.
    pub closed spec fn wf(&self) -> bool {
        forall|k: u64|
            #[trigger] self.map@.dom().contains(k) ==> {
                &&& lru_capacity(self.map@[k]) == DEDUPLICATION_LRU_SIZE
                &&& lru_keys(self.map@[k]).len() <= DEDUPLICATION_LRU_SIZE
                &&& lru_keys(self.map@[k]).no_duplicates()
            }
    }

    /// An empty cache: no address has been seen.
    pub fn new() -> (r: Self)
        ensures
            r.wf(),
            r@ == Map::<u64, Seq<u16>>::empty(),
    {
        let r = DeduplicationCache { map: HashMap::new() };
        proof {
            assert(r@ =~= Map::<u64, Seq<u16>>::empty());
        }
        r
    }

    /// Records a sighting of `counter` for `address` and says whether it is
    /// new.  A counter already remembered for the address is a duplicate:
    /// the cache is left exactly as it was and the result is false.  A new
    /// counter is remembered as most recently seen, evicting the least
    /// recently seen counter of that address when its entry is full, and
    /// the result is true.
    pub fn check_and_record(&mut self, address: &Address, counter: u16) -> (r: bool)
        requires
            old(self).wf(),
        ensures
            final(self).wf(),
            r == accepts(entry_of(old(self)@, addr_key_spec(address.0@)), counter),
            final(self)@ == old(self)@.insert(
                addr_key_spec(address.0@),
                record(entry_of(old(self)@, addr_key_spec(address.0@)), counter),
            ),
    {
        let key = addr_key(address);
        let ghost e = entry_of(old(self)@, addr_key_spec(address.0@));
        let mut cache: LruCache<u16, (), RandomState> = match self.map.remove(&key) {
            Some(c) => c,
            None => lru_new(DEDUPLICATION_LRU_SIZE),
        };
        proof {
            assert(lru_keys(cache) == e);
            assert(lru_capacity(cache) == DEDUPLICATION_LRU_SIZE);
            lemma_record_wf(e, counter);
        }
        let dup = lru_contains(&cache, &counter);
        if !dup {
            lru_put(&mut cache, counter);
        }
        proof {
            assert(lru_keys(cache) == record(e, counter));
        }
        self.map.insert(key, cache);
        proof {
            assert(self@ =~= old(self)@.insert(addr_key_spec(address.0@), record(e, counter)));
        }
        !dup
    }
}

/// Law: recording a counter twice in succession accepts it the first time,
/// when it was not yet remembered, and always rejects it the second time,
/// leaving the cache unchanged.
pub proof fn lemma_dedup_idempotent(m: Map<u64, Seq<u16>>, key: u64, c: u16)
    ensures
        !entry_of(m, key).contains(c) ==> accepts(entry_of(m, key), c),
        !accepts(entry_of(m.insert(key, record(entry_of(m, key), c)), key), c),
        record(record(entry_of(m, key), c), c) == record(entry_of(m, key), c),
{
    let e = entry_of(m, key);
    let r = record(e, c);
    if !e.contains(c) {
        assert(r[0] == c);
        assert(r.contains(c));
    }
}

/// Law: deduplication is by exact match only.  Recording one counter never
/// makes a different, not-yet-remembered counter a duplicate; numerically
/// adjacent or wrapped-around counters stay unrelated.
pub proof fn lemma_dedup_exact_match(e: Seq<u16>, c1: u16, c2: u16)
    requires
        c1 != c2,
        !e.contains(c2),
    ensures
        accepts(record(e, c1), c2),
{
    let r = record(e, c1);
    if !e.contains(c1) {
        let tail = if e.len() < DEDUPLICATION_LRU_SIZE {
            e
        } else {
            e.drop_last()
        };
        assert(forall|i: int| 0 <= i < tail.len() ==> tail[i] == e[i]);
        if r.contains(c2) {
            let i = choose|i: int| 0 <= i < r.len() && r[i] == c2;
            assert(i >= 1);
            assert(e[i - 1] == c2);
            assert(e.contains(c2));
        }
    }
}

/// Law: a full entry admits a new counter by evicting exactly its
/// least-recently-seen one, and the evicted counter is afterwards accepted
/// again.
pub proof fn lemma_dedup_eviction(e: Seq<u16>, c: u16)
    requires
        e.no_duplicates(),
        e.len() == DEDUPLICATION_LRU_SIZE,
        !e.contains(c),
    ensures
        accepts(e, c),
        record(e, c) == seq![c] + e.drop_last(),
        accepts(record(e, c), e.last()),
{
    let r = record(e, c);
    assert(e.last() == e[e.len() - 1]);
    assert(e.contains(e.last()));
    if r.contains(e.last()) {
        let i = choose|i: int| 0 <= i < r.len() && r[i] == e.last();
        if i == 0 {
            assert(c == e.last());
        } else {
            assert(e.drop_last()[i - 1] == e.last());
            assert(e[i - 1] == e.last());
            assert(i - 1 < e.len() - 1);
        }
    }
}

} // verus!
