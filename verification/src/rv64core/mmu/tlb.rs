//! The TLB: translations cached by virtual page and address space, in an
//! LRU cache of a fixed capacity.
use vstd::prelude::*;
use hashlink::LruCache;
use super::vm_info::{TLBEntry, TLBKey};

verus! {

#[verifier::external_type_specification]
#[verifier::external_body]
#[verifier::reject_recursive_types(K)]
#[verifier::reject_recursive_types(V)]
#[verifier::reject_recursive_types(S)]
pub struct ExLruCache<K, V, S>(LruCache<K, V, S>);

#[verifier::external_type_specification]
#[verifier::external_body]
pub struct ExDefaultHashBuilder(hashlink::DefaultHashBuilder);

/// No translations.
pub open spec fn empty_tlb() -> Map<TLBKey, TLBEntry> {
    Map::empty()
}

/// The translations a TLB holds.
pub uninterp spec fn tlb_entries(c: LruCache<TLBKey, TLBEntry>) -> Map<TLBKey, TLBEntry>;

/// The number of translations a TLB holds at most.
pub uninterp spec fn tlb_capacity(c: LruCache<TLBKey, TLBEntry>) -> nat;

/// `LruCache::new`: an empty cache for at most `capacity` entries.
#[verifier::external_body]
pub fn tlb_new(capacity: usize) -> (r: LruCache<TLBKey, TLBEntry>)
    ensures
        tlb_entries(r) == empty_tlb(),
        tlb_capacity(r) == capacity,
{
    LruCache::new(capacity)
}

/// `LruCache::capacity`.
#[verifier::external_body]
pub fn tlb_capacity_of(c: &LruCache<TLBKey, TLBEntry>) -> (r: usize)
    ensures
        r == tlb_capacity(*c),
{
    c.capacity()
}

/// `LruCache::get`: the entry of `k`, copied; only the recency order changes.
#[verifier::external_body]
pub fn tlb_get(c: &mut LruCache<TLBKey, TLBEntry>, k: &TLBKey) -> (r: Option<TLBEntry>)
    ensures
        tlb_entries(*final(c)) == tlb_entries(*old(c)),
        tlb_capacity(*final(c)) == tlb_capacity(*old(c)),
        r == (if tlb_entries(*old(c)).dom().contains(*k) { Some(tlb_entries(*old(c))[*k]) } else { None::<TLBEntry> }),
{
    c.get(k).copied()
}

/// `LruCache::insert`: maps `k` to `v`; when that makes the cache hold
/// more than its capacity, the least recently used entry leaves.
#[verifier::external_body]
pub fn tlb_insert(c: &mut LruCache<TLBKey, TLBEntry>, k: TLBKey, v: TLBEntry)
    ensures
        tlb_capacity(*final(c)) == tlb_capacity(*old(c)),
        tlb_entries(*old(c)).insert(k, v).len() <= tlb_capacity(*old(c)) ==> tlb_entries(*final(c)) == tlb_entries(*old(c)).insert(k, v),
        tlb_entries(*old(c)).insert(k, v).len() > tlb_capacity(*old(c)) ==> exists|e: TLBKey| tlb_entries(*final(c)) == tlb_entries(*old(c)).insert(k, v).remove(e),
{
    c.insert(k, v);
}

/// `LruCache::remove`: drops the entry of `k`.
#[verifier::external_body]
pub fn tlb_remove(c: &mut LruCache<TLBKey, TLBEntry>, k: &TLBKey)
    ensures
        tlb_capacity(*final(c)) == tlb_capacity(*old(c)),
        tlb_entries(*final(c)) == tlb_entries(*old(c)).remove(*k),
{
    c.remove(k);
}

/// `LruCache::clear`.
#[verifier::external_body]
pub fn tlb_clear(c: &mut LruCache<TLBKey, TLBEntry>)
    ensures
        tlb_capacity(*final(c)) == tlb_capacity(*old(c)),
        tlb_entries(*final(c)) == empty_tlb(),
{
    c.clear();
}

/// `LruCache::iter`, collected: every entry once, in an order not stated.
#[verifier::external_body]
pub fn tlb_items(c: &LruCache<TLBKey, TLBEntry>) -> (r: Vec<(TLBKey, TLBEntry)>)
    ensures
        r@.len() == tlb_entries(*c).len(),
        forall|i: int| 0 <= i < r@.len() ==> tlb_entries(*c).dom().contains(#[trigger] r@[i].0) && tlb_entries(*c)[r@[i].0] == r@[i].1,
        forall|i: int, j: int| 0 <= i < j < r@.len() ==> #[trigger] r@[i].0 != #[trigger] r@[j].0,
        forall|k: TLBKey| #[trigger] tlb_entries(*c).dom().contains(k) ==> exists|i: int| 0 <= i < r@.len() && r@[i].0 == k,
{
    c.iter().map(|(k, v)| (*k, *v)).collect()
}

} // verus!
