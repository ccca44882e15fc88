//! The instruction cache: words fetched from main memory, kept by their
//! physical address until the cache is cleared.
use vstd::prelude::*;
use crate::rv64core::bus::{Bus, bus_read_ok, bus_read_post};
use crate::rv64core::inst_base::RVerr;
use crate::device::device_trait::DeviceBase;

verus! {

/// Instruction words by physical address, held in a hash map.
#[verifier::external_body]
pub struct InstMap {
    map: hashbrown::HashMap<u64, u32>,
}

/// No words.
pub open spec fn no_words() -> Map<u64, u32> {
    Map::empty()
}

/// The words an instruction map holds, by address.
pub uninterp spec fn inst_map_entries(m: InstMap) -> Map<u64, u32>;

impl InstMap {
    /// `hashbrown::HashMap::new`: an empty map.
    #[verifier::external_body]
    pub fn new() -> (m: InstMap)
        ensures
            inst_map_entries(m) == no_words(),
    {
        InstMap { map: hashbrown::HashMap::new() }
    }

    /// `hashbrown::HashMap::get`, copied: the word kept for `k`, if any.
    #[verifier::external_body]
    pub fn get(&self, k: u64) -> (r: Option<u32>)
        ensures
            r == (if inst_map_entries(*self).dom().contains(k) { Some(inst_map_entries(*self)[k]) } else { None::<u32> }),
    {
        self.map.get(&k).copied()
    }

    /// `hashbrown::HashMap::insert`: keeps `v` for `k`, replacing an earlier word.
    #[verifier::external_body]
    pub fn insert(&mut self, k: u64, v: u32)
        ensures
            inst_map_entries(*final(self)) == inst_map_entries(*old(self)).insert(k, v),
    {
        self.map.insert(k, v);
    }

    /// `hashbrown::HashMap::len`: the number of words kept.
    #[verifier::external_body]
    pub fn len(&self) -> (r: usize)
        ensures
            r == inst_map_entries(*self).dom().len(),
    {
        self.map.len()
    }

    /// The address of the first entry `hashbrown::HashMap::iter` yields;
    /// which one that is depends on the hash order, so only that it is held
    /// is stated.
    #[verifier::external_body]
    pub fn first_key(&self) -> (r: Option<u64>)
        ensures
            r is None ==> inst_map_entries(*self) == no_words(),
            r is Some ==> inst_map_entries(*self).dom().contains(r->0),
    {
        self.map.iter().next().map(|(k, _)| *k)
    }

    /// `hashbrown::HashMap::remove`: drops the word kept for `k`, and gives it.
    #[verifier::external_body]
    pub fn remove(&mut self, k: u64) -> (r: Option<u32>)
        ensures
            inst_map_entries(*final(self)) == inst_map_entries(*old(self)).remove(k),
            r == (if inst_map_entries(*old(self)).dom().contains(k) { Some(inst_map_entries(*old(self))[k]) } else { None::<u32> }),
    {
        self.map.remove(&k)
    }

    /// `hashbrown::HashMap::clear`: drops every word.
    #[verifier::external_body]
    pub fn clear(&mut self)
        ensures
            inst_map_entries(*final(self)) == no_words(),
    {
        self.map.clear();
    }
}

/// The start of the memory whose words the cache keeps.
pub const ICACHE_BASE: u64 = 0x8000_0000;
/// The size of the memory whose words the cache keeps.
pub const ICACHE_LEN: u64 = 0x800_0000;

/// The instruction cache of a hart: up to `icache_size` words of main
/// memory by address (no cache at all when the size is 0), and the counts
/// of hits and misses.
pub struct CpuIcache {
    pub inst_hash: InstMap,
    pub icache_size: usize,
    pub hit: u64,
    pub miss: u64,
}

/// `w` is `m` with room made for one more word when `m` holds `size` words
/// or more: one word of `m` dropped (which one the hash order decides).
pub open spec fn evicted(m: Map<u64, u32>, w: Map<u64, u32>, size: usize) -> bool {
    if m.dom().len() >= size {
        exists|k: u64| #[trigger] m.dom().contains(k) && w == m.remove(k)
    } else {
        w == m
    }
}

/// What a read of `len` bytes at `pc` through cache `o` (and the bus `ob`)
/// did: `n` and `nb` are the cache and bus after, `r` the answer. An
/// address the cache does not keep is read from the bus; a word kept is
/// the answer, with no bus read; else the bus is read and, when it
/// answers, its answer is kept (as a 32-bit word), after room is made.
pub open spec fn icache_read_post<D: DeviceBase>(o: CpuIcache, n: CpuIcache, ob: Bus<D>, nb: Bus<D>, pc: u64, len: usize, r: Result<u64, RVerr>) -> bool {
    if !o.cacheable(pc) {
        n == o && bus_read_post(ob, nb, pc, len, r)
    } else if o.words().dom().contains(pc) {
        &&& r == Ok::<u64, RVerr>(o.words()[pc] as u64)
        &&& nb == ob
        &&& n.words() == o.words()
        &&& n.icache_size == o.icache_size && n.miss == o.miss
        &&& n.hit == (if o.hit == u64::MAX { 0 } else { (o.hit + 1) as u64 })
    } else {
        &&& bus_read_post(ob, nb, pc, len, r)
        &&& match r {
            Ok(d) => {
                &&& n.icache_size == o.icache_size && n.hit == o.hit
                &&& n.miss == (if o.miss == u64::MAX { 0 } else { (o.miss + 1) as u64 })
                &&& exists|w: Map<u64, u32>| #[trigger] evicted(o.words(), w, o.icache_size) && n.words() == w.insert(pc, d as u32)
            },
            Err(_) => n == o,
        }
    }
}

/// A read answered through the cache at an address it keeps is the
/// answer (as a 32-bit word) to the next read there, whatever the bus
/// holds by then.
pub proof fn lemma_icache_read_again<D: DeviceBase>(
    o: CpuIcache,
    n: CpuIcache,
    ob: Bus<D>,
    nb: Bus<D>,
    pc: u64,
    len: usize,
    v: u64,
    n2: CpuIcache,
    b2: Bus<D>,
    b3: Bus<D>,
    len2: usize,
    r2: Result<u64, RVerr>,
)
    requires
        o.cacheable(pc),
        icache_read_post(o, n, ob, nb, pc, len, Ok(v)),
        icache_read_post(n, n2, b2, b3, pc, len2, r2),
    ensures
        r2 == Ok::<u64, RVerr>(v as u32 as u64),
        b3 == b2,
{
    if o.words().dom().contains(pc) {
        assert(v == o.words()[pc] as u64);
        assert(v as u32 as u64 == v) by (bit_vector)
            requires
                v < 0x1_0000_0000,
        ;
    } else {
        let w = choose|w: Map<u64, u32>| #[trigger] evicted(o.words(), w, o.icache_size) && n.words() == w.insert(pc, v as u32);
        assert(n.words().dom().contains(pc));
        assert(n.words()[pc] == v as u32);
    }
}

impl CpuIcache {
    /// The words kept, by address.
    pub open spec fn words(&self) -> Map<u64, u32> {
        inst_map_entries(self.inst_hash)
    }

    /// Whether the cache keeps the word at `addr`: it has a size, and `addr`
    /// is in main memory.
    pub open spec fn cacheable(&self, addr: u64) -> bool {
        self.icache_size != 0 && ICACHE_BASE <= addr < ICACHE_BASE + ICACHE_LEN
    }

    /// Whether a read of `len` bytes at `pc` through the cache can be made:
    /// the word is kept, or the bus takes the read.
    pub open spec fn read_ok<D: DeviceBase>(&self, bus: Bus<D>, pc: u64, len: usize) -> bool {
        (self.cacheable(pc) && self.words().dom().contains(pc)) || bus_read_ok(bus, pc, len)
    }

    /// An empty cache for `size` words (0: no cache).
    pub fn new(size: usize) -> (r: Self)
        ensures
            r.words() == no_words(),
            r.icache_size == size,
            r.hit == 0 && r.miss == 0,
    {
        CpuIcache { inst_hash: InstMap::new(), icache_size: size, hit: 0, miss: 0 }
    }

    fn cacheble(&self, addr: u64) -> (r: bool)
        ensures
            r == self.cacheable(addr),
    {
        if self.icache_size == 0 {
            false
        } else {
            ICACHE_BASE <= addr && addr < ICACHE_BASE + ICACHE_LEN
        }
    }

    /// Reads `len` bytes at `pc`: a word kept is the answer; else the bus
    /// answers, and for an address in main memory its answer is kept.
    pub fn read<D: DeviceBase>(&mut self, bus: &mut Bus<D>, pc: u64, len: usize) -> (r: Result<u64, RVerr>)
        requires
            old(self).read_ok(*old(bus), pc, len),
        ensures
            icache_read_post(*old(self), *final(self), *old(bus), *final(bus), pc, len, r),
    {
        let addr: u64 = pc;
        if !self.cacheble(addr) {
            return bus.read(addr, len);
        }
        if let Some(inst) = self.inst_hash.get(pc) {
            self.hit = self.hit.wrapping_add(1);
            return Ok(inst as u64);
        }
        match bus.read(addr, len) {
            Ok(data) => {
                self.miss = self.miss.wrapping_add(1);
                let ghost before = self.words();
                if self.inst_hash.len() >= self.icache_size {
                    let _ = self.remove_random();
                }
                let ghost w = self.words();
                assert(evicted(before, w, self.icache_size));
                self.inst_hash.insert(pc, data as u32);
                Ok(data)
            },
            Err(err) => Err(err),
        }
    }

    /// A write through the instruction cache, which takes none.
    pub fn write(&mut self, _addr: u64, _data: u32) -> (r: Result<(), RVerr>)
        ensures
            r == Err::<(), RVerr>(RVerr::NotFindDevice),
    {
        Err(RVerr::NotFindDevice)
    }

    /// Drops one word kept (the first in hash order), and gives it; none
    /// when the cache is empty.
    fn remove_random(&mut self) -> (r: Option<u32>)
        ensures
            final(self).icache_size == old(self).icache_size,
            final(self).hit == old(self).hit && final(self).miss == old(self).miss,
            old(self).words() == no_words() ==> final(self).words() == old(self).words() && r is None,
            old(self).words() != no_words() ==> exists|k: u64| #[trigger] old(self).words().dom().contains(k)
                && final(self).words() == old(self).words().remove(k) && r == Some(old(self).words()[k]),
    {
        let key = match self.inst_hash.first_key() {
            Some(k) => k,
            None => 0,
        };
        let r = self.inst_hash.remove(key);
        proof {
            if old(self).words() == no_words() {
                assert(old(self).words().remove(key) =~= old(self).words());
            }
        }
        r
    }

    /// Drops every word kept.
    pub fn clear(&mut self)
        ensures
            final(self).words() == no_words(),
            final(self).icache_size == old(self).icache_size,
            final(self).hit == old(self).hit && final(self).miss == old(self).miss,
    {
        self.inst_hash.clear();
    }
}

} // verus!
