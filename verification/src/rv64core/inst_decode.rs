//! The instruction decoder: the first table entry whose encoding an
//! instruction word matches, with the answers kept in an LRU cache.
use vstd::prelude::*;
use hashlink::LruCache;
use crate::config::Config;
use super::inst::inst_op::{
    Instruction, InstOp, encodes, instructions_i, instructions_m, instructions_a, instructions_z, instructions_c,
    instructions_i_ops, instructions_m_ops, instructions_a_ops, instructions_z_ops, instructions_c_ops,
};

verus! {

/// The operation of the first entry of `t` whose encoding `inst` matches.
pub open spec fn first_match(t: Seq<Instruction>, inst: u32) -> Option<InstOp>
    decreases t.len(),
{
    if t.len() == 0 {
        None
    } else if inst & t[0].mask == t[0].match_data {
        Some(t[0].op)
    } else {
        first_match(t.drop_first(), inst)
    }
}

/// The decodings a decode cache holds.
pub uninterp spec fn decode_cache_entries(c: LruCache<u32, InstOp>) -> Map<u32, InstOp>;

/// The number of decodings a decode cache holds at most.
pub uninterp spec fn decode_cache_capacity(c: LruCache<u32, InstOp>) -> nat;

pub open spec fn no_decodings() -> Map<u32, InstOp> {
    Map::empty()
}

/// `LruCache::new`: an empty cache for at most `capacity` decodings.
#[verifier::external_body]
fn decode_cache_new(capacity: usize) -> (r: LruCache<u32, InstOp>)
    ensures
        decode_cache_entries(r) == no_decodings(),
        decode_cache_capacity(r) == capacity,
{
    LruCache::new(capacity)
}

/// `LruCache::capacity`.
#[verifier::external_body]
fn decode_cache_capacity_of(c: &LruCache<u32, InstOp>) -> (r: usize)
    ensures
        r == decode_cache_capacity(*c),
{
    c.capacity()
}

/// `LruCache::get`: the decoding of `k`, copied; only the recency order changes.
#[verifier::external_body]
fn decode_cache_get(c: &mut LruCache<u32, InstOp>, k: &u32) -> (r: Option<InstOp>)
    ensures
        decode_cache_entries(*final(c)) == decode_cache_entries(*old(c)),
        decode_cache_capacity(*final(c)) == decode_cache_capacity(*old(c)),
        r == (if decode_cache_entries(*old(c)).dom().contains(*k) {
            Some(decode_cache_entries(*old(c))[*k])
        } else {
            None::<InstOp>
        }),
{
    c.get(k).copied()
}

/// `LruCache::insert`: maps `k` to `v`; when that makes the cache hold
/// more than its capacity, the least recently used decoding leaves.
#[verifier::external_body]
fn decode_cache_insert(c: &mut LruCache<u32, InstOp>, k: u32, v: InstOp)
    ensures
        decode_cache_capacity(*final(c)) == decode_cache_capacity(*old(c)),
        decode_cache_entries(*old(c)).insert(k, v).len() <= decode_cache_capacity(*old(c))
            ==> decode_cache_entries(*final(c)) == decode_cache_entries(*old(c)).insert(k, v),
        decode_cache_entries(*old(c)).insert(k, v).len() > decode_cache_capacity(*old(c))
            ==> exists|e: u32| decode_cache_entries(*final(c)) == decode_cache_entries(*old(c)).insert(k, v).remove(e),
{
    c.insert(k, v);
}

/// `LruCache::clear`.
#[verifier::external_body]
fn decode_cache_clear(c: &mut LruCache<u32, InstOp>)
    ensures
        decode_cache_capacity(*final(c)) == decode_cache_capacity(*old(c)),
        decode_cache_entries(*final(c)) == no_decodings(),
{
    c.clear();
}

pub struct InstDecode {
    pub inst_vec: Vec<Instruction>,
    pub inst_hash: LruCache<u32, InstOp>,
    pub hit: u64,
    pub miss: u64,
    pub remove_count: u64,
    /// Whether the compressed instructions are enabled; instructions are
    /// then fetched at 2-byte boundaries.
    pub rvc: bool,
}

/// Every cached decoding is what the table gives.
pub open spec fn cache_agrees(m: Map<u32, InstOp>, t: Seq<Instruction>) -> bool {
    forall|k: u32| #[trigger] m.dom().contains(k) ==> first_match(t, k) == Some(m[k])
}

impl InstDecode {
    /// The decode table.
    pub open spec fn table(&self) -> Seq<Instruction> {
        self.inst_vec@
    }

    pub open spec fn wf(&self) -> bool {
        &&& cache_agrees(decode_cache_entries(self.inst_hash), self.inst_vec@)
        &&& forall|i: int| 0 <= i < self.inst_vec@.len() ==> #[trigger] self.inst_vec@[i].well_encoded()
    }

    /// The size of the decode cache (0: no cache).
    pub open spec fn cache_capacity(&self) -> nat {
        decode_cache_capacity(self.inst_hash)
    }

    /// A decoder for the extensions that `config` enables: the base integer
    /// and system instructions always, then M, A and C when enabled.
    pub fn new(config: &Config) -> (r: Self)
        ensures
            r.wf(),
            r.table().map_values(|e: Instruction| e.op) == instructions_i_ops() + instructions_z_ops()
                + (if config.isa_falgs & (1u32 << 12u32) != 0 { instructions_m_ops() } else { Seq::empty() })
                + (if config.isa_falgs & (1u32 << 0u32) != 0 { instructions_a_ops() } else { Seq::empty() })
                + (if config.isa_falgs & (1u32 << 2u32) != 0 { instructions_c_ops() } else { Seq::empty() }),
            r.rvc == (config.isa_falgs & (1u32 << 2u32) != 0),
            r.cache_capacity() == (match config.decode_cache_size { Some(n) => n as nat, None => 0 }),
            r.hit == 0 && r.miss == 0,
    {
        let mut i_vec = instructions_i();
        let mut z = instructions_z();
        i_vec.append(&mut z);
        if config.is_enable_isa(0x6d) {
            let mut m = instructions_m();
            i_vec.append(&mut m);
        }
        if config.is_enable_isa(0x61) {
            let mut a = instructions_a();
            i_vec.append(&mut a);
        }
        let rvc = config.is_enable_isa(0x63);
        if rvc {
            let mut c = instructions_c();
            i_vec.append(&mut c);
        }
        let size = match config.decode_cache_size() {
            Some(n) => n,
            None => 0,
        };
        let r = InstDecode {
            inst_vec: i_vec,
            inst_hash: decode_cache_new(size),
            hit: 0,
            miss: 0,
            remove_count: 0,
            rvc,
        };
        assert(r.table().map_values(|e: Instruction| e.op) =~= instructions_i_ops() + instructions_z_ops()
            + (if config.isa_falgs & (1u32 << 12u32) != 0 { instructions_m_ops() } else { Seq::empty() })
            + (if config.isa_falgs & (1u32 << 0u32) != 0 { instructions_a_ops() } else { Seq::empty() })
            + (if config.isa_falgs & (1u32 << 2u32) != 0 { instructions_c_ops() } else { Seq::empty() }));
        r
    }

    fn no_decode_cache(&self) -> (r: bool)
        ensures
            r == (self.cache_capacity() == 0),
    {
        decode_cache_capacity_of(&self.inst_hash) == 0
    }

    /// Empties the decode cache and zeroes the counters.
    pub fn reset(&mut self)
        requires
            old(self).wf(),
        ensures
            final(self).wf(),
            final(self).table() == old(self).table(),
            final(self).cache_capacity() == old(self).cache_capacity(),
            final(self).rvc == old(self).rvc,
            final(self).hit == 0 && final(self).miss == 0,
    {
        decode_cache_clear(&mut self.inst_hash);
        self.hit = 0;
        self.miss = 0;
        self.remove_count = 0;
    }

    /// Searches the table for the first entry `inst_i` matches, and caches the answer.
    fn slow_path(&mut self, inst_i: u32) -> (r: Option<InstOp>)
        requires
            old(self).wf(),
        ensures
            final(self).wf(),
            final(self).table() == old(self).table(),
            final(self).cache_capacity() == old(self).cache_capacity(),
            final(self).rvc == old(self).rvc,
            final(self).hit == old(self).hit && final(self).miss == old(self).miss,
            r == first_match(old(self).table(), inst_i),
    {
        let mut i: usize = 0;
        let n = self.inst_vec.len();
        let mut found: Option<InstOp> = None;
        assert(self.inst_vec@.subrange(0, n as int) == self.inst_vec@);
        while i < n
            invariant_except_break
                found is None,
                first_match(self.inst_vec@, inst_i) == first_match(self.inst_vec@.subrange(i as int, n as int), inst_i),
            invariant
                n == self.inst_vec@.len(),
                0 <= i <= n,
            ensures
                found == first_match(self.inst_vec@, inst_i),
            decreases n - i,
        {
            let e = self.inst_vec[i];
            proof {
                let s = self.inst_vec@.subrange(i as int, n as int);
                assert(s[0] == e);
                assert(s.drop_first() == self.inst_vec@.subrange(i + 1, n as int));
            }
            if inst_i & e.mask == e.match_data {
                found = Some(e.op);
                break;
            }
            i = i + 1;
        }
        if !self.no_decode_cache() {
            if let Some(op) = found {
                decode_cache_insert(&mut self.inst_hash, inst_i, op);
                proof {
                    let old_m = decode_cache_entries(old(self).inst_hash);
                    let new_m = decode_cache_entries(self.inst_hash);
                    assert forall|k: u32| #[trigger] new_m.dom().contains(k) implies first_match(self.inst_vec@, k) == Some(new_m[k]) by {
                        assert(old_m.insert(inst_i, op).dom().contains(k));
                    }
                }
            }
        }
        found
    }

    /// Decodes `inst_i`: a cached decoding when there is one, else the table's answer.
    pub fn fast_path(&mut self, inst_i: u32) -> (r: Option<InstOp>)
        requires
            old(self).wf(),
        ensures
            final(self).wf(),
            final(self).table() == old(self).table(),
            final(self).cache_capacity() == old(self).cache_capacity(),
            final(self).rvc == old(self).rvc,
            r == first_match(old(self).table(), inst_i),
    {
        if self.no_decode_cache() {
            return self.slow_path(inst_i);
        }
        let ret = decode_cache_get(&mut self.inst_hash, &inst_i);
        if ret.is_some() {
            self.hit = self.hit.wrapping_add(1);
            ret
        } else {
            self.miss = self.miss.wrapping_add(1);
            self.slow_path(inst_i)
        }
    }
}

} // verus!
