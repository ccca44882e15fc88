//! A line of the data cache: 64 bytes, its tag, and its state.
use vstd::prelude::*;
use crate::le_bytes::{le_value, le_bytes, byte_weight, read_le, write_le, lemma_le_bytes_len, lemma_le_value_of_le_bytes, lemma_byte_weight_values};
use crate::device::device_trait::splice;

verus! {

pub struct CacheLine {
    pub valid: bool,
    pub dirty: bool,
    /// Counts the accesses, wrapping around.
    pub lru: u8,
    pub tag: u64,
    pub data: Vec<u8>,
}

/// The bytes a line holds.
pub const LINE_BYTES: usize = 64;

impl CacheLine {
    /// A line holds exactly `LINE_BYTES` bytes.
    pub open spec fn wf(&self) -> bool {
        self.data@.len() == LINE_BYTES
    }

    /// An invalid line of 64 zero bytes.
    pub fn new() -> (r: Self)
        ensures
            r.wf(),
            !r.valid && !r.dirty && r.lru == 0 && r.tag == 0,
            r.data@ == Seq::new(64, |i: int| 0u8),
    {
        CacheLine { valid: false, dirty: false, lru: 0, tag: 0, data: vec![0u8; 64] }
    }

    /// Whether the line holds the block with tag `tag`.
    pub fn hit(&self, tag: u64) -> (r: bool)
        ensures
            r == (self.valid && self.tag == tag),
    {
        self.valid && self.tag == tag
    }

    pub fn dirty(&self) -> (r: bool)
        ensures
            r == self.dirty,
    {
        self.dirty
    }

    /// Reads `len` bytes at offset `addr`, little-endian.
    pub fn read(&mut self, addr: usize, len: usize) -> (r: u64)
        requires
            old(self).wf(),
            len <= 8,
            addr + len <= LINE_BYTES,
        ensures
            final(self).wf(),
            r == le_value(old(self).data@.subrange(addr as int, addr + len)),
            final(self).lru == old(self).lru.wrapping_add(1),
            final(self).data@ == old(self).data@,
            final(self).valid == old(self).valid && final(self).dirty == old(self).dirty && final(self).tag == old(self).tag,
    {
        self.inc_lru();
        read_le(&self.data, addr, len)
    }

    /// Writes the low `len` bytes of `data` at offset `addr`, little-endian;
    /// the line becomes dirty.
    pub fn write(&mut self, addr: usize, data: u64, len: usize)
        requires
            old(self).wf(),
            len <= 8,
            addr + len <= LINE_BYTES,
        ensures
            final(self).wf(),
            final(self).data@ == splice(old(self).data@, addr as int, le_bytes(data as nat, len as nat)),
            final(self).dirty,
            final(self).lru == old(self).lru.wrapping_add(1),
            final(self).valid == old(self).valid && final(self).tag == old(self).tag,
    {
        proof {
            lemma_le_bytes_len(data as nat, len as nat);
        }
        self.inc_lru();
        write_le(&mut self.data, addr, data, len);
        self.dirty = true;
    }

    fn inc_lru(&mut self)
        ensures
            final(self).lru == old(self).lru.wrapping_add(1),
            final(self).data@ == old(self).data@,
            final(self).valid == old(self).valid && final(self).dirty == old(self).dirty && final(self).tag == old(self).tag,
    {
        self.lru = self.lru.wrapping_add(1);
    }

    /// Invalidates the line.
    pub fn clear(&mut self)
        ensures
            final(self).wf() == old(self).wf(),
            !final(self).valid && !final(self).dirty && final(self).lru == 0,
            final(self).tag == old(self).tag,
            final(self).data@ == old(self).data@,
    {
        self.valid = false;
        self.dirty = false;
        self.lru = 0;
    }
}

/// Reading back the bytes a write put in a line gives the value written,
/// cut to the bytes written.
pub proof fn lemma_line_write_then_read(line: Seq<u8>, addr: int, data: u64, len: nat)
    requires
        line.len() == LINE_BYTES,
        len <= 8,
        0 <= addr,
        addr + len <= LINE_BYTES,
    ensures
        le_value(splice(line, addr, le_bytes(data as nat, len)).subrange(addr, addr + len)) == data as nat % byte_weight(len),
        splice(line, addr, le_bytes(data as nat, len)).len() == LINE_BYTES,
{
    lemma_le_bytes_len(data as nat, len);
    assert(splice(line, addr, le_bytes(data as nat, len)).subrange(addr, addr + len) =~= le_bytes(data as nat, len));
    lemma_le_value_of_le_bytes(data as nat, len);
}

/// The mask of the low `len` bytes of a value (`1 <= len <= 8`).
pub open spec fn byte_mask(len: nat) -> u64 {
    if len == 1 {
        0xff
    } else if len == 2 {
        0xffff
    } else if len == 3 {
        0xff_ffff
    } else if len == 4 {
        0xffff_ffff
    } else if len == 5 {
        0xff_ffff_ffff
    } else if len == 6 {
        0xffff_ffff_ffff
    } else if len == 7 {
        0xff_ffff_ffff_ffff
    } else {
        u64::MAX
    }
}

/// After a write of the low `len` bytes of `data` at `addr` took line `l`
/// to `n`, a read there gives `data` masked to those bytes, and every other
/// byte of the line is as it was.
pub proof fn lemma_cache_line_write_read(l: CacheLine, n: CacheLine, addr: int, data: u64, len: nat)
    requires
        l.wf(),
        1 <= len <= 8,
        0 <= addr,
        addr + len <= LINE_BYTES,
        n.data@ == splice(l.data@, addr, le_bytes(data as nat, len)),
    ensures
        n.wf(),
        le_value(n.data@.subrange(addr, addr + len)) == (data & byte_mask(len)),
        forall|j: int| 0 <= j < LINE_BYTES && !(addr <= j < addr + len) ==> #[trigger] n.data@[j] == l.data@[j],
{
    lemma_line_write_then_read(l.data@, addr, data, len);
    lemma_byte_weight_values();
    lemma_le_bytes_len(data as nat, len);
    assert(data % 0x100 == data & 0xff && data % 0x1_0000 == data & 0xffff && data % 0x100_0000 == data & 0xff_ffff
        && data % 0x1_0000_0000 == data & 0xffff_ffff && data % 0x100_0000_0000 == data & 0xff_ffff_ffff
        && data % 0x1_0000_0000_0000 == data & 0xffff_ffff_ffff && data % 0x100_0000_0000_0000 == data & 0xff_ffff_ffff_ffff
        && data & u64::MAX == data) by (bit_vector);
    assert(data as nat % byte_weight(len) == (data & byte_mask(len)) as nat) by {
        if len == 1 {
        } else if len == 2 {
        } else if len == 3 {
        } else if len == 4 {
        } else if len == 5 {
        } else if len == 6 {
        } else if len == 7 {
        } else {
            assert(len == 8);
            assert(data as nat % 0x1_0000_0000_0000_0000nat == data as nat);
        }
    }
}

} // verus!
