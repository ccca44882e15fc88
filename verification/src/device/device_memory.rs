//! Plain memory: a byte array read and written little-endian.
use vstd::prelude::*;
use crate::le_bytes::{le_value, le_bytes, read_le, write_le, lemma_le_bytes_len};
use super::device_trait::{DeviceBase, splice};

verus! {

/// Memory that answers every access inside its bytes.
pub struct DeviceMemory {
    pub data: Vec<u8>,
}

impl View for DeviceMemory {
    type V = Seq<u8>;

    open spec fn view(&self) -> Seq<u8> {
        self.data@
    }
}

/// Accesses of `len <= 8` bytes inside a memory of `size` bytes.
pub open spec fn mem_access_ok(size: nat, addr: u64, len: usize) -> bool {
    len <= 8 && addr + len <= size
}

/// The value read from memory `m`.
pub open spec fn mem_read(m: Seq<u8>, addr: u64, len: usize) -> u64 {
    le_value(m.subrange(addr as int, addr + len)) as u64
}

/// Memory `m` after a write.
pub open spec fn mem_write(m: Seq<u8>, addr: u64, data: u64, len: usize) -> Seq<u8> {
    splice(m, addr as int, le_bytes(data as nat, len as nat))
}

/// A one-byte write to memory `m` stores the byte in place.
pub proof fn lemma_mem_write_byte(m: Seq<u8>, addr: u64, b: u8)
    requires
        addr + 1 <= m.len(),
    ensures
        mem_write(m, addr, b as u64, 1) == m.update(addr as int, b),
{
    reveal_with_fuel(le_bytes, 2);
    assert(le_bytes(b as u64 as nat, 1) == seq![b]);
    assert(mem_write(m, addr, b as u64, 1) == m.update(addr as int, b));
}

/// Byte-wise copies of `len` bytes from `addr` stay inside memory of `size`
/// bytes and inside the address space.
pub open spec fn mem_copy_ok(size: nat, addr: u64, len: nat) -> bool {
    len == 0 || (addr + len <= size && (len > 1 ==> addr + len <= u64::MAX + 1))
}

/// Copying bytes out of memory where bytes were just copied in gives
/// them back, and leaves the memory as the copy in left it.
pub proof fn lemma_mem_copy_round_trip(m: Seq<u8>, addr: u64, bytes: Seq<u8>)
    requires
        DeviceMemory::copy_from_ok(m, addr, bytes),
    ensures
        DeviceMemory::copy_to_ok(DeviceMemory::copy_from_result(m, addr, bytes), addr, bytes.len()),
        DeviceMemory::copy_to_result(DeviceMemory::copy_from_result(m, addr, bytes), addr, bytes.len())
            == (DeviceMemory::copy_from_result(m, addr, bytes), bytes),
{
    let n = DeviceMemory::copy_from_result(m, addr, bytes);
    if bytes.len() > 0 {
        assert(n.len() == m.len());
        assert(n.subrange(addr as int, addr + bytes.len()) =~= bytes);
    } else {
        assert(bytes =~= Seq::<u8>::empty());
    }
}

/// A one-byte read of memory `m` is the byte in place.
pub proof fn lemma_mem_read_byte(m: Seq<u8>, addr: u64)
    requires
        addr + 1 <= m.len(),
    ensures
        mem_read(m, addr, 1) == m[addr as int],
{
    reveal_with_fuel(le_value, 2);
    let s = m.subrange(addr as int, addr + 1);
    assert(s.drop_first() == Seq::<u8>::empty());
}

impl DeviceMemory {
    /// A memory of `size` zero bytes.
    pub fn new(size: usize) -> (r: Self)
        ensures
            r@ == Seq::new(size as nat, |i: int| 0u8),
    {
        let datavec: Vec<u8> = vec![0u8; size];
        DeviceMemory { data: datavec }
    }

    /// A memory holding the bytes `data`.
    pub fn from_boxed_slice(data: Box<[u8]>) -> (r: Self)
        ensures
            r@ == data@,
    {
        DeviceMemory { data: data.into_vec() }
    }

    pub fn size(&self) -> (r: usize)
        ensures
            r == self@.len(),
    {
        self.data.len()
    }

    /// Loads `slice` at the start of memory.
    pub fn load_binary(&mut self, slice: &[u8])
        requires
            slice@.len() <= old(self)@.len(),
        ensures
            final(self)@ == splice(old(self)@, 0, slice@),
    {
        let _size = self.data.len();
        self.copy_from_slice(0, slice);
        assert(slice@.len() == 0 ==> splice(old(self)@, 0, slice@) == old(self)@);
    }
}

impl DeviceBase for DeviceMemory {
    open spec fn read_ok(m: Seq<u8>, addr: u64, len: usize) -> bool {
        mem_access_ok(m.len(), addr, len)
    }

    open spec fn read_result(m: Seq<u8>, addr: u64, len: usize) -> (Seq<u8>, u64) {
        (m, mem_read(m, addr, len))
    }

    open spec fn write_ok(m: Seq<u8>, addr: u64, data: u64, len: usize) -> bool {
        mem_access_ok(m.len(), addr, len)
    }

    open spec fn write_result(m: Seq<u8>, addr: u64, data: u64, len: usize) -> (Seq<u8>, u64) {
        (mem_write(m, addr, data, len), data)
    }

    open spec fn update_result(m: Seq<u8>) -> Seq<u8> {
        m
    }

    open spec fn copy_from_ok(m: Seq<u8>, addr: u64, bytes: Seq<u8>) -> bool {
        mem_copy_ok(m.len(), addr, bytes.len())
    }

    open spec fn copy_from_result(m: Seq<u8>, addr: u64, bytes: Seq<u8>) -> Seq<u8> {
        if bytes.len() == 0 { m } else { splice(m, addr as int, bytes) }
    }

    open spec fn copy_to_ok(m: Seq<u8>, addr: u64, n: nat) -> bool {
        mem_copy_ok(m.len(), addr, n)
    }

    open spec fn copy_to_result(m: Seq<u8>, addr: u64, n: nat) -> (Seq<u8>, Seq<u8>) {
        if n == 0 { (m, Seq::empty()) } else { (m, m.subrange(addr as int, addr + n)) }
    }

    proof fn lemma_copy_from_unfold(m: Seq<u8>, addr: u64, bytes: Seq<u8>) {
        if bytes.len() > 0 && addr + 1 <= m.len() {
            lemma_mem_write_byte(m, addr, bytes[0]);
            if addr + bytes.len() <= m.len() {
                assert(splice(m.update(addr as int, bytes[0]), addr + 1, bytes.drop_first()) == splice(m, addr as int, bytes));
                if bytes.len() == 1 {
                    assert(splice(m, addr as int, bytes) == m.update(addr as int, bytes[0]));
                }
            }
        }
    }

    proof fn lemma_copy_to_unfold(m: Seq<u8>, addr: u64, n: nat) {
        if n > 0 && addr + n <= m.len() {
            lemma_mem_read_byte(m, addr);
            assert(seq![m[addr as int]] + m.subrange(addr + 1, addr + n) == m.subrange(addr as int, addr + n));
            if n == 1 {
                assert(m.subrange(addr + 1, addr + 1) == Seq::<u8>::empty());
            }
        }
    }

    fn can_copy_from(&self, addr: u64, slice: &[u8]) -> (r: bool) {
        slice.len() == 0 || (addr <= self.data.len() as u64 && slice.len() as u64 <= self.data.len() as u64 - addr)
    }

    fn can_copy_to(&self, addr: u64, len: usize) -> (r: bool) {
        len == 0 || (addr <= self.data.len() as u64 && len as u64 <= self.data.len() as u64 - addr)
    }

    fn can_read(&self, addr: u64, len: usize) -> (r: bool) {
        len <= 8 && addr <= self.data.len() as u64 && len as u64 <= self.data.len() as u64 - addr
    }

    fn can_write(&self, addr: u64, data: u64, len: usize) -> (r: bool) {
        len <= 8 && addr <= self.data.len() as u64 && len as u64 <= self.data.len() as u64 - addr
    }

    fn do_read(&mut self, addr: u64, len: usize) -> (r: u64) {
        let size = self.data.len();
        assert(addr <= size);
        read_le(&self.data, addr as usize, len)
    }

    fn do_write(&mut self, addr: u64, data: u64, len: usize) -> (r: u64) {
        proof {
            lemma_le_bytes_len(data as nat, len as nat);
        }
        let size = self.data.len();
        assert(addr <= size);
        write_le(&mut self.data, addr as usize, data, len);
        data
    }

    fn copy_from_slice(&mut self, addr: u64, slice: &[u8]) {
        if slice.len() == 0 {
            return;
        }
        let size = self.data.len();
        assert(addr <= size);
        let base = addr as usize;
        let mut i: usize = 0;
        while i < slice.len()
            invariant
                0 <= i <= slice@.len(),
                base == addr,
                base + slice@.len() <= self.data@.len(),
                size == self.data@.len(),
                self.data@.len() == old(self).data@.len(),
                forall|j: int| 0 <= j < base || base + i <= j < self.data@.len() ==> self.data@[j] == old(self).data@[j],
                forall|j: int| base <= j < base + i ==> self.data@[j] == slice@[j - base],
            decreases slice@.len() - i,
        {
            self.data.set(base + i, slice[i]);
            i = i + 1;
        }
        assert(self.data@ == splice(old(self).data@, addr as int, slice@));
    }

    fn copy_to_slice(&mut self, addr: u64, slice: &mut [u8]) {
        if slice.len() == 0 {
            return;
        }
        let size = self.data.len();
        assert(addr <= size);
        let base = addr as usize;
        let mut i: usize = 0;
        while i < slice.len()
            invariant
                0 <= i <= slice@.len(),
                slice@.len() == old(slice)@.len(),
                base == addr,
                base + slice@.len() <= self.data@.len(),
                size == self.data@.len(),
                self.data@ == old(self).data@,
                forall|j: int| 0 <= j < i ==> slice@[j] == self.data@[base + j],
            decreases slice@.len() - i,
        {
            slice[i] = self.data[base + i];
            i = i + 1;
        }
        assert(slice@ == self.data@.subrange(addr as int, addr + slice@.len()));
    }

    fn get_name(&self) -> &'static str {
        "memory"
    }

    fn do_update(&mut self) {
    }
}

} // verus!
