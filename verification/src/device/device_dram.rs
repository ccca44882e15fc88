//! DRAM: memory of a fixed capacity, read and written little-endian.
use vstd::prelude::*;
use crate::le_bytes::{read_le, write_le, lemma_le_bytes_len};
use super::device_trait::{DeviceBase, splice};
use super::device_memory::{mem_read, mem_write, lemma_mem_read_byte, lemma_mem_write_byte};

verus! {

pub struct DeviceDram {
    pub data: Vec<u8>,
    pub capacity: usize,
}

impl View for DeviceDram {
    type V = Seq<u8>;

    open spec fn view(&self) -> Seq<u8> {
        self.data@
    }
}

impl DeviceDram {
    /// A DRAM of `size` zero bytes.
    pub fn new(size: usize) -> (r: Self)
        ensures
            r@ == Seq::new(size as nat, |i: int| 0u8),
            r.capacity == size,
    {
        let datavec: Vec<u8> = vec![0u8; size];
        DeviceDram { data: datavec, capacity: size }
    }
}

impl DeviceBase for DeviceDram {
    open spec fn read_ok(m: Seq<u8>, addr: u64, len: usize) -> bool {
        len <= 8 && addr + len <= m.len()
    }

    open spec fn read_result(m: Seq<u8>, addr: u64, len: usize) -> (Seq<u8>, u64) {
        (m, mem_read(m, addr, len))
    }

    open spec fn write_ok(m: Seq<u8>, addr: u64, data: u64, len: usize) -> bool {
        len <= 8 && addr + len <= m.len()
    }

    open spec fn write_result(m: Seq<u8>, addr: u64, data: u64, len: usize) -> (Seq<u8>, u64) {
        (mem_write(m, addr, data, len), data)
    }

    open spec fn update_result(m: Seq<u8>) -> Seq<u8> {
        m
    }

    open spec fn copy_from_ok(m: Seq<u8>, addr: u64, bytes: Seq<u8>) -> bool {
        bytes.len() == 0 || (addr + bytes.len() <= m.len() && (bytes.len() > 1 ==> addr + bytes.len() <= u64::MAX + 1))
    }

    open spec fn copy_from_result(m: Seq<u8>, addr: u64, bytes: Seq<u8>) -> Seq<u8> {
        if bytes.len() == 0 { m } else { splice(m, addr as int, bytes) }
    }

    open spec fn copy_to_ok(m: Seq<u8>, addr: u64, n: nat) -> bool {
        n == 0 || (addr + n <= m.len() && (n > 1 ==> addr + n <= u64::MAX + 1))
    }

    open spec fn copy_to_result(m: Seq<u8>, addr: u64, n: nat) -> (Seq<u8>, Seq<u8>) {
        if n == 0 { (m, Seq::empty()) } else { (m, m.subrange(addr as int, addr + n)) }
    }

    proof fn lemma_copy_from_unfold(m: Seq<u8>, addr: u64, bytes: Seq<u8>) {
        if bytes.len() > 0 {
            assert(Self::write_ok(m, addr, bytes[0] as u64, 1) == (addr + 1 <= m.len()));
            assert(Self::write_result(m, addr, bytes[0] as u64, 1).0 == mem_write(m, addr, bytes[0] as u64, 1));
        }
        if bytes.len() > 0 && addr + 1 <= m.len() {
            lemma_mem_write_byte(m, addr, bytes[0]);
            if addr + bytes.len() <= m.len() {
                assert(splice(m.update(addr as int, bytes[0]), addr + 1, bytes.drop_first()) == splice(m, addr as int, bytes));
                if bytes.len() == 1 {
                    assert(splice(m, addr as int, bytes) == m.update(addr as int, bytes[0]));
                }
            }
        }
    }

    proof fn lemma_copy_to_unfold(m: Seq<u8>, addr: u64, n: nat) {
        if n > 0 {
            assert(Self::read_ok(m, addr, 1) == (addr + 1 <= m.len()));
            assert(Self::read_result(m, addr, 1) == (m, mem_read(m, addr, 1)));
        }
        if n > 0 && addr + n <= m.len() {
            lemma_mem_read_byte(m, addr);
            assert(seq![m[addr as int]] + m.subrange(addr + 1, addr + n) == m.subrange(addr as int, addr + n));
            if n == 1 {
                assert(m.subrange(addr + 1, addr + 1) == Seq::<u8>::empty());
            }
        }
    }

    fn can_copy_from(&self, addr: u64, slice: &[u8]) -> (r: bool) {
        slice.len() == 0 || (addr <= self.data.len() as u64 && slice.len() as u64 <= self.data.len() as u64 - addr)
    }

    fn can_copy_to(&self, addr: u64, len: usize) -> (r: bool) {
        len == 0 || (addr <= self.data.len() as u64 && len as u64 <= self.data.len() as u64 - addr)
    }

    fn can_read(&self, addr: u64, len: usize) -> (r: bool) {
        len <= 8 && addr <= self.data.len() as u64 && len as u64 <= self.data.len() as u64 - addr
    }

    fn can_write(&self, addr: u64, data: u64, len: usize) -> (r: bool) {
        len <= 8 && addr <= self.data.len() as u64 && len as u64 <= self.data.len() as u64 - addr
    }

    fn do_read(&mut self, addr: u64, len: usize) -> (r: u64) {
        assert(Self::read_ok(self@, addr, len));
        assert(Self::read_result(self@, addr, len) == (self@, mem_read(self@, addr, len)));
        let size = self.data.len();
        assert(addr <= size);
        read_le(&self.data, addr as usize, len)
    }

    fn do_write(&mut self, addr: u64, data: u64, len: usize) -> (r: u64) {
        assert(Self::write_ok(self@, addr, data, len));
        assert(Self::write_result(self@, addr, data, len) == (mem_write(self@, addr, data, len), data));
        proof {
            lemma_le_bytes_len(data as nat, len as nat);
        }
        let size = self.data.len();
        assert(addr <= size);
        write_le(&mut self.data, addr as usize, data, len);
        data
    }

    fn get_name(&self) -> &'static str {
        "DRAM"
    }

    fn do_update(&mut self) {
    }
}

} // verus!
