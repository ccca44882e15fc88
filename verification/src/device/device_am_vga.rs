//! The frame buffer of the AM VGA device: 400x300 pixels of four bytes,
//! read and written like memory; the display shows it.
use vstd::prelude::*;
use super::device_memory::DeviceMemory;
use super::device_trait::DeviceBase;

verus! {

pub const VGA_H: usize = 300;
pub const VGA_W: usize = 400;
pub const VGA_BUF_SIZE: usize = 480000;

pub struct DeviceVGA {
    pub pix_buff: DeviceMemory,
}

impl View for DeviceVGA {
    type V = Seq<u8>;

    open spec fn view(&self) -> Seq<u8> {
        self.pix_buff@
    }
}

impl DeviceVGA {
    /// A black frame buffer.
    pub fn new() -> (r: Self)
        ensures
            r@ == Seq::new(VGA_BUF_SIZE as nat, |i: int| 0u8),
    {
        DeviceVGA { pix_buff: DeviceMemory::new(VGA_BUF_SIZE) }
    }

    /// The size of the frame buffer in bytes (`VGA_W * VGA_H * 4`).
    pub fn get_size() -> (r: usize)
        ensures
            r == VGA_W * VGA_H * 4,
    {
        VGA_BUF_SIZE
    }

    /// Refreshes the display; the frame buffer itself does not change.
    pub fn updata_vga(&mut self)
        ensures
            final(self)@ == old(self)@,
    {
    }
}

impl DeviceBase for DeviceVGA {
    open spec fn read_ok(m: Seq<u8>, addr: u64, len: usize) -> bool {
        DeviceMemory::read_ok(m, addr, len)
    }

    open spec fn read_result(m: Seq<u8>, addr: u64, len: usize) -> (Seq<u8>, u64) {
        DeviceMemory::read_result(m, addr, len)
    }

    open spec fn write_ok(m: Seq<u8>, addr: u64, data: u64, len: usize) -> bool {
        DeviceMemory::write_ok(m, addr, data, len)
    }

    open spec fn write_result(m: Seq<u8>, addr: u64, data: u64, len: usize) -> (Seq<u8>, u64) {
        DeviceMemory::write_result(m, addr, data, len)
    }

    open spec fn update_result(m: Seq<u8>) -> Seq<u8> {
        m
    }

    open spec fn copy_from_ok(m: Seq<u8>, addr: u64, bytes: Seq<u8>) -> bool {
        DeviceMemory::copy_from_ok(m, addr, bytes)
    }

    open spec fn copy_from_result(m: Seq<u8>, addr: u64, bytes: Seq<u8>) -> Seq<u8> {
        DeviceMemory::copy_from_result(m, addr, bytes)
    }

    open spec fn copy_to_ok(m: Seq<u8>, addr: u64, n: nat) -> bool {
        DeviceMemory::copy_to_ok(m, addr, n)
    }

    open spec fn copy_to_result(m: Seq<u8>, addr: u64, n: nat) -> (Seq<u8>, Seq<u8>) {
        DeviceMemory::copy_to_result(m, addr, n)
    }

    proof fn lemma_copy_from_unfold(m: Seq<u8>, addr: u64, bytes: Seq<u8>) {
        DeviceMemory::lemma_copy_from_unfold(m, addr, bytes);
    }

    proof fn lemma_copy_to_unfold(m: Seq<u8>, addr: u64, n: nat) {
        DeviceMemory::lemma_copy_to_unfold(m, addr, n);
    }

    fn can_copy_from(&self, addr: u64, slice: &[u8]) -> (r: bool) {
        self.pix_buff.can_copy_from(addr, slice)
    }

    fn can_copy_to(&self, addr: u64, len: usize) -> (r: bool) {
        self.pix_buff.can_copy_to(addr, len)
    }

    fn can_read(&self, addr: u64, len: usize) -> (r: bool) {
        self.pix_buff.can_read(addr, len)
    }

    fn can_write(&self, addr: u64, data: u64, len: usize) -> (r: bool) {
        self.pix_buff.can_write(addr, data, len)
    }

    fn do_read(&mut self, addr: u64, len: usize) -> (r: u64) {
        self.pix_buff.do_read(addr, len)
    }

    fn do_write(&mut self, addr: u64, data: u64, len: usize) -> (r: u64) {
        self.pix_buff.do_write(addr, data, len)
    }

    fn copy_from_slice(&mut self, addr: u64, slice: &[u8]) {
        self.pix_buff.copy_from_slice(addr, slice)
    }

    fn copy_to_slice(&mut self, addr: u64, slice: &mut [u8]) {
        self.pix_buff.copy_to_slice(addr, slice)
    }

    fn get_name(&self) -> &'static str {
        "AM_VGA_FB"
    }

    fn do_update(&mut self) {
    }
}

} // verus!
