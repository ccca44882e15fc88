//! The VGA control port: a write at offset 4 asks the host to redraw the screen.
use vstd::prelude::*;
use super::device_trait::{DeviceBase, bytewise_read, bytewise_write};

verus! {

pub struct DeviceVGACTL {
    /// Set by a write to the port; the host clears it once it has redrawn.
    pub tx: bool,
}

impl View for DeviceVGACTL {
    type V = bool;

    open spec fn view(&self) -> bool {
        self.tx
    }
}

impl DeviceVGACTL {
    pub fn new(tx: bool) -> (r: Self)
        ensures
            r@ == tx,
    {
        DeviceVGACTL { tx }
    }

    pub open spec fn copy_from_model(m: bool, addr: u64, bytes: Seq<u8>) -> (bool, bool) {
        bytewise_write(m, addr, bytes, |m: bool, a: u64, d: u64| Self::write_ok(m, a, d, 1),
            |m: bool, a: u64, d: u64| Self::write_result(m, a, d, 1).0)
    }

    pub open spec fn copy_to_model(m: bool, addr: u64, n: nat) -> (bool, bool, Seq<u8>) {
        bytewise_read(m, addr, n, |m: bool, a: u64| Self::read_ok(m, a, 1), |m: bool, a: u64| Self::read_result(m, a, 1))
    }
}

impl DeviceBase for DeviceVGACTL {
    open spec fn read_ok(m: bool, addr: u64, len: usize) -> bool {
        false
    }

    open spec fn read_result(m: bool, addr: u64, len: usize) -> (bool, u64) {
        (m, 0)
    }

    /// Four bytes at offset 4.
    open spec fn write_ok(m: bool, addr: u64, data: u64, len: usize) -> bool {
        addr == 4 && len == 4
    }

    open spec fn write_result(m: bool, addr: u64, data: u64, len: usize) -> (bool, u64) {
        (true, 0)
    }

    open spec fn update_result(m: bool) -> bool {
        m
    }

    open spec fn copy_from_ok(m: bool, addr: u64, bytes: Seq<u8>) -> bool {
        Self::copy_from_model(m, addr, bytes).0
    }

    open spec fn copy_from_result(m: bool, addr: u64, bytes: Seq<u8>) -> bool {
        Self::copy_from_model(m, addr, bytes).1
    }

    open spec fn copy_to_ok(m: bool, addr: u64, n: nat) -> bool {
        Self::copy_to_model(m, addr, n).0
    }

    open spec fn copy_to_result(m: bool, addr: u64, n: nat) -> (bool, Seq<u8>) {
        (Self::copy_to_model(m, addr, n).1, Self::copy_to_model(m, addr, n).2)
    }

    proof fn lemma_copy_from_unfold(m: bool, addr: u64, bytes: Seq<u8>) {
    }

    proof fn lemma_copy_to_unfold(m: bool, addr: u64, n: nat) {
    }

    fn can_read(&self, addr: u64, len: usize) -> (r: bool) {
        false
    }

    fn can_write(&self, addr: u64, data: u64, len: usize) -> (r: bool) {
        addr == 4 && len == 4
    }

    fn can_copy_from(&self, addr: u64, slice: &[u8]) -> (r: bool) {
        proof {
            reveal_with_fuel(bytewise_write, 2);
        }
        slice.len() == 0
    }

    fn can_copy_to(&self, addr: u64, len: usize) -> (r: bool) {
        proof {
            reveal_with_fuel(bytewise_read, 2);
        }
        len == 0
    }

    fn do_read(&mut self, addr: u64, len: usize) -> (r: u64) {
        0
    }

    fn do_write(&mut self, addr: u64, data: u64, len: usize) -> (r: u64) {
        self.tx = true;
        0
    }

    fn get_name(&self) -> &'static str {
        "VGA_CTL"
    }

    fn do_update(&mut self) {
    }
}

} // verus!
