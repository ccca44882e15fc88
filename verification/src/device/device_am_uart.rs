//! A write-only character port: each byte written is queued for output.
use vstd::prelude::*;
use super::device_trait::{DeviceBase, bytewise_read, bytewise_write};
use crate::tools::FifoUnbounded;

verus! {

pub struct DeviceUart {
    /// The bytes written, oldest first, until the host takes them.
    pub txfifo: FifoUnbounded,
}

impl View for DeviceUart {
    type V = Seq<u8>;

    open spec fn view(&self) -> Seq<u8> {
        self.txfifo@
    }
}

impl DeviceUart {
    pub fn new(uart_tx: FifoUnbounded) -> (r: Self)
        ensures
            r@ == uart_tx@,
    {
        DeviceUart { txfifo: uart_tx }
    }
}

impl DeviceUart {
    /// Byte-wise writes into the port.
    pub open spec fn copy_from_model(m: Seq<u8>, addr: u64, bytes: Seq<u8>) -> (bool, Seq<u8>) {
        bytewise_write(m, addr, bytes, |m: Seq<u8>, a: u64, d: u64| Self::write_ok(m, a, d, 1),
            |m: Seq<u8>, a: u64, d: u64| Self::write_result(m, a, d, 1).0)
    }

    /// Byte-wise reads of the port.
    pub open spec fn copy_to_model(m: Seq<u8>, addr: u64, n: nat) -> (bool, Seq<u8>, Seq<u8>) {
        bytewise_read(m, addr, n, |m: Seq<u8>, a: u64| Self::read_ok(m, a, 1), |m: Seq<u8>, a: u64| Self::read_result(m, a, 1))
    }
}

impl DeviceBase for DeviceUart {
    /// The port cannot be read.
    open spec fn read_ok(m: Seq<u8>, addr: u64, len: usize) -> bool {
        false
    }

    open spec fn read_result(m: Seq<u8>, addr: u64, len: usize) -> (Seq<u8>, u64) {
        (m, 0)
    }

    /// One byte at offset 0.
    open spec fn write_ok(m: Seq<u8>, addr: u64, data: u64, len: usize) -> bool {
        len == 1 && addr == 0
    }

    /// The low byte of `data` is queued; the write answers 0.
    open spec fn write_result(m: Seq<u8>, addr: u64, data: u64, len: usize) -> (Seq<u8>, u64) {
        (m.push(data as u8), 0)
    }

    open spec fn update_result(m: Seq<u8>) -> Seq<u8> {
        m
    }

    open spec fn copy_from_ok(m: Seq<u8>, addr: u64, bytes: Seq<u8>) -> bool {
        Self::copy_from_model(m, addr, bytes).0
    }

    open spec fn copy_from_result(m: Seq<u8>, addr: u64, bytes: Seq<u8>) -> Seq<u8> {
        Self::copy_from_model(m, addr, bytes).1
    }

    open spec fn copy_to_ok(m: Seq<u8>, addr: u64, n: nat) -> bool {
        Self::copy_to_model(m, addr, n).0
    }

    open spec fn copy_to_result(m: Seq<u8>, addr: u64, n: nat) -> (Seq<u8>, Seq<u8>) {
        (Self::copy_to_model(m, addr, n).1, Self::copy_to_model(m, addr, n).2)
    }

    proof fn lemma_copy_from_unfold(m: Seq<u8>, addr: u64, bytes: Seq<u8>) {
    }

    proof fn lemma_copy_to_unfold(m: Seq<u8>, addr: u64, n: nat) {
    }

    fn can_read(&self, addr: u64, len: usize) -> (r: bool) {
        false
    }

    fn can_write(&self, addr: u64, data: u64, len: usize) -> (r: bool) {
        len == 1 && addr == 0
    }

    fn can_copy_from(&self, addr: u64, slice: &[u8]) -> (r: bool) {
        // Only a single byte at offset 0 goes through byte by byte.
        proof {
            reveal_with_fuel(bytewise_write, 3);
        }
        slice.len() == 0 || (slice.len() == 1 && addr == 0)
    }

    fn can_copy_to(&self, addr: u64, len: usize) -> (r: bool) {
        proof {
            reveal_with_fuel(bytewise_read, 2);
        }
        len == 0
    }

    fn do_read(&mut self, addr: u64, len: usize) -> (r: u64) {
        0
    }

    fn do_write(&mut self, addr: u64, data: u64, len: usize) -> (r: u64) {
        self.txfifo.push(data as u8);
        0
    }

    fn get_name(&self) -> &'static str {
        "AM_UART"
    }

    fn do_update(&mut self) {
    }
}

} // verus!
