//! The AM real-time clock: a read of the low word latches the time, in
//! microseconds, and gives its low 32 bits; a read of the high word gives
//! the high 32 bits of the time last latched. The time itself is what the
//! host clock said when it was last handed to the device.
use vstd::prelude::*;
use super::device_trait::DeviceBase;

verus! {

pub struct DeviceRTC {
    /// The time latched by the last read of the low word.
    pub rtc_time: u64,
    /// The host time, in microseconds.
    pub clock: u64,
}

impl View for DeviceRTC {
    type V = (u64, u64);

    open spec fn view(&self) -> (u64, u64) {
        (self.rtc_time, self.clock)
    }
}


impl DeviceRTC {
    pub fn new() -> (r: Self)
        ensures
            r@ == (0u64, 0u64),
    {
        DeviceRTC { rtc_time: 0, clock: 0 }
    }

    /// Hands the device the host time, in microseconds.
    pub fn set_clock(&mut self, now: u64)
        ensures
            final(self)@ == (old(self)@.0, now),
    {
        self.clock = now;
    }
}

impl DeviceBase for DeviceRTC {
    // Four-byte reads of the low or the high word.
    open spec fn read_ok(m: (u64, u64), addr: u64, len: usize) -> bool {
        len == 4 && (addr == 0 || addr == 4)
    }

    open spec fn read_result(m: (u64, u64), addr: u64, len: usize) -> ((u64, u64), u64) {
        if addr == 0 {
            ((m.1, m.1), m.1 % 0x1_0000_0000)
        } else {
            (m, m.0 / 0x1_0000_0000)
        }
    }

    // The clock cannot be written.
    open spec fn write_ok(m: (u64, u64), addr: u64, data: u64, len: usize) -> bool {
        false
    }

    open spec fn write_result(m: (u64, u64), addr: u64, data: u64, len: usize) -> ((u64, u64), u64) {
        (m, 0)
    }

    open spec fn update_result(m: (u64, u64)) -> (u64, u64) {
        m
    }

    open spec fn copy_from_ok(m: (u64, u64), addr: u64, bytes: Seq<u8>) -> bool {
        bytes.len() == 0
    }

    open spec fn copy_from_result(m: (u64, u64), addr: u64, bytes: Seq<u8>) -> (u64, u64) {
        m
    }

    open spec fn copy_to_ok(m: (u64, u64), addr: u64, n: nat) -> bool {
        n == 0
    }

    open spec fn copy_to_result(m: (u64, u64), addr: u64, n: nat) -> ((u64, u64), Seq<u8>) {
        if n == 0 { (m, Seq::empty()) } else { (m, Seq::new(n, |i: int| 0u8)) }
    }

    proof fn lemma_copy_from_unfold(m: (u64, u64), addr: u64, bytes: Seq<u8>) {
        if bytes.len() > 0 {
            assert(!Self::write_ok(m, addr, bytes[0] as u64, 1));
            assert(!Self::copy_from_ok(m, addr, bytes));
        }
    }

    proof fn lemma_copy_to_unfold(m: (u64, u64), addr: u64, n: nat) {
        if n > 0 {
            assert(!Self::read_ok(m, addr, 1));
            assert(!Self::copy_to_ok(m, addr, n));
        }
    }

    fn can_copy_from(&self, addr: u64, slice: &[u8]) -> (r: bool) {
        slice.len() == 0
    }

    fn can_copy_to(&self, addr: u64, len: usize) -> (r: bool) {
        len == 0
    }

    fn can_read(&self, addr: u64, len: usize) -> (r: bool) {
        len == 4 && (addr == 0 || addr == 4)
    }

    fn can_write(&self, addr: u64, data: u64, len: usize) -> (r: bool) {
        false
    }

    fn do_read(&mut self, addr: u64, len: usize) -> (r: u64) {
        if addr == 0 {
            self.rtc_time = self.clock;
            let r = self.rtc_time % 0x1_0000_0000;
            assert((self@, r) == Self::read_result(old(self)@, addr, len));
            r
        } else {
            let r = self.rtc_time / 0x1_0000_0000;
            assert((self@, r) == Self::read_result(old(self)@, addr, len));
            r
        }
    }

    fn do_write(&mut self, addr: u64, data: u64, len: usize) -> (r: u64) {
        0
    }

    fn get_name(&self) -> &'static str {
        "RTC"
    }

    fn do_update(&mut self) {
    }
}

} // verus!
