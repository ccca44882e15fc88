//! A minimal core-local timer: `mtime` and one `mtimecmp`, with the timer
//! interrupt pending while `mtime >= mtimecmp`.
use vstd::prelude::*;

verus! {

pub const MTIMECMP_OFFSET: u64 = 0x4000;
pub const MTIME_OFFSET: u64 = 0xBFF8;
pub const MSIP_OFFSET: u64 = 0x0;

pub struct DeviceClint {
    pub start: u64,
    pub len: u64,
    pub instance: Clint,
    pub name: &'static str,
}

pub struct Clint {
    pub mtime: u64,
    /// The `mtimecmp` register.
    pub compare: u64,
}

/// The accesses the timer answers: a 4-byte read of `msip`, 8-byte accesses
/// of `mtime` and `mtimecmp`.
pub open spec fn timer_read_ok(addr: u64, len: usize) -> bool {
    (addr == MSIP_OFFSET && len == 4) || ((addr == MTIME_OFFSET || addr == MTIMECMP_OFFSET) && len == 8)
}

pub open spec fn timer_write_ok(addr: u64, len: usize) -> bool {
    (addr == MTIME_OFFSET || addr == MTIMECMP_OFFSET) && len == 8
}

impl Clint {
    pub fn new() -> (r: Self)
        ensures
            r.mtime == 0,
            r.compare == 0,
    {
        Clint { mtime: 0, compare: 0 }
    }

    /// Reads a register: `msip` reads 0.
    pub fn do_read(&self, addr: u64, len: usize) -> (r: u64)
        requires
            timer_read_ok(addr, len),
        ensures
            r == (if addr == MTIME_OFFSET { self.mtime } else if addr == MTIMECMP_OFFSET { self.compare } else { 0 }),
    {
        if addr == MTIME_OFFSET {
            self.mtime
        } else if addr == MTIMECMP_OFFSET {
            self.compare
        } else {
            0
        }
    }

    /// Writes `mtime` or `mtimecmp`; returns the value written.
    pub fn do_write(&mut self, addr: u64, data: u64, len: usize) -> (r: u64)
        requires
            timer_write_ok(addr, len),
        ensures
            r == data,
            addr == MTIME_OFFSET ==> final(self).mtime == data && final(self).compare == old(self).compare,
            addr == MTIMECMP_OFFSET ==> final(self).compare == data && final(self).mtime == old(self).mtime,
    {
        if addr == MTIME_OFFSET {
            self.mtime = data;
        } else {
            self.compare = data;
        }
        data
    }

    /// Advances `mtime` by two.
    pub fn do_update(&mut self)
        requires
            old(self).mtime + 2 <= u64::MAX,
        ensures
            final(self).mtime == old(self).mtime + 2,
            final(self).compare == old(self).compare,
    {
        self.mtime = self.mtime + 2;
    }

    pub fn is_interrupt(&self) -> (r: bool)
        ensures
            r == (self.mtime >= self.compare),
    {
        self.mtime >= self.compare
    }
}

} // verus!
