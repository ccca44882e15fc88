//! The load-reserved / store-conditional reservation of the A extension.
use vstd::prelude::*;

verus! {

/// The reserved address; `u64::MAX` stands for no reservation.
pub struct LrScReservation {
    pub val: u64,
}

impl LrScReservation {
    pub fn new() -> (r: Self)
        ensures
            r.val == u64::MAX,
    {
        LrScReservation { val: u64::MAX }
    }

    /// Whether `addr` is the reserved address; the reservation is dropped either way.
    pub fn check_and_clear(&mut self, addr: u64) -> (r: bool)
        ensures
            r == (old(self).val == addr),
            final(self).val == u64::MAX,
    {
        let ret = self.val == addr;
        self.clear();
        ret
    }

    /// Reserves `addr`.
    pub fn set(&mut self, addr: u64)
        ensures
            final(self).val == addr,
    {
        self.val = addr;
    }

    pub fn clear(&mut self)
        ensures
            final(self).val == u64::MAX,
    {
        self.val = u64::MAX;
    }
}

} // verus!
