//! What the debug module needs from the hart it debugs. The emulator's
//! machine, or any other hart model, implements this trait; the spec
//! functions are the hart's model, and each method states what it answers
//! and does in their terms.
use vstd::prelude::*;

verus! {

/// The hart side of the debug module interface.
pub trait DebugModuleSlave: Sized {
    /// The hart is in a state its methods can work on.
    spec fn ready(&self) -> bool;

    /// Whether the hart is halted.
    spec fn is_halted(&self) -> bool;

    /// Whether the hart has been reset since that was last acknowledged.
    spec fn has_reset(&self) -> bool;

    /// Whether the hart acknowledged the last resume request.
    spec fn resume_acked(&self) -> bool;

    /// General register `regno`.
    spec fn gpr_of(&self, regno: usize) -> u64;

    /// CSR `csr`, read without a permission check.
    spec fn csr_of(&self, csr: usize) -> u64;

    /// `n` is the hart after general register `regno` was written with `value`.
    spec fn gpr_written_to(&self, n: Self, regno: usize, value: u64) -> bool;

    /// `n` is the hart after CSR `csr` was written with `value`.
    spec fn csr_written_to(&self, n: Self, csr: usize, value: u64) -> bool;

    /// `n` is the hart after a physical memory read of `length` bytes at
    /// `address` that answered `r`.
    spec fn memory_read(&self, n: Self, address: u64, length: usize, r: Option<u64>) -> bool;

    /// `n` is the hart after a physical memory write of `value` (`length`
    /// bytes at `address`) that answered `r`.
    spec fn memory_written(&self, n: Self, address: u64, length: usize, value: u64, r: Option<u64>) -> bool;

    /// `n` is the hart with its halt request set to `val`.
    spec fn haltreq_set(&self, n: Self, val: bool) -> bool;

    /// `n` is the hart asked to resume.
    spec fn resume_requested(&self, n: Self) -> bool;

    /// `n` is the hart with its reset request set to `val`.
    spec fn reset_req_set(&self, n: Self, val: bool) -> bool;

    /// `n` is the hart with its have-reset flag acknowledged.
    spec fn havereset_cleared(&self, n: Self) -> bool;

    /// The hart id, read from the `mhartid` CSR.
    fn hart_id(&mut self) -> (r: usize)
        requires
            old(self).ready(),
        ensures
            *final(self) == *old(self),
            r == old(self).csr_of(0xf14) as usize,
    {
        // CSR_MHARTID is 0xf14
        self.read_csr(0xf14) as usize
    }

    fn read_gpr(&mut self, regno: usize) -> (r: u64)
        requires
            old(self).ready(),
        ensures
            *final(self) == *old(self),
            r == old(self).gpr_of(regno),
    ;

    fn write_gpr(&mut self, regno: usize, value: u64)
        requires
            old(self).ready(),
        ensures
            final(self).ready(),
            old(self).gpr_written_to(*final(self), regno, value),
    ;

    /// A physical memory read.
    fn read_memory(&mut self, address: u64, length: usize) -> (r: Option<u64>)
        requires
            old(self).ready(),
        ensures
            final(self).ready(),
            old(self).memory_read(*final(self), address, length, r),
    ;

    /// A physical memory write.
    fn write_memory(&mut self, address: u64, length: usize, value: u64) -> (r: Option<u64>)
        requires
            old(self).ready(),
        ensures
            final(self).ready(),
            old(self).memory_written(*final(self), address, length, value, r),
    ;

    fn read_csr(&mut self, csr_addr: usize) -> (r: u64)
        requires
            old(self).ready(),
        ensures
            *final(self) == *old(self),
            r == old(self).csr_of(csr_addr),
    ;

    fn write_csr(&mut self, csr_addr: usize, value: u64)
        requires
            old(self).ready(),
        ensures
            final(self).ready(),
            old(self).csr_written_to(*final(self), csr_addr, value),
    ;

    fn set_haltreq(&mut self, val: bool)
        requires
            old(self).ready(),
        ensures
            final(self).ready(),
            old(self).haltreq_set(*final(self), val),
    ;

    fn resumereq(&mut self)
        requires
            old(self).ready(),
        ensures
            final(self).ready(),
            old(self).resume_requested(*final(self)),
    ;

    fn halted(&mut self) -> (r: bool)
        requires
            old(self).ready(),
        ensures
            *final(self) == *old(self),
            r == old(self).is_halted(),
    ;

    fn running(&mut self) -> (r: bool)
        requires
            old(self).ready(),
        ensures
            *final(self) == *old(self),
            r == !old(self).is_halted(),
    {
        !self.halted()
    }

    fn resume_ack(&mut self) -> (r: bool)
        requires
            old(self).ready(),
        ensures
            *final(self) == *old(self),
            r == old(self).resume_acked(),
    ;

    fn set_reset_req(&mut self, val: bool)
        requires
            old(self).ready(),
        ensures
            final(self).ready(),
            old(self).reset_req_set(*final(self), val),
    ;

    fn havereset(&mut self) -> (r: bool)
        requires
            old(self).ready(),
        ensures
            *final(self) == *old(self),
            r == old(self).has_reset(),
    ;

    fn clear_havereset(&mut self)
        requires
            old(self).ready(),
        ensures
            final(self).ready(),
            old(self).havereset_cleared(*final(self)),
    ;
}

} // verus!
