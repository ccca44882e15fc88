//! The difftest interface: a harness reads and sets the registers, the pc,
//! the CSRs and memory of a hart, and raises interrupts in it.
use vstd::prelude::*;
use crate::rv64core::bus::{Bus, bus_read_ok, bus_write_ok, bus_read_post, bus_write_post};
use crate::rv64core::cpu_core::{CpuCore, interrupt_entry, interrupt_entry_defined};
use crate::rv64core::csr_regs::{CSR_SLOTS, SLOT_XIP};
use crate::rv64core::csr_regs_define::Csr;
use crate::rv64core::gpr::{gpr_value, gpr_written};
use crate::rv64core::inst::inst_exec::same_but_gpr;
use crate::rv64core::inst_base::RVerr;
use crate::device::device_trait::DeviceBase;

verus! {

/// What a difftest harness reads and sets in a hart. Memory is the bus the
/// hart works on, handed to the two memory methods.
pub trait Difftest {
    /// Whether the hart's CSRs are well formed.
    spec fn csrs_ready(&self) -> bool;

    /// Whether the CSR at `csr` takes `val` from the harness.
    spec fn csr_takes(&self, csr: u64, val: u64) -> bool;

    /// Whether interrupt line `irq` can be raised and the interrupt then
    /// pending taken.
    spec fn intr_takes(&self, irq: u64) -> bool;

    fn set_reg(&mut self, idx: usize, val: u64)
        requires
            idx < 32,
    ;

    fn get_reg(&self, idx: usize) -> u64
        requires
            idx < 32,
    ;

    fn get_pc(&self) -> u64;

    fn set_pc(&mut self, pc: u64);

    fn raise_intr(&mut self, irq: u64)
        requires
            old(self).intr_takes(irq),
    ;

    fn set_csr(&mut self, csr: u64, val: u64)
        requires
            old(self).csrs_ready(),
            old(self).csr_takes(csr, val),
    ;

    fn get_csr(&mut self, csr: u64) -> u64
        requires
            old(self).csrs_ready(),
    ;

    fn set_mem<D: DeviceBase>(&mut self, bus: &mut Bus<D>, paddr: u64, data: u64, len: usize)
        requires
            bus_write_ok(*old(bus), paddr, data, len),
    ;

    fn get_mem<D: DeviceBase>(&self, bus: &mut Bus<D>, paddr: u64, len: usize) -> u64
        requires
            bus_read_ok(*old(bus), paddr, len),
    ;
}

/// The CSR file `f` with interrupt line `irq` raised in `mip`.
pub open spec fn with_irq(f: Seq<u64>, irq: u64) -> Seq<u64> {
    f.update(SLOT_XIP as int, f[SLOT_XIP as int] | (1u64 << irq))
}

impl Difftest for CpuCore {
    open spec fn csrs_ready(&self) -> bool {
        self.csr_regs.wf()
    }

    open spec fn csr_takes(&self, csr: u64, val: u64) -> bool {
        csr < 4096 && self.csr_regs.entries().dom().contains(csr) ==> self.csr_regs.entries()[csr].write_ok(val)
    }

    open spec fn intr_takes(&self, irq: u64) -> bool {
        &&& irq < 64
        &&& self.csr_regs.file@.len() == CSR_SLOTS
        &&& interrupt_entry_defined(with_irq(self.csr_regs.file@, irq), self.cur_priv)
    }

    /// Writes general register `idx` (a write to `x0` is dropped).
    fn set_reg(&mut self, idx: usize, val: u64)
        ensures
            same_but_gpr(*old(self), *final(self)),
            final(self).gpr@ == gpr_written(old(self).gpr@, idx as int, val),
    {
        self.gpr.write(idx as u64, val)
    }

    /// Reads general register `idx`.
    fn get_reg(&self, idx: usize) -> (r: u64)
        ensures
            r == gpr_value(self.gpr@, idx as int),
    {
        self.gpr.read(idx as u64)
    }

    /// The pc of the current instruction.
    fn get_pc(&self) -> (r: u64)
        ensures
            r == self.pc,
    {
        self.pc
    }

    /// Sets the pc of the next instruction.
    fn set_pc(&mut self, pc: u64)
        ensures
            *final(self) == (CpuCore { npc: pc, ..*old(self) }),
    {
        self.npc = pc;
    }

    /// Raises interrupt line `irq` in `mip` and takes the pending interrupt
    /// of highest priority, if one is enabled.
    fn raise_intr(&mut self, irq: u64)
        ensures
            exists|mid: CpuCore| {
                &&& mid.csr_regs.file@ == with_irq(old(self).csr_regs.file@, irq)
                &&& mid.csr_regs.entries() == old(self).csr_regs.entries()
                &&& mid.gpr == old(self).gpr && mid.pc == old(self).pc && mid.npc == old(self).npc
                &&& mid.cur_priv == old(self).cur_priv && mid.cpu_state == old(self).cpu_state
                &&& mid.hart_id == old(self).hart_id && mid.debug_state == old(self).debug_state
                &&& mid.icache == old(self).icache && mid.mmu == old(self).mmu
                &&& #[trigger] interrupt_entry(mid, *final(self))
            },
    {
        let xip = self.csr_regs.file.get(SLOT_XIP);
        self.csr_regs.file.set(SLOT_XIP, xip | (1u64 << irq));
        let ghost mid = *self;
        assert(mid.csr_regs.file@ == with_irq(old(self).csr_regs.file@, irq));
        self.handle_interrupt();
    }

    /// Writes a CSR without a permission check; an address with no CSR is
    /// ignored.
    fn set_csr(&mut self, csr: u64, val: u64)
        ensures
            final(self).csr_regs.wf(),
            final(self).csr_regs.entries() == old(self).csr_regs.entries(),
            final(self).csr_regs.file@ == (if csr < 4096 && old(self).csr_regs.entries().dom().contains(csr) {
                old(self).csr_regs.entries()[csr].write_of(old(self).csr_regs.file@, val)
            } else {
                old(self).csr_regs.file@
            }),
            final(self).gpr == old(self).gpr && final(self).pc == old(self).pc && final(self).npc == old(self).npc,
            final(self).cur_priv == old(self).cur_priv && final(self).cpu_state == old(self).cpu_state,
            final(self).hart_id == old(self).hart_id && final(self).debug_state == old(self).debug_state,
            final(self).icache == old(self).icache && final(self).mmu == old(self).mmu,
    {
        if csr < 4096 {
            self.csr_regs.write_raw(csr, val);
        }
    }

    /// Reads a CSR without a permission check; an address with no CSR reads 0.
    fn get_csr(&mut self, csr: u64) -> (r: u64)
        ensures
            *final(self) == *old(self),
            r == (if csr < 4096 && old(self).csr_regs.entries().dom().contains(csr) {
                old(self).csr_regs.entries()[csr].read_of(old(self).csr_regs.file@)
            } else {
                0
            }),
    {
        if csr < 4096 {
            self.csr_regs.read_raw(csr)
        } else {
            0
        }
    }

    /// Writes the low `len` bytes of `data` at physical address `paddr`; a
    /// failed write is ignored.
    fn set_mem<D: DeviceBase>(&mut self, bus: &mut Bus<D>, paddr: u64, data: u64, len: usize)
        ensures
            *final(self) == *old(self),
            exists|r: Result<u64, RVerr>| #[trigger] bus_write_post(*old(bus), *final(bus), paddr, data, len, r),
    {
        let _ = bus.write(paddr, data, len);
    }

    /// Reads `len` bytes at physical address `paddr`; a failed read gives 0.
    fn get_mem<D: DeviceBase>(&self, bus: &mut Bus<D>, paddr: u64, len: usize) -> (v: u64)
        ensures
            exists|r: Result<u64, RVerr>| #[trigger] bus_read_post(*old(bus), *final(bus), paddr, len, r)
                && v == (match r {
                    Ok(x) => x,
                    Err(_) => 0,
                }),
    {
        match bus.read(paddr, len) {
            Ok(x) => x,
            Err(_) => 0,
        }
    }
}

} // verus!
