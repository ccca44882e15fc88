//! The machine as the debug module sees it: its first hart (registers,
//! CSRs, run and debug state) and its bus (physical memory).
use vstd::prelude::*;
use crate::device::device_trait::DeviceBase;
use crate::rv64core::bus::{bus_read_ok, bus_read_post, bus_write_ok, bus_write_post};
use crate::rv64core::cpu_core::{CpuCore, CpuState, DebugState, Hart};
use crate::rv64core::csr_regs_define::Csr;
use crate::rv64core::gpr::{gpr_value, gpr_written, lemma_gpr_len, lemma_gpr_read_after_write};
use crate::bits::{field, flag, lemma_low_mask_values};
use super::debug_module::{abstract_action, abstract_command_effect, arg64, AbstractAction};
use crate::rv64core::inst::inst_exec::same_but_gpr;
use crate::rv64core::inst_base::RVerr;
use crate::rvsim::RVsim;
use super::dm_interface::DebugModuleSlave;

verus! {

/// `n` is the machine `s` with only the core of its first hart changed, to `c`.
pub open spec fn core0_now<D>(s: RVsim<D>, n: RVsim<D>, c: CpuCore) -> bool {
    &&& s.harts@.len() > 0
    &&& n.harts@ == s.harts@.update(0, Hart { cpu: c, decode: s.harts@[0].decode, links: s.harts@[0].links })
    &&& n.bus == s.bus
    &&& n.tohost == s.tohost && n.fromhost == s.fromhost
    &&& n.signature_range == s.signature_range && n.signature_file == s.signature_file
    &&& n.elf_symbols == s.elf_symbols
}

/// `n` is the machine `s` with only its bus changed.
pub open spec fn bus_only<D>(s: RVsim<D>, n: RVsim<D>) -> bool {
    &&& n.harts == s.harts
    &&& n.tohost == s.tohost && n.fromhost == s.fromhost
    &&& n.signature_range == s.signature_range && n.signature_file == s.signature_file
    &&& n.elf_symbols == s.elf_symbols
}

/// The answer of a bus access as the debug module takes it.
pub open spec fn answer_of(r: Result<u64, RVerr>) -> Option<u64> {
    match r {
        Ok(v) => Some(v),
        Err(_) => None,
    }
}

/// The core of the first hart with its debug flags `d`.
pub open spec fn with_debug(c: CpuCore, d: DebugState) -> CpuCore {
    CpuCore { debug_state: d, ..c }
}

impl<D: DeviceBase> RVsim<D> {
    /// The core of the first hart.
    pub open spec fn core0(&self) -> CpuCore {
        self.harts@[0].cpu
    }
}

impl<D: DeviceBase> DebugModuleSlave for RVsim<D> {
    open spec fn ready(&self) -> bool {
        self.harts@.len() > 0 ==> self.core0().csr_regs.wf()
    }

    open spec fn is_halted(&self) -> bool {
        self.harts@.len() > 0 && self.core0().cpu_state == CpuState::Haltd
    }

    open spec fn has_reset(&self) -> bool {
        self.harts@.len() > 0 && self.core0().debug_state.havereset
    }

    open spec fn resume_acked(&self) -> bool {
        self.harts@.len() > 0 && self.core0().debug_state.resumeack
    }

    open spec fn gpr_of(&self, regno: usize) -> u64 {
        if self.harts@.len() > 0 && regno < 32 { gpr_value(self.core0().gpr@, regno as int) } else { 0 }
    }

    open spec fn csr_of(&self, csr: usize) -> u64 {
        let r = self.core0().csr_regs;
        if self.harts@.len() > 0 && csr < 4096 && r.entries().dom().contains(csr as u64) {
            r.entries()[csr as u64].read_of(r.file@)
        } else {
            0
        }
    }

    open spec fn gpr_written_to(&self, n: Self, regno: usize, value: u64) -> bool {
        if self.harts@.len() > 0 && regno < 32 {
            &&& core0_now(*self, n, n.core0())
            &&& same_but_gpr(self.core0(), n.core0())
            &&& n.core0().gpr@ == gpr_written(self.core0().gpr@, regno as int, value)
        } else {
            n == *self
        }
    }

    open spec fn csr_written_to(&self, n: Self, csr: usize, value: u64) -> bool {
        let r = self.core0().csr_regs;
        let a = csr as u64;
        if self.harts@.len() > 0 && csr < 4096 && (r.entries().dom().contains(a) ==> r.entries()[a].write_ok(value)) {
            let c = n.core0();
            &&& core0_now(*self, n, c)
            &&& c.csr_regs.wf()
            &&& c.csr_regs.entries() == r.entries()
            &&& c.csr_regs.file@ == (if r.entries().dom().contains(a) { r.entries()[a].write_of(r.file@, value) } else { r.file@ })
            &&& c.gpr == self.core0().gpr && c.pc == self.core0().pc && c.npc == self.core0().npc
            &&& c.cur_priv == self.core0().cur_priv && c.cpu_state == self.core0().cpu_state
            &&& c.hart_id == self.core0().hart_id && c.debug_state == self.core0().debug_state
            &&& c.icache == self.core0().icache && c.mmu == self.core0().mmu
        } else {
            n == *self
        }
    }

    open spec fn memory_read(&self, n: Self, address: u64, length: usize, r: Option<u64>) -> bool {
        if bus_read_ok(self.bus, address, length) {
            &&& bus_only(*self, n)
            &&& exists|b: Result<u64, RVerr>| #[trigger] bus_read_post(self.bus, n.bus, address, length, b) && r == answer_of(b)
        } else {
            n == *self && r is None
        }
    }

    open spec fn memory_written(&self, n: Self, address: u64, length: usize, value: u64, r: Option<u64>) -> bool {
        if bus_write_ok(self.bus, address, value, length) {
            &&& bus_only(*self, n)
            &&& exists|b: Result<u64, RVerr>| #[trigger] bus_write_post(self.bus, n.bus, address, value, length, b) && r == answer_of(b)
        } else {
            n == *self && r is None
        }
    }

    open spec fn haltreq_set(&self, n: Self, val: bool) -> bool {
        if self.harts@.len() > 0 {
            core0_now(*self, n, with_debug(self.core0(), DebugState { haltreq_signal: val, ..self.core0().debug_state }))
        } else {
            n == *self
        }
    }

    open spec fn resume_requested(&self, n: Self) -> bool {
        if self.harts@.len() > 0 {
            core0_now(*self, n, with_debug(self.core0(), DebugState { resumereq_flag: true, resumeack: false, ..self.core0().debug_state }))
        } else {
            n == *self
        }
    }

    open spec fn reset_req_set(&self, n: Self, val: bool) -> bool {
        if self.harts@.len() > 0 {
            core0_now(*self, n, with_debug(self.core0(), DebugState { resetreq_signal: val, ..self.core0().debug_state }))
        } else {
            n == *self
        }
    }

    open spec fn havereset_cleared(&self, n: Self) -> bool {
        if self.harts@.len() > 0 {
            core0_now(*self, n, with_debug(self.core0(), DebugState { havereset: false, ..self.core0().debug_state }))
        } else {
            n == *self
        }
    }

    /// General register `regno` of the first hart (0 for a register that
    /// does not exist, or with no hart).
    fn read_gpr(&mut self, regno: usize) -> (r: u64) {
        if self.harts.len() > 0 && regno < 32 {
            self.harts[0].cpu.gpr.read(regno as u64)
        } else {
            0
        }
    }

    /// Writes general register `regno` of the first hart.
    fn write_gpr(&mut self, regno: usize, value: u64) {
        if self.harts.len() > 0 && regno < 32 {
            let mut h = self.harts.remove(0);
            h.cpu.gpr.write(regno as u64, value);
            self.harts.insert(0, h);
            assert(self.harts@ =~= old(self).harts@.update(0, Hart { cpu: h.cpu, decode: old(self).harts@[0].decode, links: old(self).harts@[0].links }));
        }
    }

    /// Reads physical memory; `None` where the bus cannot take the read or
    /// answers with an error.
    fn read_memory(&mut self, address: u64, length: usize) -> (r: Option<u64>) {
        if !self.bus.can_read(address, length) {
            return None;
        }
        let res = self.bus.read(address, length);
        assert(bus_read_post(old(self).bus, self.bus, address, length, res));
        match res {
            Ok(v) => Some(v),
            Err(_) => None,
        }
    }

    /// Writes physical memory; `None` where the bus cannot take the write
    /// or answers with an error.
    fn write_memory(&mut self, address: u64, length: usize, value: u64) -> (r: Option<u64>) {
        if !self.bus.can_write(address, value, length) {
            return None;
        }
        let res = self.bus.write(address, value, length);
        assert(bus_write_post(old(self).bus, self.bus, address, value, length, res));
        match res {
            Ok(v) => Some(v),
            Err(_) => None,
        }
    }

    /// Reads a CSR of the first hart without a permission check (0 where
    /// no CSR is, or with no hart).
    fn read_csr(&mut self, csr_addr: usize) -> (r: u64) {
        if self.harts.len() > 0 && csr_addr < 4096 {
            self.harts[0].cpu.csr_regs.read_raw(csr_addr as u64)
        } else {
            0
        }
    }

    /// Writes a CSR of the first hart without a permission check; a value
    /// the CSR does not take (a `satp` naming no translation mode) is
    /// dropped.
    fn write_csr(&mut self, csr_addr: usize, value: u64) {
        if self.harts.len() > 0 && csr_addr < 4096 {
            if self.harts[0].cpu.csr_regs.write_allowed(csr_addr as u64, value) {
                let mut h = self.harts.remove(0);
                h.cpu.csr_regs.write_raw(csr_addr as u64, value);
                self.harts.insert(0, h);
                assert(self.harts@ =~= old(self).harts@.update(0, Hart { cpu: h.cpu, decode: old(self).harts@[0].decode, links: old(self).harts@[0].links }));
            }
        }
    }

    fn set_haltreq(&mut self, val: bool) {
        if self.harts.len() > 0 {
            let mut h = self.harts.remove(0);
            h.cpu.debug_state.haltreq_signal = val;
            self.harts.insert(0, h);
            assert(self.harts@ =~= old(self).harts@.update(0, Hart { cpu: h.cpu, decode: old(self).harts@[0].decode, links: old(self).harts@[0].links }));
        }
    }

    fn resumereq(&mut self) {
        if self.harts.len() > 0 {
            let mut h = self.harts.remove(0);
            h.cpu.debug_state.resumereq_flag = true;
            h.cpu.debug_state.resumeack = false;
            self.harts.insert(0, h);
            assert(self.harts@ =~= old(self).harts@.update(0, Hart { cpu: h.cpu, decode: old(self).harts@[0].decode, links: old(self).harts@[0].links }));
        }
    }

    fn halted(&mut self) -> (r: bool) {
        self.harts.len() > 0 && matches!(self.harts[0].cpu.cpu_state, CpuState::Haltd)
    }

    fn resume_ack(&mut self) -> (r: bool) {
        self.harts.len() > 0 && self.harts[0].cpu.debug_state.resumeack
    }

    fn set_reset_req(&mut self, val: bool) {
        if self.harts.len() > 0 {
            let mut h = self.harts.remove(0);
            h.cpu.debug_state.resetreq_signal = val;
            self.harts.insert(0, h);
            assert(self.harts@ =~= old(self).harts@.update(0, Hart { cpu: h.cpu, decode: old(self).harts@[0].decode, links: old(self).harts@[0].links }));
        }
    }

    fn havereset(&mut self) -> (r: bool) {
        self.harts.len() > 0 && self.harts[0].cpu.debug_state.havereset
    }

    fn clear_havereset(&mut self) {
        if self.harts.len() > 0 {
            let mut h = self.harts.remove(0);
            h.cpu.debug_state.havereset = false;
            self.harts.insert(0, h);
            assert(self.harts@ =~= old(self).harts@.update(0, Hart { cpu: h.cpu, decode: old(self).harts@[0].decode, links: old(self).harts@[0].links }));
        }
    }
}

/// The access-register command that reads (`write` false) or writes
/// general register `r` with 64 bits through `data0`/`data1`.
pub open spec fn gpr_access_command(r: u32, write: bool) -> u32 {
    if write { (0x0033_1000 + r) as u32 } else { (0x0032_1000 + r) as u32 }
}

proof fn lemma_gpr_access_command(r: u32, write: bool, data: Seq<u32>)
    requires
        r < 32,
    ensures
        abstract_action(gpr_access_command(r, write), data) == (if write {
            AbstractAction::WriteGpr(r as usize, arg64(data, 0))
        } else {
            AbstractAction::ReadGpr(r as usize)
        }),
{
    let c = gpr_access_command(r, write) as u64;
    lemma_low_mask_values();
    if write {
        assert(c == 0x0033_1000u64 + r as u64);
        assert((c >> 24u64) & 0xffu64 == 0u64 && (c >> 20u64) & 0x7u64 == 3u64
            && (c >> 17u64) & 0x1u64 == 1u64 && (c >> 16u64) & 0x1u64 == 1u64
            && (c >> 0u64) & 0xffffu64 == 0x1000u64 + r as u64) by (bit_vector)
            requires c == 0x0033_1000u64 + r as u64, r < 32u32;
    } else {
        assert(c == 0x0032_1000u64 + r as u64);
        assert((c >> 24u64) & 0xffu64 == 0u64 && (c >> 20u64) & 0x7u64 == 3u64
            && (c >> 17u64) & 0x1u64 == 1u64 && (c >> 16u64) & 0x1u64 == 0u64
            && (c >> 0u64) & 0xffffu64 == 0x1000u64 + r as u64) by (bit_vector)
            requires c == 0x0032_1000u64 + r as u64, r < 32u32;
    }
    assert(field(c, 24, 8) == 0 && field(c, 20, 3) == 3 && flag(c, 17) && field(c, 0, 16) == 0x1000 + r);
    assert(flag(c, 16) == write);
}

/// On a halted machine, an abstract command that writes general register
/// `r` from `data0`/`data1`, followed by one that reads it, gives back in
/// `data0`/`data1` the value written (0 for `x0`); the hart keeps the value
/// and `abstractcs` stays as it was.
pub proof fn lemma_abstract_gpr_write_then_read<D: DeviceBase>(
    s: RVsim<D>,
    n1: RVsim<D>,
    n2: RVsim<D>,
    r: u32,
    data: Seq<u32>,
    cs: u32,
    data1: Seq<u32>,
    cs1: u32,
    data2: Seq<u32>,
    cs2: u32,
)
    requires
        s.is_halted(),
        r < 32,
        data.len() == 6,
        abstract_command_effect(gpr_access_command(r, true), data, cs, s, n1, data1, cs1),
        abstract_command_effect(gpr_access_command(r, false), data1, cs1, n1, n2, data2, cs2),
    ensures
        arg64(data2, 0) == (if r == 0 { 0 } else { arg64(data, 0) }),
        n2.core0().gpr@ == gpr_written(s.core0().gpr@, r as int, arg64(data, 0)),
        n2.is_halted(),
        cs2 == cs,
{
    lemma_gpr_access_command(r, true, data);
    lemma_gpr_access_command(r, false, data1);
    let v = arg64(data, 0);
    assert(s.gpr_written_to(n1, r as usize, v));
    assert(n1.is_halted());
    assert(data1 == data && cs1 == cs);
    assert(n2 == n1);
    lemma_gpr_len(s.core0().gpr);
    lemma_gpr_read_after_write(s.core0().gpr@, r as int, v, r as int);
    assert(n1.gpr_of(r as usize) == (if r == 0 { 0 } else { v }));
}

} // verus!
