//! The architectural state of a hart and what trap entry and debug entry do to it.
use vstd::prelude::*;
use crate::bits::{field, flag, with_field, with_flag, get_field, set_field, lemma_field_bound};
use super::csr_regs::{CsrRegs, SLOT_XSTATUS, SLOT_MEDELEG, SLOT_MIDELEG, SLOT_XIE, SLOT_XIP, SLOT_MTVEC, SLOT_STVEC,
    SLOT_MEPC, SLOT_SEPC, SLOT_MCAUSE, SLOT_SCAUSE, SLOT_MTVAL, SLOT_STVAL, SLOT_DCSR, SLOT_DPC, CSR_SLOTS};
use super::csr_regs_define::{XstatusIn, XtvecIn, XipIn, trap_pc, some_interrupt_pending, priority_interrupt};
use super::gpr::Gpr;
use super::inst_base::{PrivilegeLevels, priv_level};
use super::traptype::{TrapType, DebugCause, trap_code, trap_cause, trap_tval, debug_cause_code};
use super::csr_regs::{SLOT_CYCLE, SLOT_INSTRET, SLOT_TIME};
use crate::config::Config;
use super::bus::{Bus, bus_read_ok, bus_read_post};
use super::inst_base::AccessType;
use super::inst_decode::{InstDecode, first_match};
use super::inst::inst_op::{InstOp, Instruction};
use super::inst::inst_format::{compressed, is_compressed_instruction};
use super::inst::inst_alu::{to_u64, add_wrap};
use super::inst::inst_exec::{inst_defined, inst_post, mem_read_post};
use crate::device::device_trait::DeviceBase;
use crate::tools::{aligned, check_aligned};
use super::cache::cpu_icache::{CpuIcache, icache_read_post, no_words};
use super::csr_regs::SLOT_SATP;
use super::csr_regs_define::{SatpIn, StapMode, stap_mode_valid, stap_mode_code};
use super::mmu::cpu_mmu::{Mmu, mpp_defined};
use super::mmu::tlb::{tlb_entries, tlb_capacity};
use super::mmu::vm_info::{TLBKey, TLBEntry};
use super::inst_base::{misaligned_of, RVerr};
use super::inst::inst_exec::mem_answer;

verus! {

broadcast use lemma_field_bound;

/// The debug-mode flags of a hart.
pub struct DebugState {
    /// Set by the debug module to resume; the hart clears it.
    pub resumereq_flag: bool,
    pub singlestep_flag: bool,
    /// Set and cleared by the debug module.
    pub resetreq_signal: bool,
    /// Set and cleared by the debug module.
    pub haltreq_signal: bool,
    /// Cleared when a resume is requested, set when the hart resumes.
    pub resumeack: bool,
    /// Set when the hart resets, cleared through `ackhavereset`.
    pub havereset: bool,
    /// Whether the hart is in debug mode.
    pub debug_mode: bool,
}

impl DebugState {
    pub fn new() -> (r: Self)
        ensures
            !r.resumereq_flag && !r.singlestep_flag && !r.resetreq_signal && !r.haltreq_signal,
            !r.resumeack && !r.havereset && !r.debug_mode,
    {
        DebugState {
            resumereq_flag: false,
            resetreq_signal: false,
            haltreq_signal: false,
            resumeack: false,
            havereset: false,
            debug_mode: false,
            singlestep_flag: false,
        }
    }
}

#[derive(Clone, Copy, PartialEq, Eq, Debug, Structural)]
pub enum CpuState {
    Running,
    Haltd,
    Stop,
    Abort,
}

/// The architectural state of a hart: registers, CSRs, the pc of the
/// current instruction and of the next one, the privilege level, and the
/// run and debug state.
pub struct CpuCore {
    pub hart_id: usize,
    pub gpr: Gpr,
    pub csr_regs: CsrRegs,
    pub pc: u64,
    pub npc: u64,
    pub cur_priv: PrivilegeLevels,
    pub cpu_state: CpuState,
    pub debug_state: DebugState,
    /// The instruction cache fetches go through.
    pub icache: CpuIcache,
    /// The address translation of fetches, loads and stores.
    pub mmu: Mmu,
}

/// `mstatus` after a trap into S-mode from privilege `p`: SPP records
/// whether `p` was above U-mode, SPIE takes SIE, and SIE is cleared.
pub open spec fn mstatus_trap_to_s(m: u64, p: PrivilegeLevels) -> u64 {
    with_flag(with_flag(with_flag(m, 8, p != PrivilegeLevels::User), 5, flag(m, 1)), 1, false)
}

/// `mstatus` after a trap into M-mode from privilege `p`: MPIE takes MIE,
/// MIE is cleared, and MPP records `p`.
pub open spec fn mstatus_trap_to_m(m: u64, p: PrivilegeLevels) -> u64 {
    with_field(with_flag(with_flag(m, 7, flag(m, 3)), 3, false), 11, 2, priv_level(p) as u64)
}

/// An exception `t` at privilege `p` goes to S-mode: it is delegated by
/// `medeleg` and `p` is not above S-mode.
pub open spec fn exception_to_s(medeleg: u64, t: TrapType, p: PrivilegeLevels) -> bool {
    medeleg & (1u64 << trap_code(t)) != 0 && priv_level(p) <= 1
}

/// The interrupts pending and enabled, by `mie` and `mip`.
pub open spec fn interrupts_pending(f: Seq<u64>) -> u64 {
    f[SLOT_XIE as int] & f[SLOT_XIP as int]
}

/// Whether M-mode interrupts are taken at privilege `p` with `mstatus` `m`.
pub open spec fn m_interrupts_enabled(m: u64, p: PrivilegeLevels) -> bool {
    (flag(m, 3) && p == PrivilegeLevels::Machine) || priv_level(p) < 3
}

/// Whether S-mode interrupts are taken at privilege `p` with `mstatus` `m`.
pub open spec fn s_interrupts_enabled(m: u64, p: PrivilegeLevels) -> bool {
    (flag(m, 1) && p == PrivilegeLevels::Supervisor) || priv_level(p) < 1
}

/// Which interrupt entry the registers `f` at privilege `p` lead to:
/// 2 into M-mode, 1 into S-mode, 0 none.
pub open spec fn interrupt_kind(f: Seq<u64>, p: PrivilegeLevels) -> int {
    let v = interrupts_pending(f);
    let m = f[SLOT_XSTATUS as int];
    let md = f[SLOT_MIDELEG as int];
    if v == 0 {
        0
    } else if m_interrupts_enabled(m, p) && v & !md != 0 {
        2
    } else if s_interrupts_enabled(m, p) && v & md != 0 {
        1
    } else {
        0
    }
}

/// The interrupt entry is defined: the interrupt taken is one of the six
/// standard ones, and its vector lies in the address space.
pub open spec fn interrupt_entry_defined(f: Seq<u64>, p: PrivilegeLevels) -> bool {
    let v = interrupts_pending(f);
    let md = f[SLOT_MIDELEG as int];
    &&& interrupt_kind(f, p) == 2 ==> some_interrupt_pending(v & !md)
        && field(f[SLOT_MTVEC as int], 0, 2) < 2
        && trap_pc(f[SLOT_MTVEC as int], priority_interrupt(v & !md)) <= u64::MAX
    &&& interrupt_kind(f, p) == 1 ==> some_interrupt_pending(v & md)
        && field(f[SLOT_STVEC as int], 0, 2) < 2
        && trap_pc(f[SLOT_STVEC as int], priority_interrupt(v & md)) <= u64::MAX
}

/// The exception `t` raised by the instruction at `o.pc` taken: `n` is
/// the hart after it. It goes to S-mode when `medeleg` delegates it and the
/// hart is not above S-mode, else to M-mode.
pub open spec fn exception_entry(o: CpuCore, n: CpuCore, t: TrapType) -> bool {
    let f = o.csr_regs.file@;
    let m = f[SLOT_XSTATUS as int];
    let p = o.cur_priv;
    &&& if exception_to_s(f[SLOT_MEDELEG as int], t, p) {
        &&& n.csr_regs.file@ == f.update(SLOT_XSTATUS as int, mstatus_trap_to_s(m, p))
            .update(SLOT_SEPC as int, o.pc).update(SLOT_SCAUSE as int, trap_cause(t))
            .update(SLOT_STVAL as int, trap_tval(t))
        &&& n.npc == trap_pc(f[SLOT_STVEC as int], t)
        &&& n.cur_priv == PrivilegeLevels::Supervisor
    } else {
        &&& n.csr_regs.file@ == f.update(SLOT_XSTATUS as int, mstatus_trap_to_m(m, p))
            .update(SLOT_MEPC as int, o.pc).update(SLOT_MCAUSE as int, trap_cause(t))
            .update(SLOT_MTVAL as int, trap_tval(t))
        &&& n.npc == trap_pc(f[SLOT_MTVEC as int], t)
        &&& n.cur_priv == PrivilegeLevels::Machine
    }
    &&& n.csr_regs.entries() == o.csr_regs.entries()
    &&& n.pc == o.pc
    &&& n.gpr@ == o.gpr@
    &&& n.cpu_state == o.cpu_state
    &&& n.hart_id == o.hart_id
    &&& n.debug_state == o.debug_state
    &&& n.icache == o.icache
    &&& n.mmu == o.mmu
}

/// Exception `t` can be taken by `c`: it is an exception, and the trap
/// vector it goes to names a defined mode.
pub open spec fn exception_defined(c: CpuCore, t: TrapType) -> bool {
    let f = c.csr_regs.file@;
    &&& f.len() == CSR_SLOTS
    &&& !super::traptype::is_interrupt_trap(t)
    &&& if exception_to_s(f[SLOT_MEDELEG as int], t, c.cur_priv) {
        field(f[SLOT_STVEC as int], 0, 2) < 2
    } else {
        field(f[SLOT_MTVEC as int], 0, 2) < 2
    }
}

/// The hart's `mstatus`.
pub open spec fn xs_of(o: CpuCore) -> u64 {
    o.csr_regs.file@[SLOT_XSTATUS as int]
}

/// The hart's `satp`.
pub open spec fn sp_of(o: CpuCore) -> u64 {
    o.csr_regs.file@[SLOT_SATP as int]
}

/// The `satp` mode its mode field `v` encodes (Bare for an encoding of none).
pub open spec fn stap_mode_of(v: u64) -> StapMode {
    if v == 8 {
        StapMode::Sv39
    } else if v == 9 {
        StapMode::Sv48
    } else if v == 10 {
        StapMode::Sv57
    } else if v == 11 {
        StapMode::Sv64
    } else {
        StapMode::Bare
    }
}

/// The MMU `m` set up for an access of kind `access` by a hart whose
/// `mstatus` is `ms`, whose `satp` is `sp` and whose privilege is `p`.
pub open spec fn mmu_for(m: Mmu, ms: u64, sp: u64, p: PrivilegeLevels, access: AccessType) -> Mmu {
    Mmu {
        access_type: access,
        mstatus: XstatusIn(ms),
        satp: SatpIn(sp),
        cur_priv: p,
        satp_mode: stap_mode_of(field(sp, 60, 4)),
        ..m
    }
}

/// An access of kind `access` can be translated: `satp` names a mode, and
/// `mstatus.MPP` a supported level where `MPRV` makes it matter.
pub open spec fn xlate_ready(ms: u64, sp: u64, access: AccessType) -> bool {
    &&& stap_mode_valid(field(sp, 60, 4))
    &&& mpp_defined(access, ms)
}

/// The translation of an access of kind `access` (`len` bytes at virtual
/// address `va`) by a hart with MMU `m`, `mstatus` `ms`, `satp` `sp` and
/// privilege `p`: the MMU went to `nm`, the bus from `ob` to `nb` (the page
/// table walk reads it), and `r` is the physical address or the fault.
pub open spec fn xlate<D: DeviceBase>(m: Mmu, ms: u64, sp: u64, p: PrivilegeLevels, nm: Mmu, ob: Bus<D>, nb: Bus<D>, va: u64, len: usize, access: AccessType, r: Result<u64, TrapType>) -> bool {
    Mmu::translate_post(mmu_for(m, ms, sp, p, access), nm, ob, nb, va, len, r)
}

/// What an instruction fetch of `len` bytes at virtual address `addr`
/// through the cache `oc` and the MMU `om` did (the hart's `mstatus`,
/// `satp` and privilege are `ms`, `sp`, `p`): the address is translated,
/// then the cache answers at the physical address, and a failed read is
/// an access fault. `nc`, `nm` and `nb` are the cache, MMU and bus after,
/// `m` what the hart got.
pub open spec fn fetch_read_post<D: DeviceBase>(ms: u64, sp: u64, p: PrivilegeLevels, oc: CpuIcache, om: Mmu, nc: CpuIcache, nm: Mmu, ob: Bus<D>, nb: Bus<D>, addr: u64, len: usize, m: Result<u64, TrapType>) -> bool {
    exists|b1: Bus<D>, t: Result<u64, TrapType>| #[trigger] xlate(om, ms, sp, p, nm, ob, b1, addr, len, AccessType::Fetch(addr), t) && match t {
        Err(e) => m == Err::<u64, TrapType>(e) && nb == b1 && nc == oc,
        Ok(pa) => exists|r: Result<u64, RVerr>| #[trigger] icache_read_post(oc, nc, b1, nb, pa, len, r)
            && m == mem_answer(r, AccessType::Fetch(addr)),
    }
}

/// Whether a fetch of `len` bytes at `addr` can be made: it can be
/// translated, and the cache can read whatever physical address it gets.
pub open spec fn fetch_read_ok<D: DeviceBase>(ms: u64, sp: u64, p: PrivilegeLevels, oc: CpuIcache, om: Mmu, ob: Bus<D>, addr: u64, len: usize) -> bool {
    &&& xlate_ready(ms, sp, AccessType::Fetch(addr))
    &&& forall|nm: Mmu, b1: Bus<D>, pa: u64| #[trigger] xlate(om, ms, sp, p, nm, ob, b1, addr, len, AccessType::Fetch(addr), Ok(pa))
        ==> oc.read_ok(b1, pa, len)
}

/// Whether the reads a fetch at `addr` makes can be made: the word at an
/// address aligned to 4 bytes; else, with compressed instructions enabled
/// (`rvc`), the halfword at `addr` and, whatever that read did, the
/// halfword after it (which must not pass the end of memory).
pub open spec fn fetch_ok<D: DeviceBase>(ms: u64, sp: u64, p: PrivilegeLevels, c: CpuIcache, m: Mmu, b: Bus<D>, addr: u64, rvc: bool) -> bool {
    if aligned(addr, 4) {
        fetch_read_ok(ms, sp, p, c, m, b, addr, 4)
    } else if rvc {
        &&& fetch_read_ok(ms, sp, p, c, m, b, addr, 2)
        &&& addr + 2 <= u64::MAX
        &&& forall|b1: Bus<D>, c1: CpuIcache, m1: Mmu, v: u64| #[trigger] fetch_read_post(ms, sp, p, c, m, c1, m1, b, b1, addr, 2, Ok(v))
            ==> fetch_read_ok(ms, sp, p, c1, m1, b1, (addr + 2) as u64, 2)
    } else {
        true
    }
}

/// What a fetch of the instruction at `addr` read: a word at an address
/// aligned to 4 bytes; else, with compressed instructions enabled (`rvc`),
/// the halfword at `addr`, which is the instruction when its low two bits
/// are not both set, and otherwise the low half of the instruction whose
/// high half is the halfword after it; else a misaligned load. `nc`, `nm`
/// and `nb` are the cache, MMU and bus after.
pub open spec fn fetch_post<D: DeviceBase>(ms: u64, sp: u64, p: PrivilegeLevels, oc: CpuIcache, om: Mmu, nc: CpuIcache, nm: Mmu, ob: Bus<D>, nb: Bus<D>, addr: u64, rvc: bool, m: Result<u64, TrapType>) -> bool {
    if aligned(addr, 4) {
        fetch_read_post(ms, sp, p, oc, om, nc, nm, ob, nb, addr, 4, m)
    } else if !rvc {
        m == Err::<u64, TrapType>(TrapType::LoadAddressMisaligned(addr)) && nb == ob && nc == oc && nm == om
    } else {
        exists|b1: Bus<D>, c1: CpuIcache, u1: Mmu, m1: Result<u64, TrapType>| {
            &&& #[trigger] fetch_read_post(ms, sp, p, oc, om, c1, u1, ob, b1, addr, 2, m1)
            &&& match m1 {
                Err(e) => m == Err::<u64, TrapType>(e) && nb == b1 && nc == c1 && nm == u1,
                Ok(lo) => if field(lo, 0, 2) != 3 {
                    m == Ok::<u64, TrapType>(field(lo, 0, 16)) && nb == b1 && nc == c1 && nm == u1
                } else {
                    let hi_addr = (addr + 2) as u64;
                    exists|m2: Result<u64, TrapType>| {
                        &&& #[trigger] fetch_read_post(ms, sp, p, c1, u1, nc, nm, b1, nb, hi_addr, 2, m2)
                        &&& match m2 {
                            Err(e) => m == Err::<u64, TrapType>(e),
                            Ok(hi) => m == Ok::<u64, TrapType>(field(lo, 0, 16) | (field(hi, 0, 16) << 16u64)),
                        }
                    }
                },
            }
        }
    }
}

/// The length of the instruction whose low bits are those of `inst`.
pub open spec fn inst_len(inst: u32) -> u64 {
    if compressed(inst) { 2 } else { 4 }
}

/// `c` is the hart `o` after fetching from `o.npc` gave `m`: one more
/// cycle, the pc at the fetched instruction and, when it was read, the next
/// pc after it.
pub open spec fn fetched(o: CpuCore, c: CpuCore, m: Result<u64, TrapType>) -> bool {
    let f = o.csr_regs.file@;
    &&& c.csr_regs.file@ == f.update(SLOT_CYCLE as int, to_u64(f[SLOT_CYCLE as int] + 1))
    &&& c.csr_regs.entries() == o.csr_regs.entries()
    &&& c.pc == o.npc
    &&& c.npc == (match m {
        Ok(v) => to_u64(o.npc + inst_len(v as u32)),
        Err(_) => o.npc,
    })
    &&& c.gpr@ == o.gpr@
    &&& c.cur_priv == o.cur_priv
    &&& c.cpu_state == o.cpu_state
    &&& c.hart_id == o.hart_id
    &&& c.debug_state == o.debug_state
}

/// `n` is `c` with one more instruction retired.
pub open spec fn retired(c: CpuCore, n: CpuCore) -> bool {
    let f = c.csr_regs.file@;
    &&& n.csr_regs.file@ == f.update(SLOT_INSTRET as int, to_u64(f[SLOT_INSTRET as int] + 1))
    &&& n.csr_regs.entries() == c.csr_regs.entries()
    &&& n.pc == c.pc
    &&& n.npc == c.npc
    &&& n.gpr@ == c.gpr@
    &&& n.cur_priv == c.cur_priv
    &&& n.cpu_state == c.cpu_state
    &&& n.hart_id == c.hart_id
    &&& n.debug_state == c.debug_state
    &&& n.icache == c.icache
    &&& n.mmu == c.mmu
}

/// Whatever the fetch from `o.npc` reads, the instruction can be carried
/// out, and the exception it may raise can be taken.
pub open spec fn step_defined<D: DeviceBase>(o: CpuCore, ob: Bus<D>, t: Seq<Instruction>, rvc: bool) -> bool {
    forall|c1: CpuCore, n1: Bus<D>, m: Result<u64, TrapType>|
        #![trigger fetched(o, c1, m), fetch_post(xs_of(o), sp_of(o), o.cur_priv, o.icache, o.mmu, c1.icache, c1.mmu, ob, n1, o.npc, rvc, m)]
        fetched(o, c1, m) && fetch_post(xs_of(o), sp_of(o), o.cur_priv, o.icache, o.mmu, c1.icache, c1.mmu, ob, n1, o.npc, rvc, m) && c1.csr_regs.wf() ==> match m {
            Err(e) => exception_defined(c1, e),
            Ok(v) => match first_match(t, v as u32) {
                None => exception_defined(c1, TrapType::IllegalInstruction(v as u32 as u64)),
                Some(op) => {
                    &&& inst_defined(op, v as u32, c1, n1)
                    &&& forall|c2: CpuCore, n2: Bus<D>, e: TrapType| #[trigger] inst_post(op, v as u32, c1, c2, n1, n2, Err(e))
                        ==> exception_defined(c2, e)
                },
            },
        }
}

/// One step of the hart from `o` with the bus `ob` to `n` and `nb`: the
/// fetch, the instruction it read executed, and the exception taken if one
/// was raised; an instruction completed is retired.
pub open spec fn step_post<D: DeviceBase>(o: CpuCore, n: CpuCore, ob: Bus<D>, nb: Bus<D>, t: Seq<Instruction>, rvc: bool) -> bool {
    exists|c1: CpuCore, n1: Bus<D>, m: Result<u64, TrapType>|
        #![trigger fetched(o, c1, m), fetch_post(xs_of(o), sp_of(o), o.cur_priv, o.icache, o.mmu, c1.icache, c1.mmu, ob, n1, o.npc, rvc, m)]
        fetched(o, c1, m) && fetch_post(xs_of(o), sp_of(o), o.cur_priv, o.icache, o.mmu, c1.icache, c1.mmu, ob, n1, o.npc, rvc, m) && match m {
            Err(e) => nb == n1 && exception_entry(c1, n, e),
            Ok(v) => match first_match(t, v as u32) {
                None => nb == n1 && exception_entry(c1, n, TrapType::IllegalInstruction(v as u32 as u64)),
                Some(op) => exists|c2: CpuCore, r: Result<(), TrapType>| #[trigger] inst_post(op, v as u32, c1, c2, n1, nb, r)
                    && match r {
                        Ok(_) => retired(c2, n),
                        Err(e) => exception_entry(c2, n, e),
                    },
            },
        }
}

/// The hart `o` after taking the pending interrupt of highest priority, if
/// one is enabled: into M-mode for one not delegated by `mideleg`, else into
/// S-mode; the interrupted instruction is the next one (`o.npc`).
pub open spec fn interrupt_entry(o: CpuCore, n: CpuCore) -> bool {
    let f = o.csr_regs.file@;
    let m = f[SLOT_XSTATUS as int];
    let p = o.cur_priv;
    let v = interrupts_pending(f);
    let md = f[SLOT_MIDELEG as int];
    &&& if interrupt_kind(f, p) == 2 {
        let cause = priority_interrupt(v & !md);
        &&& n.csr_regs.file@ == f.update(SLOT_XSTATUS as int, mstatus_trap_to_m(m, p))
            .update(SLOT_MEPC as int, o.npc).update(SLOT_MCAUSE as int, trap_cause(cause))
        &&& n.npc == trap_pc(f[SLOT_MTVEC as int], cause)
        &&& n.cur_priv == PrivilegeLevels::Machine
    } else if interrupt_kind(f, p) == 1 {
        let cause = priority_interrupt(v & md);
        &&& n.csr_regs.file@ == f.update(SLOT_XSTATUS as int, mstatus_trap_to_s(m, p))
            .update(SLOT_SEPC as int, o.npc).update(SLOT_SCAUSE as int, trap_cause(cause))
        &&& n.npc == trap_pc(f[SLOT_STVEC as int], cause)
        &&& n.cur_priv == PrivilegeLevels::Supervisor
    } else {
        &&& n.csr_regs.file@ == f
        &&& n.npc == o.npc
        &&& n.cur_priv == p
    }
    &&& n.csr_regs.entries() == o.csr_regs.entries()
    &&& n.pc == o.pc
    &&& n.gpr@ == o.gpr@
    &&& n.cpu_state == o.cpu_state
    &&& n.hart_id == o.hart_id
    &&& n.debug_state == o.debug_state
    &&& n.icache == o.icache
    &&& n.mmu == o.mmu
}

/// The hart `o` after entering debug mode for `cause`, to resume at `pc`:
/// `dcsr` records the cause and the privilege (and clears V), `dpc` takes
/// `pc`, the hart halts in debug mode, and runs in M-mode.
pub open spec fn debug_entry(o: CpuCore, n: CpuCore, cause: DebugCause, pc: u64) -> bool {
    let f = o.csr_regs.file@;
    let d = f[SLOT_DCSR as int];
    &&& n.csr_regs.file@ == f.update(SLOT_DCSR as int,
        with_flag(with_field(with_field(d, 6, 3, debug_cause_code(cause) as u64), 0, 2, priv_level(o.cur_priv) as u64), 5, false))
        .update(SLOT_DPC as int, pc)
    &&& n.debug_state == (DebugState { debug_mode: true, ..o.debug_state })
    &&& n.cpu_state == CpuState::Haltd
    &&& n.cur_priv == PrivilegeLevels::Machine
    &&& n.csr_regs.entries() == o.csr_regs.entries()
    &&& n.pc == o.pc
    &&& n.npc == o.npc
    &&& n.gpr@ == o.gpr@
    &&& n.hart_id == o.hart_id
    &&& n.icache == o.icache
    &&& n.mmu == o.mmu
}

/// The hart `o` after a reset: registers zero, the CSRs at their reset
/// values, the next pc at the reset vector, running, no debug flags; the
/// privilege level is kept.
pub open spec fn reset_state(o: CpuCore, n: CpuCore) -> bool {
    &&& n.gpr@ == Seq::new(32, |i: int| 0u64)
    &&& n.csr_regs.file@ == super::csr_regs::initial_csr_file()
    &&& n.csr_regs.entries() == o.csr_regs.entries()
    &&& n.npc == RESET_PC
    &&& n.pc == o.pc
    &&& n.cur_priv == o.cur_priv
    &&& n.cpu_state == CpuState::Running
    &&& n.hart_id == o.hart_id
    &&& !n.debug_state.resumereq_flag && !n.debug_state.singlestep_flag && !n.debug_state.resetreq_signal
    &&& !n.debug_state.haltreq_signal && !n.debug_state.resumeack && !n.debug_state.havereset
    &&& !n.debug_state.debug_mode
    &&& icache_cleared(o.icache, n.icache)
    &&& n.mmu == o.mmu
}

/// `n` is the cache `o` with every word dropped.
pub open spec fn icache_cleared(o: CpuIcache, n: CpuIcache) -> bool {
    &&& n.words() == no_words()
    &&& n.icache_size == o.icache_size && n.hit == o.hit && n.miss == o.miss
}

/// The hart `o` resumed from debug mode: the next pc is `dpc`, the privilege
/// is `dcsr.prv` (`mstatus.MPRV` cleared below M-mode), the hart runs, the
/// resume is acknowledged, and `dcsr.step` arms a single step.
pub open spec fn resume_state(o: CpuCore, n: CpuCore) -> bool {
    let f = o.csr_regs.file@;
    let d = f[SLOT_DCSR as int];
    let m = f[SLOT_XSTATUS as int];
    &&& n.npc == f[SLOT_DPC as int]
    &&& priv_level(n.cur_priv) == field(d, 0, 2)
    &&& n.csr_regs.file@ == (if field(d, 0, 2) < 3 { f.update(SLOT_XSTATUS as int, with_flag(m, 17, false)) } else { f })
    &&& n.csr_regs.entries() == o.csr_regs.entries()
    &&& n.debug_state == (DebugState {
        resumereq_flag: false,
        debug_mode: false,
        resumeack: true,
        singlestep_flag: o.debug_state.singlestep_flag || flag(d, 2),
        ..o.debug_state
    })
    &&& n.cpu_state == CpuState::Running
    &&& n.pc == o.pc
    &&& n.gpr@ == o.gpr@
    &&& n.hart_id == o.hart_id
    &&& n.icache == o.icache
    &&& n.mmu == o.mmu
}

/// `o` with its single-step flag cleared.
pub open spec fn step_armed_off(o: CpuCore) -> CpuCore {
    CpuCore { debug_state: DebugState { singlestep_flag: false, ..o.debug_state }, ..o }
}

/// What one turn of the run loop does to a hart `o` (and the bus `ob`):
/// a running hart resets, halts, single-steps or executes an instruction and
/// takes a pending interrupt, as its debug flags say; a halted hart resumes
/// when asked; `r` tells whether the hart can go on.
pub open spec fn run_step_post<D: DeviceBase>(o: CpuCore, n: CpuCore, ob: Bus<D>, nb: Bus<D>, t: Seq<Instruction>, rvc: bool, r: bool) -> bool {
    match o.cpu_state {
        CpuState::Running => {
            &&& r
            &&& if o.debug_state.resetreq_signal {
                nb == ob && reset_state(o, n) && n.debug_state.havereset == false
            } else if o.debug_state.haltreq_signal {
                nb == ob && debug_entry(o, n, DebugCause::HaltReq, o.npc)
            } else if o.debug_state.singlestep_flag {
                exists|mid: CpuCore| #[trigger] step_post(step_armed_off(o), mid, ob, nb, t, rvc)
                    && debug_entry(mid, n, DebugCause::Step, mid.npc)
            } else {
                exists|mid: CpuCore| #[trigger] step_post(o, mid, ob, nb, t, rvc) && interrupt_entry(mid, n)
            }
        },
        CpuState::Haltd => r && nb == ob && if o.debug_state.resumereq_flag { resume_state(o, n) } else { n == o },
        _ => !r && nb == ob && n == o,
    }
}

/// What one turn of the run loop needs of a hart `o` and the bus `ob`,
/// with decode table `t`: well-formed CSRs, and for a running hart that
/// neither resets nor halts, a fetch the bus takes, an instruction (or
/// single step) that can be carried out, and an interrupt entry that can be
/// taken after it; a halted hart asked to resume is in debug mode.
pub open spec fn step_ready<D: DeviceBase>(o: CpuCore, ob: Bus<D>, t: Seq<Instruction>, rvc: bool) -> bool {
    &&& o.csr_regs.wf()
    &&& o.csr_regs.file@.len() == CSR_SLOTS
    &&& o.cpu_state == CpuState::Running && !o.debug_state.resetreq_signal && !o.debug_state.haltreq_signal ==> {
        &&& fetch_ok(xs_of(o), sp_of(o), o.cur_priv, o.icache, o.mmu, ob, o.npc, rvc)
        &&& if o.debug_state.singlestep_flag {
            step_defined(step_armed_off(o), ob, t, rvc)
        } else {
            &&& step_defined(o, ob, t, rvc)
            &&& forall|mid: CpuCore, nb: Bus<D>| #[trigger] step_post(o, mid, ob, nb, t, rvc)
                && mid.csr_regs.file@.len() == CSR_SLOTS ==> interrupt_entry_defined(mid.csr_regs.file@, mid.cur_priv)
        }
    }
    &&& o.cpu_state == CpuState::Haltd && o.debug_state.resumereq_flag ==> o.debug_state.debug_mode
}

/// Whether a hart runs: it is neither stopped nor aborted.
pub open spec fn runs_on(o: CpuCore) -> bool {
    o.cpu_state == CpuState::Running || o.cpu_state == CpuState::Haltd
}

/// Whether `k` turns of the run loop can be carried out from `o` and
/// `ob`, along every way the turns can go; the loop ends at a hart that
/// no longer runs.
pub open spec fn turns_defined<D: DeviceBase>(o: CpuCore, ob: Bus<D>, t: Seq<Instruction>, rvc: bool, k: nat) -> bool
    decreases k,
{
    if k == 0 || !runs_on(o) {
        true
    } else {
        &&& step_ready(o, ob, t, rvc)
        &&& forall|n: CpuCore, nb: Bus<D>| #[trigger] run_step_post(o, n, ob, nb, t, rvc, true)
            ==> turns_defined(n, nb, t, rvc, (k - 1) as nat)
    }
}

/// `n` and `nb` are what one turn of the run loop makes of `m` and `mb`;
/// a hart that no longer runs stays as it is.
pub open spec fn turn<D: DeviceBase>(m: CpuCore, n: CpuCore, mb: Bus<D>, nb: Bus<D>, t: Seq<Instruction>, rvc: bool) -> bool {
    if runs_on(m) { run_step_post(m, n, mb, nb, t, rvc, true) } else { n == m && nb == mb }
}

/// `n` and `nb` are what `k` turns of the run loop make of `o` and `ob`;
/// a hart that no longer runs stays as it is.
pub open spec fn turns<D: DeviceBase>(o: CpuCore, n: CpuCore, ob: Bus<D>, nb: Bus<D>, t: Seq<Instruction>, rvc: bool, k: nat) -> bool
    decreases k,
{
    if k == 0 {
        n == o && nb == ob
    } else {
        exists|m: CpuCore, mb: Bus<D>| turns(o, m, ob, mb, t, rvc, (k - 1) as nat) && #[trigger] turn(m, n, mb, nb, t, rvc)
    }
}

/// What a reference run (for difftest) needs of `k` steps from `o` and
/// `ob`, along every way the steps can go: each step of a running hart can
/// be carried out; the run ends at a hart that is not running.
pub open spec fn ref_steps_defined<D: DeviceBase>(o: CpuCore, ob: Bus<D>, t: Seq<Instruction>, rvc: bool, k: nat) -> bool
    decreases k,
{
    if k == 0 || o.cpu_state != CpuState::Running {
        true
    } else {
        &&& o.csr_regs.wf()
        &&& o.csr_regs.file@.len() == CSR_SLOTS
        &&& fetch_ok(xs_of(o), sp_of(o), o.cur_priv, o.icache, o.mmu, ob, o.npc, rvc)
        &&& step_defined(o, ob, t, rvc)
        &&& forall|n: CpuCore, nb: Bus<D>| #[trigger] step_post(o, n, ob, nb, t, rvc)
            ==> ref_steps_defined(n, nb, t, rvc, (k - 1) as nat)
    }
}

/// One step of a reference run: a running hart executes an instruction
/// (with no interrupt taken and no debug request looked at); another
/// stays as it is.
pub open spec fn ref_step<D: DeviceBase>(m: CpuCore, n: CpuCore, mb: Bus<D>, nb: Bus<D>, t: Seq<Instruction>, rvc: bool) -> bool {
    if m.cpu_state == CpuState::Running { step_post(m, n, mb, nb, t, rvc) } else { n == m && nb == mb }
}

/// `n` and `nb` are what `k` steps of a reference run make of `o` and `ob`.
pub open spec fn ref_steps<D: DeviceBase>(o: CpuCore, n: CpuCore, ob: Bus<D>, nb: Bus<D>, t: Seq<Instruction>, rvc: bool, k: nat) -> bool
    decreases k,
{
    if k == 0 {
        n == o && nb == ob
    } else {
        exists|m: CpuCore, mb: Bus<D>| ref_steps(o, m, ob, mb, t, rvc, (k - 1) as nat) && #[trigger] ref_step(m, n, mb, nb, t, rvc)
    }
}

/// A hart that is not running stays as it is through any further steps of
/// a reference run.
proof fn lemma_ref_steps_stay<D: DeviceBase>(o: CpuCore, n: CpuCore, ob: Bus<D>, nb: Bus<D>, t: Seq<Instruction>, rvc: bool, i: nat, k: nat)
    requires
        ref_steps(o, n, ob, nb, t, rvc, i),
        n.cpu_state != CpuState::Running,
        i <= k,
    ensures
        ref_steps(o, n, ob, nb, t, rvc, k),
    decreases k - i,
{
    if i < k {
        assert(ref_step(n, n, nb, nb, t, rvc));
        assert(ref_steps(o, n, ob, nb, t, rvc, i + 1));
        lemma_ref_steps_stay(o, n, ob, nb, t, rvc, i + 1, k);
    }
}

/// A hart that no longer runs stays as it is through any further turns.
proof fn lemma_turns_stay<D: DeviceBase>(o: CpuCore, n: CpuCore, ob: Bus<D>, nb: Bus<D>, t: Seq<Instruction>, rvc: bool, i: nat, k: nat)
    requires
        turns(o, n, ob, nb, t, rvc, i),
        !runs_on(n),
        i <= k,
    ensures
        turns(o, n, ob, nb, t, rvc, k),
    decreases k - i,
{
    if i < k {
        assert(turn(n, n, nb, nb, t, rvc));
        assert(turns(o, n, ob, nb, t, rvc, i + 1));
        lemma_turns_stay(o, n, ob, nb, t, rvc, i + 1, k);
    }
}

/// Whether a hart in state `s` runs.
pub fn runs_on_exec(s: CpuState) -> (r: bool)
    ensures
        r == (s == CpuState::Running || s == CpuState::Haltd),
{
    match s {
        CpuState::Running | CpuState::Haltd => true,
        _ => false,
    }
}

/// The address a hart resets to.
pub const RESET_PC: u64 = 0x8000_0000;

/// Where a hart's interrupt lines come from: its hart in the CLINT and its
/// M-mode (and, when it has S-mode, S-mode) context in the PLIC.
#[derive(Clone, Copy, Debug)]
pub struct HartLinks {
    pub clint_hart: usize,
    pub plic_m: usize,
    pub plic_s: Option<usize>,
}

/// The lines of `mip` the CLINT drives: MSIP and MTIP.
pub const CLINT_LINES: u64 = 0x88;
/// The line of `mip` the PLIC's M-mode context drives: MEIP.
pub const MEIP_LINE: u64 = 0x800;
/// The line of `mip` the PLIC's S-mode context drives: SEIP.
pub const SEIP_LINE: u64 = 0x200;

/// `mip` with the lines the devices drive taken from them: `c` from the
/// CLINT, `pm` from the M-mode context and `ps` from the S-mode one.
pub open spec fn latched_xip(mip: u64, c: u64, pm: u64, ps: Option<u64>) -> u64 {
    match ps {
        Some(s) => (mip & !(CLINT_LINES | MEIP_LINE | SEIP_LINE)) | (c & CLINT_LINES) | (pm & MEIP_LINE) | (s & SEIP_LINE),
        None => (mip & !(CLINT_LINES | MEIP_LINE)) | (c & CLINT_LINES) | (pm & MEIP_LINE),
    }
}

/// The links name a hart of the bus's CLINT and contexts of its PLIC.
pub open spec fn links_valid<D>(links: HartLinks, bus: Bus<D>) -> bool {
    &&& links.clint_hart < bus.clint.instance@.0.len()
    &&& links.plic_m < bus.plic.instance@.4.len()
    &&& links.plic_s matches Some(s) ==> s < bus.plic.instance@.4.len()
}

/// `n` is the hart `o` with the lines the CLINT and the PLIC of `bus`
/// drive (through `links`) latched into `mip`, and the CLINT's time into
/// the `time` register; nothing else changes.
pub open spec fn lines_latched<D>(o: CpuCore, n: CpuCore, bus: Bus<D>, links: HartLinks) -> bool {
    &&& ({
        let f = o.csr_regs.file@;
        let c = bus.clint.instance@.0[links.clint_hart as int].xip.0;
        let pm = bus.plic.instance@.4[links.plic_m as int].xip.0;
        let ps = match links.plic_s { Some(s) => Some(bus.plic.instance@.4[s as int].xip.0), None => None };
        n.csr_regs.file@ == f.update(SLOT_XIP as int, latched_xip(f[SLOT_XIP as int], c, pm, ps))
            .update(SLOT_TIME as int, bus.clint.instance@.1)
    })
    &&& n.csr_regs.entries() == o.csr_regs.entries()
    &&& n.pc == o.pc && n.npc == o.npc
    &&& n.gpr@ == o.gpr@
    &&& n.cur_priv == o.cur_priv
    &&& n.cpu_state == o.cpu_state
    &&& n.hart_id == o.hart_id
    &&& n.debug_state == o.debug_state
    &&& n.icache == o.icache
    &&& n.mmu == o.mmu
}

/// A hart as the platform runs it: its core, its decoder and its links to
/// the interrupt controllers.
pub struct Hart {
    pub cpu: CpuCore,
    pub decode: InstDecode,
    pub links: HartLinks,
}

/// Builds harts attached to a bus.
pub struct CpuCoreBuild {
    pub hart_id: usize,
    pub config: Config,
    pub boot_pc: u64,
    pub smode: bool,
}

impl CpuCore {
    /// A hart at reset: M-mode, running, all registers zero, the CSRs as
    /// `CsrRegs::new` makes them, both pcs at `boot_pc`.
    pub fn new(hart_id: usize, boot_pc: u64) -> (r: Self)
        ensures
            r.hart_id == hart_id,
            r.gpr@ == Seq::new(32, |i: int| 0u64),
            r.csr_regs.entries() == super::csr_regs::initial_csr_map(hart_id),
            r.csr_regs.file@ == super::csr_regs::initial_csr_file(),
            r.csr_regs.wf(),
            r.pc == boot_pc && r.npc == boot_pc,
            r.cur_priv == PrivilegeLevels::Machine,
            r.cpu_state == CpuState::Running,
            r.icache.words() == no_words() && r.icache.icache_size == 0,
            tlb_entries(r.mmu.tlb) == Map::<TLBKey, TLBEntry>::empty() && tlb_capacity(r.mmu.tlb) == 0,
    {
        let config = Config::new();
        CpuCore {
            hart_id,
            gpr: Gpr::new(),
            csr_regs: CsrRegs::new(hart_id),
            pc: boot_pc,
            npc: boot_pc,
            cur_priv: PrivilegeLevels::Machine,
            cpu_state: CpuState::Running,
            debug_state: DebugState::new(),
            icache: CpuIcache::new(0),
            mmu: Mmu::new(PrivilegeLevels::Machine, XstatusIn(0), SatpIn(0), &config),
        }
    }

    /// Takes exception `trap_type` raised by the instruction at `pc`: into
    /// S-mode when `medeleg` delegates it and the hart is not in M-mode,
    /// into M-mode otherwise. The target's `xtvec` must name a defined mode.
    #[verifier::rlimit(40)]
    pub fn handle_exceptions(&mut self, trap_type: TrapType)
        requires
            exception_defined(*old(self), trap_type),
        ensures
            exception_entry(*old(self), *final(self), trap_type),
    {
        let medeleg = self.csr_regs.file.get(SLOT_MEDELEG);
        let mut mstatus = XstatusIn(self.csr_regs.file.get(SLOT_XSTATUS));
        let code = trap_type.get_exception_num();
        let has_exception = medeleg & (1u64 << code) != 0;
        let trap_to_s_enable = self.cur_priv.level() <= 1;
        let tval = trap_type.get_tval();
        let cause = trap_type.idx();
        if has_exception && trap_to_s_enable {
            let sie = mstatus.sie();
            mstatus.set_spp(self.cur_priv != PrivilegeLevels::User);
            mstatus.set_spie(sie);
            mstatus.set_sie(false);
            self.csr_regs.file.set(SLOT_XSTATUS, mstatus.0);
            self.csr_regs.file.set(SLOT_SEPC, self.pc);
            self.csr_regs.file.set(SLOT_SCAUSE, cause);
            self.csr_regs.file.set(SLOT_STVAL, tval);
            let stvec = XtvecIn(self.csr_regs.file.get(SLOT_STVEC));
            self.npc = stvec.get_trap_pc(trap_type);
            self.cur_priv = PrivilegeLevels::Supervisor;
        } else {
            let mie = mstatus.mie();
            mstatus.set_mpie(mie);
            mstatus.set_mie(false);
            mstatus.set_mpp(self.cur_priv.level());
            self.csr_regs.file.set(SLOT_XSTATUS, mstatus.0);
            self.csr_regs.file.set(SLOT_MEPC, self.pc);
            self.csr_regs.file.set(SLOT_MCAUSE, cause);
            self.csr_regs.file.set(SLOT_MTVAL, tval);
            let mtvec = XtvecIn(self.csr_regs.file.get(SLOT_MTVEC));
            self.npc = mtvec.get_trap_pc(trap_type);
            self.cur_priv = PrivilegeLevels::Machine;
        }
    }

    /// Takes the pending interrupt of highest priority, if one is enabled:
    /// into M-mode for one not delegated by `mideleg`, else into S-mode;
    /// the interrupted instruction is the next one (`npc`).
    pub fn handle_interrupt(&mut self)
        requires
            old(self).csr_regs.file@.len() == CSR_SLOTS,
            interrupt_entry_defined(old(self).csr_regs.file@, old(self).cur_priv),
        ensures
            interrupt_entry(*old(self), *final(self)),
    {
        let xie = self.csr_regs.file.get(SLOT_XIE);
        let xip = self.csr_regs.file.get(SLOT_XIP);
        let mip_mie_val = xie & xip;
        if mip_mie_val == 0 {
            return;
        }
        let mut mstatus = XstatusIn(self.csr_regs.file.get(SLOT_XSTATUS));
        let mideleg = self.csr_regs.file.get(SLOT_MIDELEG);
        let m_a1 = mstatus.mie() && self.cur_priv == PrivilegeLevels::Machine;
        let m_a2 = self.cur_priv.level() < 3;
        let int_to_m_enable = m_a1 || m_a2;
        let int_to_m_peding = mip_mie_val & !mideleg;
        let s_a1 = mstatus.sie() && self.cur_priv == PrivilegeLevels::Supervisor;
        let s_a2 = self.cur_priv.level() < 1;
        let int_to_s_enable = s_a1 || s_a2;
        let int_to_s_peding = mip_mie_val & mideleg;
        if int_to_m_enable && int_to_m_peding != 0 {
            let cause = XipIn(int_to_m_peding).get_priority_interupt();
            let mie = mstatus.mie();
            mstatus.set_mpie(mie);
            mstatus.set_mie(false);
            mstatus.set_mpp(self.cur_priv.level());
            self.csr_regs.file.set(SLOT_XSTATUS, mstatus.0);
            self.csr_regs.file.set(SLOT_MEPC, self.npc);
            self.csr_regs.file.set(SLOT_MCAUSE, cause.idx());
            let mtvec = XtvecIn(self.csr_regs.file.get(SLOT_MTVEC));
            self.npc = mtvec.get_trap_pc(cause);
            self.cur_priv = PrivilegeLevels::Machine;
        } else if int_to_s_enable && int_to_s_peding != 0 {
            let cause = XipIn(int_to_s_peding).get_priority_interupt();
            let sie = mstatus.sie();
            mstatus.set_spp(self.cur_priv != PrivilegeLevels::User);
            mstatus.set_spie(sie);
            mstatus.set_sie(false);
            self.csr_regs.file.set(SLOT_XSTATUS, mstatus.0);
            self.csr_regs.file.set(SLOT_SEPC, self.npc);
            self.csr_regs.file.set(SLOT_SCAUSE, cause.idx());
            let stvec = XtvecIn(self.csr_regs.file.get(SLOT_STVEC));
            self.cur_priv = PrivilegeLevels::Supervisor;
            self.npc = stvec.get_trap_pc(cause);
        }
    }

    /// Enters debug mode for `cause`, to resume at `pc`: `dcsr` records the
    /// cause and the privilege (and clears V), `dpc` takes `pc`, the hart
    /// halts, and runs in M-mode.
    pub fn enter_debug_mode(&mut self, cause: DebugCause, pc: u64)
        requires
            old(self).csr_regs.file@.len() == CSR_SLOTS,
        ensures
            debug_entry(*old(self), *final(self), cause, pc),
    {
        let mut dcsr = self.csr_regs.file.get(SLOT_DCSR);
        dcsr = set_field(dcsr, 6, 3, cause.code() as u64);
        dcsr = set_field(dcsr, 0, 2, self.cur_priv.level() as u64);
        dcsr = crate::bits::set_flag(dcsr, 5, false);
        self.csr_regs.file.set(SLOT_DCSR, dcsr);
        self.csr_regs.file.set(SLOT_DPC, pc);
        self.debug_state.debug_mode = true;
        self.cpu_state = CpuState::Haltd;
        self.cur_priv = PrivilegeLevels::Machine;
    }


    /// Translates an access of kind `access` of `len` bytes at virtual
    /// address `va`: the MMU is given the hart's `mstatus`, `satp` and
    /// privilege and the kind of the access, and translates it.
    pub fn translate_access<D: DeviceBase>(&mut self, bus: &mut Bus<D>, va: u64, len: usize, access: AccessType) -> (r: Result<u64, TrapType>)
        requires
            old(self).csr_regs.file@.len() == CSR_SLOTS,
            xlate_ready(xs_of(*old(self)), sp_of(*old(self)), access),
        ensures
            *final(self) == (CpuCore { mmu: final(self).mmu, ..*old(self) }),
            xlate(old(self).mmu, xs_of(*old(self)), sp_of(*old(self)), old(self).cur_priv, final(self).mmu,
                *old(bus), *final(bus), va, len, access, r),
    {
        let ms = self.csr_regs.file.get(SLOT_XSTATUS);
        let sp = self.csr_regs.file.get(SLOT_SATP);
        self.mmu.mstatus = XstatusIn(ms);
        self.mmu.satp = SatpIn(sp);
        self.mmu.cur_priv = self.cur_priv;
        self.mmu.update_access_type(&access);
        proof {
            let code = field(sp, 60, 4);
            assert(stap_mode_code(self.mmu.satp_mode) == code);
            assert(self.mmu.satp_mode == stap_mode_of(code)) by {
                match self.mmu.satp_mode {
                    StapMode::Bare => {},
                    StapMode::Sv39 => {},
                    StapMode::Sv48 => {},
                    StapMode::Sv57 => {},
                    StapMode::Sv64 => {},
                }
            }
            assert(self.mmu == mmu_for(old(self).mmu, ms, sp, old(self).cur_priv, access));
        }
        self.mmu.translate(va, len, bus)
    }

    /// Reads the instruction at `addr`: a word at an address aligned to 4
    /// bytes; else, with compressed instructions enabled, one halfword, or
    /// two when the first is not a compressed instruction; else the address
    /// is a misaligned load.
    fn fetch_from_mem<D: DeviceBase>(&mut self, bus: &mut Bus<D>, addr: u64, rvc: bool) -> (r: Result<u64, TrapType>)
        requires
            old(self).csr_regs.file@.len() == CSR_SLOTS,
            fetch_ok(xs_of(*old(self)), sp_of(*old(self)), old(self).cur_priv, old(self).icache, old(self).mmu, *old(bus), addr, rvc),
        ensures
            *final(self) == (CpuCore { icache: final(self).icache, mmu: final(self).mmu, ..*old(self) }),
            fetch_post(xs_of(*old(self)), sp_of(*old(self)), old(self).cur_priv, old(self).icache, old(self).mmu,
                final(self).icache, final(self).mmu, *old(bus), *final(bus), addr, rvc, r),
    {
        let ghost ms = xs_of(*self);
        let ghost sp = sp_of(*self);
        let ghost p = self.cur_priv;
        if check_aligned(addr, 4) {
            self.icahce_read(bus, addr, 4)
        } else if rvc {
            let ghost ob = *bus;
            let ghost oc = self.icache;
            let ghost om = self.mmu;
            let first = self.icahce_read(bus, addr, 2);
            let ghost b1 = *bus;
            let ghost c1 = self.icache;
            let ghost u1 = self.mmu;
            let lo = match first {
                Ok(v) => v,
                Err(e) => return Err(e),
            };
            let low = get_field(lo, 0, 16);
            if get_field(lo, 0, 2) != 3 {
                return Ok(low);
            }
            assert(fetch_read_post(ms, sp, p, oc, om, c1, u1, ob, b1, addr, 2, Ok(lo)));
            let hi_addr = addr + 2;
            let second = self.icahce_read(bus, hi_addr, 2);
            let r = match second {
                Ok(hi) => Ok(low | (get_field(hi, 0, 16) << 16u64)),
                Err(e) => Err(e),
            };
            assert(fetch_read_post(ms, sp, p, c1, u1, self.icache, self.mmu, b1, *bus, hi_addr, 2, second));
            assert(fetch_read_post(ms, sp, p, oc, om, c1, u1, ob, b1, addr, 2, first));
            r
        } else {
            Err(TrapType::LoadAddressMisaligned(addr))
        }
    }

    /// An instruction fetch of `len` bytes at virtual address `addr`: the
    /// address is translated, and the instruction cache reads the physical
    /// address; a failed read is an access fault.
    pub fn icahce_read<D: DeviceBase>(&mut self, bus: &mut Bus<D>, addr: u64, len: usize) -> (r: Result<u64, TrapType>)
        requires
            old(self).csr_regs.file@.len() == CSR_SLOTS,
            fetch_read_ok(xs_of(*old(self)), sp_of(*old(self)), old(self).cur_priv, old(self).icache, old(self).mmu, *old(bus), addr, len),
        ensures
            *final(self) == (CpuCore { icache: final(self).icache, mmu: final(self).mmu, ..*old(self) }),
            fetch_read_post(xs_of(*old(self)), sp_of(*old(self)), old(self).cur_priv, old(self).icache, old(self).mmu,
                final(self).icache, final(self).mmu, *old(bus), *final(bus), addr, len, r),
    {
        let access_type = AccessType::Fetch(addr);
        let ghost ob = *bus;
        let t = self.translate_access(bus, addr, len, access_type);
        let ghost b1 = *bus;
        let ghost nm = self.mmu;
        assert(xlate(old(self).mmu, xs_of(*old(self)), sp_of(*old(self)), old(self).cur_priv, nm, ob, b1, addr, len, access_type, t));
        let paddr = match t {
            Ok(pa) => pa,
            Err(e) => return Err(e),
        };
        let res = self.icache.read(bus, paddr, len);
        assert(icache_read_post(old(self).icache, self.icache, b1, *bus, paddr, len, res));
        match res {
            Ok(data) => Ok(data),
            Err(_err) => Err(access_type.throw_access_exception()),
        }
    }

    /// Fetches the instruction at the next pc, which becomes the pc;
    /// `rvc` tells whether compressed instructions are enabled.
    pub fn inst_fetch<D: DeviceBase>(&mut self, bus: &mut Bus<D>, rvc: bool) -> (r: Result<u64, TrapType>)
        requires
            old(self).csr_regs.file@.len() == CSR_SLOTS,
            fetch_ok(xs_of(*old(self)), sp_of(*old(self)), old(self).cur_priv, old(self).icache, old(self).mmu, *old(bus), old(self).npc, rvc),
        ensures
            *final(self) == (CpuCore { pc: old(self).npc, icache: final(self).icache, mmu: final(self).mmu, ..*old(self) }),
            fetch_post(xs_of(*old(self)), sp_of(*old(self)), old(self).cur_priv, old(self).icache, old(self).mmu,
                final(self).icache, final(self).mmu, *old(bus), *final(bus), old(self).npc, rvc, r),
    {
        self.pc = self.npc;
        let pc = self.pc;
        self.fetch_from_mem(bus, pc, rvc)
    }

    /// The next pc is the one after the instruction `inst` at the pc.
    fn advance_pc(&mut self, inst: u32)
        ensures
            *final(self) == (CpuCore { npc: to_u64(old(self).pc + inst_len(inst)), ..*old(self) }),
    {
        let is_rvc = is_compressed_instruction(inst);
        self.npc = add_wrap(self.pc, if is_rvc { 2 } else { 4 });
    }

    /// Fetches and executes one instruction, and takes the exception it raises.
    pub fn real_excute<D: DeviceBase>(&mut self, bus: &mut Bus<D>, decode: &mut InstDecode)
        requires
            old(decode).wf(),
            old(self).csr_regs.wf(),
            old(self).csr_regs.file@.len() == CSR_SLOTS,
            fetch_ok(xs_of(*old(self)), sp_of(*old(self)), old(self).cur_priv, old(self).icache, old(self).mmu, *old(bus), old(self).npc, old(decode).rvc),
            step_defined(*old(self), *old(bus), old(decode).table(), old(decode).rvc),
        ensures
            final(decode).wf(),
            final(decode).table() == old(decode).table(),
            final(decode).cache_capacity() == old(decode).cache_capacity(),
            final(decode).rvc == old(decode).rvc,
            step_post(*old(self), *final(self), *old(bus), *final(bus), old(decode).table(), old(decode).rvc),
            final(self).csr_regs.wf(),
            final(self).csr_regs.file@.len() == CSR_SLOTS,
    {
        let cycle = self.csr_regs.file.get(SLOT_CYCLE);
        self.csr_regs.file.set(SLOT_CYCLE, add_wrap(cycle, 1));
        let ghost o = *old(self);
        let ghost ob = *old(bus);
        let fetch_ret = self.inst_fetch(bus, decode.rvc);
        let ghost n1 = *bus;
        match fetch_ret {
            Ok(inst_val) => {
                self.advance_pc(inst_val as u32);
                let ghost c1 = *self;
                assert(fetched(o, c1, fetch_ret));
                assert(fetch_post(xs_of(o), sp_of(o), o.cur_priv, o.icache, o.mmu, c1.icache, c1.mmu, ob, n1, o.npc, decode.rvc, fetch_ret));
                assert(c1.csr_regs.wf());
                let exe_ret = self.decode_and_excute(bus, decode, inst_val as u32);
                let ghost c2 = *self;
                match exe_ret {
                    Ok(_) => {
                        let instret = self.csr_regs.file.get(SLOT_INSTRET);
                        self.csr_regs.file.set(SLOT_INSTRET, add_wrap(instret, 1));
                    },
                    Err(t) => {
                        self.handle_exceptions(t);
                    },
                }
            },
            Err(t) => {
                let ghost c1 = *self;
                assert(fetched(o, c1, fetch_ret));
                self.handle_exceptions(t);
            },
        }
    }

    /// Resets the hart and empties the decode cache and the instruction cache.
    fn reset(&mut self, decode: &mut InstDecode)
        requires
            old(self).csr_regs.file@.len() == CSR_SLOTS,
            old(decode).wf(),
        ensures
            reset_state(*old(self), *final(self)),
            final(decode).wf(),
            final(decode).table() == old(decode).table(),
            final(decode).cache_capacity() == old(decode).cache_capacity(),
            final(decode).rvc == old(decode).rvc,
    {
        self.gpr = Gpr::new();
        self.csr_regs.reset();
        self.npc = RESET_PC;
        self.cpu_state = CpuState::Running;
        self.debug_state = DebugState::new();
        decode.reset();
        self.icache.clear();
    }

    /// Leaves debug mode.
    pub fn resume_proc(&mut self)
        requires
            old(self).debug_state.debug_mode,
            old(self).csr_regs.file@.len() == CSR_SLOTS,
        ensures
            resume_state(*old(self), *final(self)),
    {
        self.debug_state.resumereq_flag = false;
        let dcsr = self.csr_regs.file.get(SLOT_DCSR);
        let dpc = self.csr_regs.file.get(SLOT_DPC);
        self.npc = dpc;
        let prv = get_field(dcsr, 0, 2);
        self.cur_priv = PrivilegeLevels::from_level(prv as u8);
        if self.cur_priv.level() < 3 {
            let m = self.csr_regs.file.get(SLOT_XSTATUS);
            self.csr_regs.file.set(SLOT_XSTATUS, crate::bits::set_flag(m, 17, false));
        }
        self.debug_state.debug_mode = false;
        self.cpu_state = CpuState::Running;
        self.debug_state.resumeack = true;
        if crate::bits::get_flag(dcsr, 2) {
            self.debug_state.singlestep_flag = true;
        }
    }

    /// Executes one instruction and enters debug mode after it.
    fn single_step_proc<D: DeviceBase>(&mut self, bus: &mut Bus<D>, decode: &mut InstDecode)
        requires
            old(decode).wf(),
            old(self).csr_regs.wf(),
            old(self).csr_regs.file@.len() == CSR_SLOTS,
            fetch_ok(xs_of(*old(self)), sp_of(*old(self)), old(self).cur_priv, old(self).icache, old(self).mmu, *old(bus), old(self).npc, old(decode).rvc),
            step_defined(step_armed_off(*old(self)), *old(bus), old(decode).table(), old(decode).rvc),
        ensures
            final(decode).wf(),
            final(decode).table() == old(decode).table(),
            final(decode).cache_capacity() == old(decode).cache_capacity(),
            final(decode).rvc == old(decode).rvc,
            exists|mid: CpuCore| #[trigger] step_post(step_armed_off(*old(self)), mid, *old(bus), *final(bus), old(decode).table(), old(decode).rvc)
                && debug_entry(mid, *final(self), DebugCause::Step, mid.npc),
            final(self).csr_regs.wf(),
            final(self).csr_regs.file@.len() == CSR_SLOTS,
    {
        self.debug_state.singlestep_flag = false;
        assert(*self == step_armed_off(*old(self)));
        self.real_excute(bus, decode);
        let ghost mid = *self;
        let npc = self.npc;
        self.enter_debug_mode(DebugCause::Step, npc);
        assert(step_post(step_armed_off(*old(self)), mid, *old(bus), *bus, old(decode).table(), old(decode).rvc));
    }

    /// One turn of the run loop: a running hart resets, halts, single-steps
    /// or executes an instruction and takes a pending interrupt, as its debug
    /// flags say; a halted hart resumes when asked. Whether the hart can go on.
    pub fn step<D: DeviceBase>(&mut self, bus: &mut Bus<D>, decode: &mut InstDecode) -> (r: bool)
        requires
            old(decode).wf(),
            step_ready(*old(self), *old(bus), old(decode).table(), old(decode).rvc),
        ensures
            final(decode).wf(),
            final(decode).table() == old(decode).table(),
            final(decode).cache_capacity() == old(decode).cache_capacity(),
            final(decode).rvc == old(decode).rvc,
            final(self).csr_regs.file@.len() == CSR_SLOTS,
            run_step_post(*old(self), *final(self), *old(bus), *final(bus), old(decode).table(), old(decode).rvc, r),
    {
        match self.cpu_state {
            CpuState::Running => {
                if self.debug_state.resetreq_signal {
                    self.debug_state.havereset = true;
                    self.reset(decode);
                } else if self.debug_state.haltreq_signal {
                    let npc = self.npc;
                    self.enter_debug_mode(DebugCause::HaltReq, npc);
                } else if self.debug_state.singlestep_flag {
                    self.single_step_proc(bus, decode);
                } else {
                    self.real_excute(bus, decode);
                    let ghost mid = *self;
                    self.handle_interrupt();
                    assert(step_post(*old(self), mid, *old(bus), *bus, old(decode).table(), old(decode).rvc));
                }
                true
            },
            CpuState::Haltd => {
                if self.debug_state.resumereq_flag {
                    self.resume_proc();
                }
                true
            },
            _ => false,
        }
    }

    /// Runs up to `num` turns of the run loop, ending early at a hart that
    /// no longer runs.
    pub fn execute<D: DeviceBase>(&mut self, bus: &mut Bus<D>, decode: &mut InstDecode, num: usize)
        requires
            old(decode).wf(),
            old(self).csr_regs.file@.len() == CSR_SLOTS,
            turns_defined(*old(self), *old(bus), old(decode).table(), old(decode).rvc, num as nat),
        ensures
            final(decode).wf(),
            final(decode).table() == old(decode).table(),
            final(decode).cache_capacity() == old(decode).cache_capacity(),
            final(decode).rvc == old(decode).rvc,
            final(self).csr_regs.file@.len() == CSR_SLOTS,
            turns(*old(self), *final(self), *old(bus), *final(bus), old(decode).table(), old(decode).rvc, num as nat),
    {
        let ghost o0 = *self;
        let ghost b0 = *bus;
        let ghost t = decode.table();
        let ghost rvc = decode.rvc;
        let mut i: usize = 0;
        while i < num
            invariant
                0 <= i <= num,
                decode.wf(),
                decode.table() == t && t == old(decode).table(),
                decode.cache_capacity() == old(decode).cache_capacity(),
                decode.rvc == rvc && rvc == old(decode).rvc,
                o0 == *old(self) && b0 == *old(bus),
                self.csr_regs.file@.len() == CSR_SLOTS,
                turns(o0, *self, b0, *bus, t, rvc, i as nat),
                turns_defined(*self, *bus, t, rvc, (num - i) as nat),
            ensures
                decode.wf(),
                decode.table() == t,
                decode.cache_capacity() == old(decode).cache_capacity(),
                decode.rvc == rvc,
                self.csr_regs.file@.len() == CSR_SLOTS,
                turns(o0, *self, b0, *bus, t, rvc, num as nat),
            decreases num - i,
        {
            let ghost m = *self;
            let ghost mb = *bus;
            if !runs_on_exec(self.cpu_state) {
                proof {
                    lemma_turns_stay(o0, m, b0, mb, t, rvc, i as nat, num as nat);
                }
                break;
            }
            let go = self.step(bus, decode);
            proof {
                assert(go);
                assert(turn(m, *self, mb, *bus, t, rvc));
                assert(turns(o0, *self, b0, *bus, t, rvc, (i + 1) as nat));
                assert(turns_defined(*self, *bus, t, rvc, (num - i - 1) as nat));
            }
            i = i + 1;
        }
    }

    /// Runs up to `num` instructions as a reference model: fetch, execute,
    /// take the exception raised, with no interrupt taken and no debug
    /// request looked at; ends early at a hart that is not running.
    pub fn execute_as_ref<D: DeviceBase>(&mut self, bus: &mut Bus<D>, decode: &mut InstDecode, num: usize)
        requires
            old(decode).wf(),
            ref_steps_defined(*old(self), *old(bus), old(decode).table(), old(decode).rvc, num as nat),
        ensures
            final(decode).wf(),
            final(decode).table() == old(decode).table(),
            final(decode).cache_capacity() == old(decode).cache_capacity(),
            final(decode).rvc == old(decode).rvc,
            ref_steps(*old(self), *final(self), *old(bus), *final(bus), old(decode).table(), old(decode).rvc, num as nat),
    {
        let ghost o0 = *self;
        let ghost b0 = *bus;
        let ghost t = decode.table();
        let ghost rvc = decode.rvc;
        let mut i: usize = 0;
        while i < num
            invariant
                0 <= i <= num,
                decode.wf(),
                decode.table() == t && t == old(decode).table(),
                decode.cache_capacity() == old(decode).cache_capacity(),
                decode.rvc == rvc && rvc == old(decode).rvc,
                o0 == *old(self) && b0 == *old(bus),
                ref_steps(o0, *self, b0, *bus, t, rvc, i as nat),
                ref_steps_defined(*self, *bus, t, rvc, (num - i) as nat),
            ensures
                decode.wf(),
                decode.table() == t,
                decode.cache_capacity() == old(decode).cache_capacity(),
                decode.rvc == rvc,
                ref_steps(o0, *self, b0, *bus, t, rvc, num as nat),
            decreases num - i,
        {
            let ghost m = *self;
            let ghost mb = *bus;
            if !matches!(self.cpu_state, CpuState::Running) {
                proof {
                    lemma_ref_steps_stay(o0, m, b0, mb, t, rvc, i as nat, num as nat);
                }
                break;
            }
            self.real_excute(bus, decode);
            proof {
                assert(ref_step(m, *self, mb, *bus, t, rvc));
                assert(ref_steps(o0, *self, b0, *bus, t, rvc, (i + 1) as nat));
                assert(ref_steps_defined(*self, *bus, t, rvc, (num - i - 1) as nat));
            }
            i = i + 1;
        }
    }

    /// Takes the interrupt lines the CLINT and the PLIC drive into `mip`,
    /// and the CLINT's `mtime` into the `time` register.
    pub fn sync_lines<D: DeviceBase>(&mut self, bus: &Bus<D>, links: &HartLinks)
        requires
            old(self).csr_regs.file@.len() == CSR_SLOTS,
            links_valid(*links, *bus),
        ensures
            lines_latched(*old(self), *final(self), *bus, *links),
    {
        let mip = self.csr_regs.file.get(SLOT_XIP);
        let c = bus.clint.instance.harts[links.clint_hart].xip.0;
        let pm = bus.plic.instance.context_xip(links.plic_m).0;
        let v = match links.plic_s {
            Some(s) => {
                let ps = bus.plic.instance.context_xip(s).0;
                (mip & !(CLINT_LINES | MEIP_LINE | SEIP_LINE)) | (c & CLINT_LINES) | (pm & MEIP_LINE) | (ps & SEIP_LINE)
            },
            None => (mip & !(CLINT_LINES | MEIP_LINE)) | (c & CLINT_LINES) | (pm & MEIP_LINE),
        };
        self.csr_regs.file.set(SLOT_XIP, v);
        self.csr_regs.file.set(SLOT_TIME, bus.clint.instance.mitme);
    }
}

impl CpuCoreBuild {
    /// A builder for hart 0, booting at `0x8000_0000`, with S-mode.
    pub fn new(config: Config) -> (r: Self)
        ensures
            r.hart_id == 0 && r.boot_pc == 0x8000_0000 && r.smode,
            r.config == config,
    {
        CpuCoreBuild { hart_id: 0, config, boot_pc: 0x8000_0000, smode: true }
    }

    pub fn with_boot_pc(self, boot_pc: u64) -> (r: Self)
        ensures
            r == (CpuCoreBuild { boot_pc, ..self }),
    {
        CpuCoreBuild { boot_pc, ..self }
    }

    pub fn with_hart_id(self, hart_id: usize) -> (r: Self)
        ensures
            r == (CpuCoreBuild { hart_id, ..self }),
    {
        CpuCoreBuild { hart_id, ..self }
    }

    pub fn with_smode(self, smode: bool) -> (r: Self)
        ensures
            r == (CpuCoreBuild { smode, ..self }),
    {
        CpuCoreBuild { smode, ..self }
    }

    /// Builds the hart: its CSRs with `time`, a hart in the bus's CLINT, an
    /// M-mode context in its PLIC and, with S-mode, an S-mode one; the core
    /// starts stopped at the boot pc, in M-mode.
    pub fn build<D: DeviceBase>(&self, bus: &mut Bus<D>) -> (r: Hart)
        ensures
            r.cpu.hart_id == self.hart_id,
            r.cpu.gpr@ == Seq::new(32, |i: int| 0u64),
            r.cpu.csr_regs.entries() == super::csr_regs::initial_csr_map(self.hart_id)
                .insert(super::inst_base::CSR_TIME, super::csr_regs_define::CsrEnum::Counter(super::csr_regs_define::Counter { inner: SLOT_TIME })),
            r.cpu.csr_regs.file@ == super::csr_regs::initial_csr_file(),
            r.cpu.csr_regs.wf(),
            r.cpu.pc == self.boot_pc && r.cpu.npc == self.boot_pc,
            r.cpu.cur_priv == PrivilegeLevels::Machine,
            r.cpu.cpu_state == CpuState::Stop,
            tlb_entries(r.cpu.mmu.tlb) == Map::<TLBKey, TLBEntry>::empty(),
            tlb_capacity(r.cpu.mmu.tlb) == (match self.config.tlb_size { Some(n) => n, None => 0 }),
            r.decode.wf(),
            r.links.clint_hart == old(bus).clint.instance@.0.len(),
            r.links.plic_m == old(bus).plic.instance@.4.len(),
            r.links.plic_s == (if self.smode { Some((old(bus).plic.instance@.4.len() + 1) as usize) } else { None::<usize> }),
            links_valid(r.links, *final(bus)),
            final(bus).devices == old(bus).devices,
            final(bus).lr_sc_set == old(bus).lr_sc_set,
            final(bus).clint.instance@ == (old(bus).clint.instance@.0.push(
                crate::device::device_sifive_clint::ClintHart { compare: u64::MAX, xip: super::csr_regs_define::XipIn(0) }),
                old(bus).clint.instance@.1),
    {
        let mut csr_regs = CsrRegs::new(self.hart_id);
        let xip = XipIn(csr_regs.file.get(SLOT_XIP));
        let clint_hart = bus.clint.instance.add_hart(xip);
        csr_regs.add_mtime(SLOT_TIME);
        let plic_m = bus.plic.instance.add_context(xip, true);
        let plic_s = if self.smode { Some(bus.plic.instance.add_context(xip, false)) } else { None };
        let cpu = CpuCore {
            hart_id: self.hart_id,
            gpr: Gpr::new(),
            csr_regs,
            pc: self.boot_pc,
            npc: self.boot_pc,
            cur_priv: PrivilegeLevels::Machine,
            cpu_state: CpuState::Stop,
            debug_state: DebugState::new(),
            icache: CpuIcache::new(match self.config.icache_size() {
                Some(n) => n,
                None => 0,
            }),
            mmu: Mmu::new(PrivilegeLevels::Machine, XstatusIn(0), SatpIn(0), &self.config),
        };
        let decode = InstDecode::new(&self.config);
        Hart { cpu, decode, links: HartLinks { clint_hart, plic_m, plic_s } }
    }
}

} // verus!
