//! What each instruction does to a hart: the registers it writes, the pc
//! it jumps to, the memory it reads and writes and the trap it raises.
use vstd::prelude::*;
use crate::bits::{field, get_field, get_field32, lemma_field_bound, lemma_field_lt, lemma_low_mask_values};
use crate::rv64core::cpu_core::{CpuCore, icache_cleared, xlate, xlate_ready, xs_of, sp_of};
use crate::rv64core::mmu::cpu_mmu::Mmu;
use crate::rv64core::gpr::{gpr_value, gpr_written};
use crate::rv64core::traptype::TrapType;
use crate::rv64core::bus::{Bus, bus_read_ok, bus_write_ok, bus_read_post, bus_write_post};
use crate::rv64core::inst_base::{AccessType, PrivilegeLevels, RVerr, misaligned_of, access_fault_of, priv_level};
use crate::rv64core::csr_regs::{CSR_SLOTS, SLOT_XSTATUS, SLOT_MEPC, SLOT_SEPC};
use crate::rv64core::csr_regs_define::Csr;
use crate::device::device_trait::DeviceBase;
use crate::bits::{flag, with_flag, with_field, get_flag, set_flag, set_field};
use crate::tools::{aligned, check_aligned};
use super::inst_format::{
    sign_extend, imm_i, imm_s, imm_b, imm_j, rd_of, rs1_of, rs2_of, csr_of, parse_format_r, parse_format_i,
    parse_format_s, parse_format_b, parse_format_u, parse_format_j, parse_format_csr, sign_extend_bits,
};
use super::inst_op::InstOp;
use crate::rv64core::inst_decode::{InstDecode, first_match};
use super::inst_rvc::{is_c, c_defined, c_post};
use super::inst_alu::{
    alu_value, is_alu, to_u64, signed, sext32, sext32_of, sra_of, lt_signed, add_wrap, sub_wrap, mul_wrap,
    mulh, mulhsu, mulhu, div_s_of, rem_s_of,
};

verus! {

broadcast use lemma_field_bound;

/// The value of register `r` of hart `c`.
pub open spec fn xreg(c: CpuCore, r: u64) -> u64 {
    gpr_value(c.gpr@, r as int)
}

/// `n` is `o` with only its general registers changed.
pub open spec fn same_but_gpr(o: CpuCore, n: CpuCore) -> bool {
    &&& n.icache == o.icache
    &&& n.mmu == o.mmu
    &&& n.hart_id == o.hart_id
    &&& n.csr_regs == o.csr_regs
    &&& n.pc == o.pc
    &&& n.npc == o.npc
    &&& n.cur_priv == o.cur_priv
    &&& n.cpu_state == o.cpu_state
    &&& n.debug_state == o.debug_state
}

/// `n` is `o` with only its general registers and its next pc changed.
pub open spec fn same_but_gpr_npc(o: CpuCore, n: CpuCore) -> bool {
    &&& n.icache == o.icache
    &&& n.mmu == o.mmu
    &&& n.hart_id == o.hart_id
    &&& n.csr_regs == o.csr_regs
    &&& n.pc == o.pc
    &&& n.cur_priv == o.cur_priv
    &&& n.cpu_state == o.cpu_state
    &&& n.debug_state == o.debug_state
}

/// The value the ALU instruction `op` writes, computed.
pub fn alu_compute(op: InstOp, inst: u32, pc: u64, a: u64, b: u64) -> (r: u64)
    requires
        is_alu(op),
    ensures
        r == alu_value(op, inst, pc, a, b),
{
    proof {
        lemma_field_lt(inst as u64, 20, 6);
        lemma_field_lt(inst as u64, 20, 5);
        lemma_low_mask_values();
    }
    let shamt = get_field32(inst, 20, 6);
    let shamt_w = get_field32(inst, 20, 5);
    match op {
        InstOp::Lui => parse_format_u(inst).imm,
        InstOp::Auipc => add_wrap(pc, parse_format_u(inst).imm),
        InstOp::Addi => add_wrap(a, parse_format_i(inst).imm),
        InstOp::Slti => if lt_signed(a, parse_format_i(inst).imm) { 1 } else { 0 },
        InstOp::Sltiu => if a < parse_format_i(inst).imm { 1 } else { 0 },
        InstOp::Xori => a ^ parse_format_i(inst).imm,
        InstOp::Ori => a | parse_format_i(inst).imm,
        InstOp::Andi => a & parse_format_i(inst).imm,
        InstOp::Slli => a << shamt,
        InstOp::Srli => a >> shamt,
        InstOp::Srai => sra_of(a, shamt),
        InstOp::Add => add_wrap(a, b),
        InstOp::Sub => sub_wrap(a, b),
        InstOp::Sll => a << (b % 64),
        InstOp::Slt => if lt_signed(a, b) { 1 } else { 0 },
        InstOp::Sltu => if a < b { 1 } else { 0 },
        InstOp::Xor => a ^ b,
        InstOp::Srl => a >> (b % 64),
        InstOp::Sra => sra_of(a, b % 64),
        InstOp::Or => a | b,
        InstOp::And => a & b,
        InstOp::Addiw => sext32_of(add_wrap(a, parse_format_i(inst).imm)),
        InstOp::Slliw => sext32_of(a << shamt_w),
        InstOp::Srliw => sext32_of(get_field(a, 0, 32) >> shamt_w),
        InstOp::Sraiw => sra_of(sext32_of(a), shamt_w),
        InstOp::Addw => sext32_of(add_wrap(a, b)),
        InstOp::Subw => sext32_of(sub_wrap(a, b)),
        InstOp::Sllw => sext32_of(a << (b % 32)),
        InstOp::Srlw => sext32_of(get_field(a, 0, 32) >> (b % 32)),
        InstOp::Sraw => sra_of(sext32_of(a), b % 32),
        InstOp::Mul => mul_wrap(a, b),
        InstOp::Mulh => mulh(a, b),
        InstOp::Mulhsu => mulhsu(a, b),
        InstOp::Mulhu => mulhu(a, b),
        InstOp::Div => div_s_of(a, b),
        InstOp::Divu => if b == 0 { 0xffff_ffff_ffff_ffff } else { a / b },
        InstOp::Rem => rem_s_of(a, b),
        InstOp::Remu => if b == 0 { a } else { a % b },
        InstOp::Mulw => sext32_of(mul_wrap(a, b)),
        InstOp::Divw => sext32_of(div_s_of(sext32_of(a), sext32_of(b))),
        InstOp::Divuw => {
            let bu = get_field(b, 0, 32);
            if bu == 0 { 0xffff_ffff_ffff_ffff } else { sext32_of(get_field(a, 0, 32) / bu) }
        },
        InstOp::Remw => sext32_of(rem_s_of(sext32_of(a), sext32_of(b))),
        InstOp::Remuw => {
            let bu = get_field(b, 0, 32);
            if bu == 0 { sext32_of(a) } else { sext32_of(get_field(a, 0, 32) % bu) }
        },
        _ => 0,
    }
}

/// Whether the branch `op` is taken for `a = x[rs1]` and `b = x[rs2]`.
pub open spec fn branch_taken(op: InstOp, a: u64, b: u64) -> bool {
    match op {
        InstOp::Beq => a == b,
        InstOp::Bne => a != b,
        InstOp::Blt => signed(a) < signed(b),
        InstOp::Bge => signed(a) >= signed(b),
        InstOp::Bltu => a < b,
        InstOp::Bgeu => a >= b,
        _ => false,
    }
}

pub open spec fn is_branch(op: InstOp) -> bool {
    match op {
        InstOp::Beq | InstOp::Bne | InstOp::Blt | InstOp::Bge | InstOp::Bltu | InstOp::Bgeu => true,
        _ => false,
    }
}

/// What an ALU instruction does.
pub open spec fn alu_post(op: InstOp, inst: u32, pc: u64, o: CpuCore, n: CpuCore) -> bool {
    &&& same_but_gpr(o, n)
    &&& n.gpr@ == gpr_written(o.gpr@, rd_of(inst) as int,
        alu_value(op, inst, pc, xreg(o, rs1_of(inst)), xreg(o, rs2_of(inst))))
}

/// What a conditional branch at `pc` does.
pub open spec fn branch_post(op: InstOp, inst: u32, pc: u64, o: CpuCore, n: CpuCore, r: Result<(), TrapType>) -> bool {
    &&& ({
        let target = to_u64(pc + imm_b(inst));
        if !branch_taken(op, xreg(o, rs1_of(inst)), xreg(o, rs2_of(inst))) {
            r is Ok && n == o
        } else if !aligned(target, 4) {
            r == Err::<(), TrapType>(TrapType::InstructionAddressMisaligned(target))
                && n == o
        } else {
            &&& r is Ok
            &&& n.npc == target
            &&& same_but_gpr_npc(o, n)
            &&& n.gpr@ == o.gpr@
        }
    })
}

/// What `jal` at `pc` does.
pub open spec fn jal_post(inst: u32, pc: u64, o: CpuCore, n: CpuCore, r: Result<(), TrapType>) -> bool {
    &&& ({
        let target = to_u64(pc + imm_j(inst));
        if !aligned(target, 4) {
            r == Err::<(), TrapType>(TrapType::InstructionAddressMisaligned(target))
                && n == o
        } else {
            &&& r is Ok
            &&& n.npc == target
            &&& same_but_gpr_npc(o, n)
            &&& n.gpr@ == gpr_written(o.gpr@, rd_of(inst) as int, to_u64(pc + 4))
        }
    })
}

/// What `jalr` at `pc` does.
pub open spec fn jalr_post(inst: u32, pc: u64, o: CpuCore, n: CpuCore, r: Result<(), TrapType>) -> bool {
    &&& ({
        let target = to_u64(xreg(o, rs1_of(inst)) + imm_i(inst)) & !1u64;
        if !aligned(target, 4) {
            r == Err::<(), TrapType>(TrapType::InstructionAddressMisaligned(target))
                && n == o
        } else {
            &&& r is Ok
            &&& n.npc == target
            &&& same_but_gpr_npc(o, n)
            &&& n.gpr@ == gpr_written(o.gpr@, rd_of(inst) as int, to_u64(pc + 4))
        }
    })
}

/// What a load does.
pub open spec fn load_post<D: DeviceBase>(op: InstOp, inst: u32, o: CpuCore, n: CpuCore, ob: Bus<D>, nb: Bus<D>, r: Result<(), TrapType>) -> bool {
    &&& ({
        let addr = to_u64(xreg(o, rs1_of(inst)) + imm_i(inst));
        exists|nm: Mmu, m: Result<u64, TrapType>| {
            &&& #[trigger] vread_post(o, nm, ob, nb, addr, access_len(op), AccessType::Load(addr), m)
            &&& match m {
                Ok(v) => r is Ok && same_but_gpr(with_mmu(o, nm), n)
                    && n.gpr@ == gpr_written(o.gpr@, rd_of(inst) as int, load_ext(op, v)),
                Err(t) => r == Err::<(), TrapType>(t) && n == with_mmu(o, nm),
            }
        }
    })
}

/// What a store does.
pub open spec fn store_post<D: DeviceBase>(op: InstOp, inst: u32, o: CpuCore, n: CpuCore, ob: Bus<D>, nb: Bus<D>, r: Result<(), TrapType>) -> bool {
    &&& ({
        let addr = to_u64(xreg(o, rs1_of(inst)) + imm_s(inst));
        exists|nm: Mmu, m: Result<u64, TrapType>| {
            &&& #[trigger] vwrite_post(o, nm, ob, nb, addr, store_data(op, xreg(o, rs2_of(inst))), access_len(op), AccessType::Store(addr), m)
            &&& n == with_mmu(o, nm)
            &&& match m {
                Ok(_) => r is Ok,
                Err(t) => r == Err::<(), TrapType>(t),
            }
        }
    })
}

/// What a CSR instruction does.
pub open spec fn csr_post(op: InstOp, inst: u32, o: CpuCore, n: CpuCore, r: Result<(), TrapType>) -> bool {
    &&& same_but_regs(o, n)
    &&& n.csr_regs.wf()
    &&& n.csr_regs.entries() == o.csr_regs.entries()
    &&& ({
        let m = o.csr_regs.entries();
        let f = o.csr_regs.file@;
        let a = csr_of(inst);
        let p = o.cur_priv;
        if !m.dom().contains(a) || !m[a].permitted(f, a, p, AccessType::Load(0)) {
            &&& r == Err::<(), TrapType>(TrapType::IllegalInstruction(0))
            &&& n.csr_regs.file@ == f
            &&& n.gpr@ == o.gpr@
        } else {
            let t = m[a].read_of(f);
            let nv = csr_new_value(op, t, csr_source(op, o, inst));
            if t == nv {
                &&& r is Ok
                &&& n.csr_regs.file@ == f
                &&& n.gpr@ == gpr_written(o.gpr@, rd_of(inst) as int, t)
            } else if !m[a].permitted(f, a, p, AccessType::Store(0)) {
                &&& r == Err::<(), TrapType>(TrapType::IllegalInstruction(0))
                &&& n.csr_regs.file@ == f
                &&& n.gpr@ == o.gpr@
            } else {
                &&& r is Ok
                &&& n.csr_regs.file@ == m[a].write_of(f, nv)
                &&& n.gpr@ == gpr_written(o.gpr@, rd_of(inst) as int, t)
            }
        }
    })
}

/// What a system instruction does.
pub open spec fn system_post(op: InstOp, o: CpuCore, n: CpuCore, r: Result<(), TrapType>) -> bool {
    &&& n.gpr@ == o.gpr@
    &&& n.pc == o.pc
    &&& n.cpu_state == o.cpu_state
    &&& n.hart_id == o.hart_id
    &&& n.debug_state == o.debug_state
    &&& n.csr_regs.entries() == o.csr_regs.entries()
    &&& n.csr_regs.file@.len() == CSR_SLOTS
    &&& ({
        let f = o.csr_regs.file@;
        let m = f[SLOT_XSTATUS as int];
        match op {
            InstOp::Ecall => r == Err::<(), TrapType>(ecall_trap(o.cur_priv)) && n == o,
            InstOp::Ebreak => r == Err::<(), TrapType>(TrapType::Breakpoint(o.pc)) && n == o,
            InstOp::Mret => {
                &&& r is Ok
                &&& n.csr_regs.file@ == f.update(SLOT_XSTATUS as int, mstatus_after_mret(m))
                &&& priv_level(n.cur_priv) == field(m, 11, 2)
                &&& n.npc == f[SLOT_MEPC as int]
                &&& n.icache == o.icache
                &&& n.mmu == o.mmu
            },
            InstOp::Sret => if flag(m, 22) {
                r == Err::<(), TrapType>(TrapType::IllegalInstruction(0)) && n == o
            } else {
                &&& r is Ok
                &&& n.csr_regs.file@ == f.update(SLOT_XSTATUS as int, mstatus_after_sret(m))
                &&& n.cur_priv == (if flag(m, 8) { PrivilegeLevels::Supervisor } else { PrivilegeLevels::User })
                &&& n.npc == f[SLOT_SEPC as int]
                &&& n.icache == o.icache
                &&& n.mmu == o.mmu
            },
            InstOp::FenceI => r is Ok && n == (CpuCore { icache: n.icache, ..o }) && icache_cleared(o.icache, n.icache),
            _ => r is Ok && n == o,
        }
    })
}

/// What a load-reserved does.
pub open spec fn lr_post<D: DeviceBase>(op: InstOp, inst: u32, o: CpuCore, n: CpuCore, ob: Bus<D>, nb: Bus<D>, r: Result<(), TrapType>) -> bool {
    &&& ({
        let addr = xreg(o, rs1_of(inst));
        exists|nm: Mmu, m: Result<u64, TrapType>, n1: Bus<D>| {
            &&& #[trigger] vread_post(o, nm, ob, n1, addr, atomic_len(op), AccessType::Load(addr), m)
            &&& match m {
                Ok(v) => r is Ok && reserved(n1, nb, addr) && same_but_gpr(with_mmu(o, nm), n)
                    && n.gpr@ == gpr_written(o.gpr@, rd_of(inst) as int, atomic_ret(op, v)),
                Err(t) => r == Err::<(), TrapType>(t) && nb == n1 && n == with_mmu(o, nm),
            }
        }
    })
}

/// What a store-conditional does.
pub open spec fn sc_post<D: DeviceBase>(op: InstOp, inst: u32, o: CpuCore, n: CpuCore, ob: Bus<D>, nb: Bus<D>, r: Result<(), TrapType>) -> bool {
    &&& ({
        let addr = xreg(o, rs1_of(inst));
        let b = xreg(o, rs2_of(inst));
        if ob.lr_sc_set.val != addr {
            &&& r is Ok
            &&& reserved(ob, nb, u64::MAX)
            &&& same_but_gpr(o, n)
            &&& n.gpr@ == gpr_written(o.gpr@, rd_of(inst) as int, 1)
        } else {
            exists|nm: Mmu, m: Result<u64, TrapType>, n1: Bus<D>| {
                &&& reserved(ob, n1, u64::MAX)
                &&& #[trigger] vwrite_post(o, nm, n1, nb, addr, b, atomic_len(op), AccessType::Amo(addr), m)
                &&& match m {
                    Ok(_) => r is Ok && same_but_gpr(with_mmu(o, nm), n)
                        && n.gpr@ == gpr_written(o.gpr@, rd_of(inst) as int, 0),
                    Err(t) => r == Err::<(), TrapType>(t) && n == with_mmu(o, nm),
                }
            }
        }
    })
}

/// What an atomic read-modify-write does.
pub open spec fn amo_post<D: DeviceBase>(op: InstOp, inst: u32, o: CpuCore, n: CpuCore, ob: Bus<D>, nb: Bus<D>, r: Result<(), TrapType>) -> bool {
    &&& ({
        let addr = xreg(o, rs1_of(inst));
        let b = xreg(o, rs2_of(inst));
        exists|nm1: Mmu, m1: Result<u64, TrapType>, n1: Bus<D>| {
            &&& #[trigger] vread_post(o, nm1, ob, n1, addr, atomic_len(op), AccessType::Amo(addr), m1)
            &&& match m1 {
                Err(t) => r == Err::<(), TrapType>(t) && nb == n1 && n == with_mmu(o, nm1),
                Ok(v) => exists|nm2: Mmu, m2: Result<u64, TrapType>| {
                    &&& #[trigger] vwrite_post(with_mmu(o, nm1), nm2, n1, nb, addr, amo_value(op, v, b), atomic_len(op), AccessType::Amo(addr), m2)
                    &&& match m2 {
                        Ok(_) => r is Ok && same_but_gpr(with_mmu(o, nm2), n)
                            && n.gpr@ == gpr_written(o.gpr@, rd_of(inst) as int, atomic_ret(op, v)),
                        Err(t) => r == Err::<(), TrapType>(t) && n == with_mmu(o, nm2),
                    }
                },
            }
        }
    })
}

/// What the hart and the bus must hold for instruction `op`, encoded as
/// `inst`, to be carried out: the CSRs are well formed, the devices it
/// touches take the access, a CSR write writes a value the CSR takes, an
/// environment call is not made in the hypervisor mode, and `mret` does not
/// return to it.
pub open spec fn inst_defined<D: DeviceBase>(op: InstOp, inst: u32, o: CpuCore, ob: Bus<D>) -> bool {
    let a = xreg(o, rs1_of(inst));
    let b = xreg(o, rs2_of(inst));
    &&& o.csr_regs.wf()
    &&& o.csr_regs.file@.len() == CSR_SLOTS
    &&& is_load(op) ==> vread_ok(o, ob, to_u64(a + imm_i(inst)), access_len(op), AccessType::Load(to_u64(a + imm_i(inst))))
    &&& is_store(op) ==> vwrite_ok(o, ob, to_u64(a + imm_s(inst)), store_data(op, b), access_len(op), AccessType::Store(to_u64(a + imm_s(inst))))
    &&& is_csr_op(op) ==> csr_write_defined(op, o, inst)
    &&& op == InstOp::Ecall ==> o.cur_priv != PrivilegeLevels::Hypervisor
    &&& op == InstOp::Mret ==> field(o.csr_regs.file@[SLOT_XSTATUS as int], 11, 2) != 2
    &&& (op == InstOp::LrW || op == InstOp::LrD) ==> vread_ok(o, ob, a, atomic_len(op), AccessType::Load(a))
    &&& (op == InstOp::ScW || op == InstOp::ScD) ==> forall|n1: Bus<D>| #[trigger] reserved(ob, n1, u64::MAX)
        ==> vwrite_ok(o, n1, a, b, atomic_len(op), AccessType::Amo(a))
    &&& is_c(op) ==> c_defined(op, inst, o, ob)
    &&& is_amo(op) ==> {
        &&& vread_ok(o, ob, a, atomic_len(op), AccessType::Amo(a))
        &&& forall|nm: Mmu, n: Bus<D>, v: u64| #[trigger] vread_post(o, nm, ob, n, a, atomic_len(op), AccessType::Amo(a), Ok(v))
            ==> vwrite_ok(with_mmu(o, nm), n, a, amo_value(op, v, b), atomic_len(op), AccessType::Amo(a))
    }
}

/// What instruction `op`, encoded as `inst`, does when the hart executes
/// it at its `pc`: `o` and `ob` are the hart and bus before, `n` and `nb`
/// after, `r` its outcome.
pub open spec fn inst_post<D: DeviceBase>(op: InstOp, inst: u32, o: CpuCore, n: CpuCore, ob: Bus<D>, nb: Bus<D>, r: Result<(), TrapType>) -> bool {
    if is_alu(op) {
        alu_post(op, inst, o.pc, o, n) && r is Ok && nb == ob
    } else if is_branch(op) {
        branch_post(op, inst, o.pc, o, n, r) && nb == ob
    } else if op == InstOp::Jal {
        jal_post(inst, o.pc, o, n, r) && nb == ob
    } else if op == InstOp::Jalr {
        jalr_post(inst, o.pc, o, n, r) && nb == ob
    } else if is_load(op) {
        load_post(op, inst, o, n, ob, nb, r)
    } else if is_store(op) {
        store_post(op, inst, o, n, ob, nb, r)
    } else if is_csr_op(op) {
        csr_post(op, inst, o, n, r) && nb == ob
    } else if op == InstOp::SfenceVma {
        sfence_post(inst, o, n, r) && nb == ob
    } else if is_system(op) {
        system_post(op, o, n, r) && nb == ob
    } else if op == InstOp::LrW || op == InstOp::LrD {
        lr_post(op, inst, o, n, ob, nb, r)
    } else if op == InstOp::ScW || op == InstOp::ScD {
        sc_post(op, inst, o, n, ob, nb, r)
    } else if is_c(op) {
        c_post(op, inst, o.pc, o, n, ob, nb, r)
    } else {
        amo_post(op, inst, o, n, ob, nb, r)
    }
}

impl CpuCore {
    /// Executes an ALU instruction: its destination takes the value computed
    /// from its source registers.
    pub fn exec_alu(&mut self, op: InstOp, inst: u32, pc: u64)
        requires
            is_alu(op),
        ensures
            alu_post(op, inst, pc, *old(self), *final(self)),
    {
        let f = parse_format_r(inst);
        let a = self.gpr.read(f.rs1);
        let b = self.gpr.read(f.rs2);
        let v = alu_compute(op, inst, pc, a, b);
        self.gpr.write(f.rd, v);
    }

    /// Executes a conditional branch at `pc`: when taken, the next pc is
    /// `pc` plus the offset, which must be aligned to 4 bytes.
    pub fn exec_branch(&mut self, op: InstOp, inst: u32, pc: u64) -> (r: Result<(), TrapType>)
        requires
            is_branch(op),
        ensures
            branch_post(op, inst, pc, *old(self), *final(self), r),
    {
        let f = parse_format_b(inst);
        let a = self.gpr.read(f.rs1);
        let b = self.gpr.read(f.rs2);
        let taken = match op {
            InstOp::Beq => a == b,
            InstOp::Bne => a != b,
            InstOp::Blt => lt_signed(a, b),
            InstOp::Bge => !lt_signed(a, b),
            InstOp::Bltu => a < b,
            _ => a >= b,
        };
        if taken {
            let next_pc = add_wrap(pc, f.imm);
            if !check_aligned(next_pc, 4) {
                return Err(TrapType::InstructionAddressMisaligned(next_pc));
            }
            self.npc = next_pc;
        }
        Ok(())
    }

    /// Executes `jal` at `pc`: the destination takes the address of the next
    /// instruction and the next pc is `pc` plus the offset, aligned to 4 bytes.
    pub fn exec_jal(&mut self, inst: u32, pc: u64) -> (r: Result<(), TrapType>)
        ensures
            jal_post(inst, pc, *old(self), *final(self), r),
    {
        let f = parse_format_j(inst);
        let wdata = add_wrap(pc, 4);
        let next_pc = add_wrap(pc, f.imm);
        if !check_aligned(next_pc, 4) {
            return Err(TrapType::InstructionAddressMisaligned(next_pc));
        }
        self.npc = next_pc;
        self.gpr.write(f.rd, wdata);
        Ok(())
    }

    /// Executes `jalr` at `pc`: the next pc is `x[rs1]` plus the offset with
    /// bit 0 cleared, aligned to 4 bytes; the destination takes the address
    /// of the next instruction.
    pub fn exec_jalr(&mut self, inst: u32, pc: u64) -> (r: Result<(), TrapType>)
        ensures
            jalr_post(inst, pc, *old(self), *final(self), r),
    {
        let f = parse_format_i(inst);
        let rs1_data = self.gpr.read(f.rs1);
        let wdata = add_wrap(pc, 4);
        let next_pc = add_wrap(rs1_data, f.imm) & !1u64;
        if !check_aligned(next_pc, 4) {
            return Err(TrapType::InstructionAddressMisaligned(next_pc));
        }
        self.npc = next_pc;
        self.gpr.write(f.rd, wdata);
        Ok(())
    }
}

pub open spec fn is_load(op: InstOp) -> bool {
    match op {
        InstOp::Lb | InstOp::Lh | InstOp::Lw | InstOp::Ld | InstOp::Lbu | InstOp::Lhu | InstOp::Lwu => true,
        _ => false,
    }
}

pub open spec fn is_store(op: InstOp) -> bool {
    match op {
        InstOp::Sb | InstOp::Sh | InstOp::Sw | InstOp::Sd => true,
        _ => false,
    }
}

/// The number of bytes a load or store accesses.
pub open spec fn access_len(op: InstOp) -> usize {
    match op {
        InstOp::Lb | InstOp::Lbu | InstOp::Sb => 1,
        InstOp::Lh | InstOp::Lhu | InstOp::Sh => 2,
        InstOp::Lw | InstOp::Lwu | InstOp::Sw => 4,
        _ => 8,
    }
}

/// The register value of a load that read `v`: sign- or zero-extended.
pub open spec fn load_ext(op: InstOp, v: u64) -> u64 {
    match op {
        InstOp::Lb => sign_extend(field(v, 0, 8), 8),
        InstOp::Lh => sign_extend(field(v, 0, 16), 16),
        InstOp::Lw => sext32(v),
        InstOp::Lbu => field(v, 0, 8),
        InstOp::Lhu => field(v, 0, 16),
        InstOp::Lwu => field(v, 0, 32),
        _ => v,
    }
}

/// The data a store of register value `b` hands the bus.
pub open spec fn store_data(op: InstOp, b: u64) -> u64 {
    match op {
        InstOp::Sb => field(b, 0, 8),
        InstOp::Sh => field(b, 0, 16),
        InstOp::Sw => field(b, 0, 32),
        _ => b,
    }
}

/// What a memory access of kind `access` that the bus answered with `r`
/// gives the hart: the value, or the access fault.
pub open spec fn mem_answer(r: Result<u64, RVerr>, access: AccessType) -> Result<u64, TrapType> {
    match r {
        Ok(v) => Ok(v),
        Err(_) => Err(access_fault_of(access)),
    }
}

/// The physical access `r` of kind `access` (`len` bytes at `addr`) took
/// the bus from `o` to `n`: a misaligned address raises the misaligned
/// exception and leaves the bus alone; else the bus answers, and an address
/// no device holds raises the access fault.
pub open spec fn mem_read_post<D: DeviceBase>(o: Bus<D>, n: Bus<D>, addr: u64, len: usize, access: AccessType, r: Result<u64, TrapType>) -> bool {
    if !aligned(addr, len as int) {
        r == Err::<u64, TrapType>(misaligned_of(access)) && n == o
    } else {
        match r {
            Ok(v) => bus_read_post(o, n, addr, len, Ok(v)),
            Err(t) => t == access_fault_of(access) && bus_read_post(o, n, addr, len, Err(RVerr::NotFindDevice)),
        }
    }
}

/// As `mem_read_post`, for a write of `data`.
pub open spec fn mem_write_post<D: DeviceBase>(o: Bus<D>, n: Bus<D>, addr: u64, data: u64, len: usize, access: AccessType, r: Result<u64, TrapType>) -> bool {
    if !aligned(addr, len as int) {
        r == Err::<u64, TrapType>(misaligned_of(access)) && n == o
    } else {
        match r {
            Ok(v) => bus_write_post(o, n, addr, data, len, Ok(v)),
            Err(t) => t == access_fault_of(access) && bus_write_post(o, n, addr, data, len, Err(RVerr::NotFindDevice)),
        }
    }
}

/// Hart `o` with MMU `m`.
pub open spec fn with_mmu(o: CpuCore, m: Mmu) -> CpuCore {
    CpuCore { mmu: m, ..o }
}

/// A read of kind `access` (`len` bytes at virtual address `va`) by hart
/// `o`: the address is translated (the MMU goes to `nm`), then read at the
/// physical address; a translation fault is the answer. The bus goes from
/// `ob` to `nb`.
pub open spec fn vread_post<D: DeviceBase>(o: CpuCore, nm: Mmu, ob: Bus<D>, nb: Bus<D>, va: u64, len: usize, access: AccessType, r: Result<u64, TrapType>) -> bool {
    exists|b1: Bus<D>, t: Result<u64, TrapType>| #[trigger] xlate(o.mmu, xs_of(o), sp_of(o), o.cur_priv, nm, ob, b1, va, len, access, t)
        && match t {
            Err(e) => r == Err::<u64, TrapType>(e) && nb == b1,
            Ok(pa) => mem_read_post(b1, nb, pa, len, access, r),
        }
}

/// As `vread_post`, for a write of `data`.
pub open spec fn vwrite_post<D: DeviceBase>(o: CpuCore, nm: Mmu, ob: Bus<D>, nb: Bus<D>, va: u64, data: u64, len: usize, access: AccessType, r: Result<u64, TrapType>) -> bool {
    exists|b1: Bus<D>, t: Result<u64, TrapType>| #[trigger] xlate(o.mmu, xs_of(o), sp_of(o), o.cur_priv, nm, ob, b1, va, len, access, t)
        && match t {
            Err(e) => r == Err::<u64, TrapType>(e) && nb == b1,
            Ok(pa) => mem_write_post(b1, nb, pa, data, len, access, r),
        }
}

/// A read of kind `access` by hart `o` can be made: it can be translated,
/// and the device at whatever physical address it gets takes the read.
pub open spec fn vread_ok<D: DeviceBase>(o: CpuCore, ob: Bus<D>, va: u64, len: usize, access: AccessType) -> bool {
    &&& o.csr_regs.file@.len() == CSR_SLOTS
    &&& xlate_ready(xs_of(o), sp_of(o), access)
    &&& forall|nm: Mmu, b1: Bus<D>, pa: u64| #[trigger] xlate(o.mmu, xs_of(o), sp_of(o), o.cur_priv, nm, ob, b1, va, len, access, Ok(pa))
        ==> bus_read_ok(b1, pa, len)
}

/// As `vread_ok`, for a write of `data`.
pub open spec fn vwrite_ok<D: DeviceBase>(o: CpuCore, ob: Bus<D>, va: u64, data: u64, len: usize, access: AccessType) -> bool {
    &&& o.csr_regs.file@.len() == CSR_SLOTS
    &&& xlate_ready(xs_of(o), sp_of(o), access)
    &&& forall|nm: Mmu, b1: Bus<D>, pa: u64| #[trigger] xlate(o.mmu, xs_of(o), sp_of(o), o.cur_priv, nm, ob, b1, va, len, access, Ok(pa))
        ==> bus_write_ok(b1, pa, data, len)
}

/// What `sfence.vma` does: the MMU drops the translations of the page
/// holding `x[rs1]` (all of them when it is 0) in address space `x[rs2]`
/// (every one when it is 0).
pub open spec fn sfence_post(inst: u32, o: CpuCore, n: CpuCore, r: Result<(), TrapType>) -> bool {
    &&& r is Ok
    &&& n == with_mmu(o, n.mmu)
    &&& Mmu::fence_post(o.mmu, n.mmu, xreg(o, rs1_of(inst)), xreg(o, rs2_of(inst)) as u16)
}

/// The new value a CSR instruction gives a CSR that read `t`, with source `s`.
pub open spec fn csr_new_value(op: InstOp, t: u64, s: u64) -> u64 {
    match op {
        InstOp::Csrrw | InstOp::Csrrwi => s,
        InstOp::Csrrs | InstOp::Csrrsi => t | s,
        _ => t & !s,
    }
}

pub open spec fn is_csr_op(op: InstOp) -> bool {
    match op {
        InstOp::Csrrw | InstOp::Csrrs | InstOp::Csrrc | InstOp::Csrrwi | InstOp::Csrrsi | InstOp::Csrrci => true,
        _ => false,
    }
}

/// The source of a CSR instruction: `x[rs1]`, or the field `rs1` itself for
/// the immediate forms.
pub open spec fn csr_source(op: InstOp, c: CpuCore, inst: u32) -> u64 {
    match op {
        InstOp::Csrrwi | InstOp::Csrrsi | InstOp::Csrrci => rs1_of(inst),
        _ => xreg(c, rs1_of(inst)),
    }
}

/// A CSR instruction that would write a CSR writes a value the CSR takes.
pub open spec fn csr_write_defined(op: InstOp, c: CpuCore, inst: u32) -> bool {
    let m = c.csr_regs.entries();
    let f = c.csr_regs.file@;
    let a = csr_of(inst);
    m.dom().contains(a) && m[a].permitted(f, a, c.cur_priv, AccessType::Load(0))
        && m[a].permitted(f, a, c.cur_priv, AccessType::Store(0))
        ==> m[a].write_ok(csr_new_value(op, m[a].read_of(f), csr_source(op, c, inst)))
}

/// `n` is `o` with only its general registers and CSRs changed.
pub open spec fn same_but_regs(o: CpuCore, n: CpuCore) -> bool {
    &&& n.icache == o.icache
    &&& n.mmu == o.mmu
    &&& n.hart_id == o.hart_id
    &&& n.pc == o.pc
    &&& n.npc == o.npc
    &&& n.cur_priv == o.cur_priv
    &&& n.cpu_state == o.cpu_state
    &&& n.debug_state == o.debug_state
}

/// The environment call exception raised at privilege `p`.
pub open spec fn ecall_trap(p: PrivilegeLevels) -> TrapType {
    match p {
        PrivilegeLevels::User => TrapType::EnvironmentCallFromUMode,
        PrivilegeLevels::Supervisor => TrapType::EnvironmentCallFromSMode,
        _ => TrapType::EnvironmentCallFromMMode,
    }
}

/// `mstatus` after `mret`: MIE takes MPIE, MPIE is set, MPP becomes U, and
/// MPRV is cleared when the return is to a mode below M.
pub open spec fn mstatus_after_mret(m: u64) -> u64 {
    let r = with_field(with_flag(with_flag(m, 3, flag(m, 7)), 7, true), 11, 2, 0);
    if field(m, 11, 2) != 3 { with_flag(r, 17, false) } else { r }
}

/// `mstatus` after `sret`: SIE takes SPIE, SPIE is set, SPP becomes U, and
/// MPRV is cleared.
pub open spec fn mstatus_after_sret(m: u64) -> u64 {
    with_flag(with_flag(with_flag(with_flag(m, 1, flag(m, 5)), 5, true), 8, false), 17, false)
}

pub open spec fn is_system(op: InstOp) -> bool {
    match op {
        InstOp::Ebreak | InstOp::Ecall | InstOp::Wfi | InstOp::Mret | InstOp::Sret | InstOp::FenceI
        | InstOp::SfenceVma | InstOp::Fence => true,
        _ => false,
    }
}

/// Whether `op` is an atomic read-modify-write.
pub open spec fn is_amo(op: InstOp) -> bool {
    match op {
        InstOp::AmoswapW | InstOp::AmoswapD | InstOp::AmoaddW | InstOp::AmoaddD | InstOp::AmoxorW
        | InstOp::AmoxorD | InstOp::AmoandW | InstOp::AmoandD | InstOp::AmoorW | InstOp::AmoorD
        | InstOp::AmominW | InstOp::AmominD | InstOp::AmomaxW | InstOp::AmomaxD | InstOp::AmominuW
        | InstOp::AmominuD | InstOp::AmomaxuW | InstOp::AmomaxuD => true,
        _ => false,
    }
}

/// Whether an atomic instruction works on 32-bit words.
pub open spec fn is_word_atomic(op: InstOp) -> bool {
    match op {
        InstOp::LrW | InstOp::ScW | InstOp::AmoswapW | InstOp::AmoaddW | InstOp::AmoxorW | InstOp::AmoandW
        | InstOp::AmoorW | InstOp::AmominW | InstOp::AmomaxW | InstOp::AmominuW | InstOp::AmomaxuW => true,
        _ => false,
    }
}

/// The number of bytes an atomic instruction accesses.
pub open spec fn atomic_len(op: InstOp) -> usize {
    if is_word_atomic(op) { 4 } else { 8 }
}

/// The value an atomic read-modify-write stores, from the value `t` read
/// and `b = x[rs2]`; a word operation compares the low words.
pub open spec fn amo_value(op: InstOp, t: u64, b: u64) -> u64 {
    let w = is_word_atomic(op);
    let v = match op {
        InstOp::AmoswapW | InstOp::AmoswapD => b,
        InstOp::AmoaddW | InstOp::AmoaddD => to_u64(t + b),
        InstOp::AmoxorW | InstOp::AmoxorD => t ^ b,
        InstOp::AmoandW | InstOp::AmoandD => t & b,
        InstOp::AmoorW | InstOp::AmoorD => t | b,
        InstOp::AmominW => if signed(sext32(t)) < signed(sext32(b)) { t } else { b },
        InstOp::AmomaxW => if signed(sext32(t)) > signed(sext32(b)) { t } else { b },
        InstOp::AmominuW => if field(t, 0, 32) < field(b, 0, 32) { t } else { b },
        InstOp::AmomaxuW => if field(t, 0, 32) > field(b, 0, 32) { t } else { b },
        InstOp::AmominD => if signed(t) < signed(b) { t } else { b },
        InstOp::AmomaxD => if signed(t) > signed(b) { t } else { b },
        InstOp::AmominuD => if t < b { t } else { b },
        _ => if t > b { t } else { b },
    };
    if w { field(v, 0, 32) } else { v }
}

/// The value an atomic instruction's destination takes from the value `t`
/// read: a word is sign-extended.
pub open spec fn atomic_ret(op: InstOp, t: u64) -> u64 {
    if is_word_atomic(op) { sext32(t) } else { t }
}

/// `n` is `o` with its reservation set to `addr`.
pub open spec fn reserved<D>(o: Bus<D>, n: Bus<D>, val: u64) -> bool {
    &&& n.devices == o.devices
    &&& n.clint == o.clint
    &&& n.plic == o.plic
    &&& n.lr_sc_set.val == val
}

impl CpuCore {
    /// A physical memory read of `len` bytes at `addr`, made by an access of
    /// kind `access`.
    pub fn read<D: DeviceBase>(&mut self, bus: &mut Bus<D>, va: u64, len: usize, access: AccessType) -> (r: Result<u64, TrapType>)
        requires
            vread_ok(*old(self), *old(bus), va, len, access),
        ensures
            *final(self) == with_mmu(*old(self), final(self).mmu),
            vread_post(*old(self), final(self).mmu, *old(bus), *final(bus), va, len, access, r),
    {
        let ghost ob = *bus;
        let t = self.translate_access(bus, va, len, access);
        let ghost b1 = *bus;
        assert(xlate(old(self).mmu, xs_of(*old(self)), sp_of(*old(self)), old(self).cur_priv, self.mmu, ob, b1, va, len, access, t));
        let addr = match t {
            Ok(pa) => pa,
            Err(e) => return Err(e),
        };
        if !check_aligned(addr, len) {
            return Err(access.throw_addr_misaligned_exception());
        }
        match bus.read(addr, len) {
            Ok(v) => Ok(v),
            Err(_e) => Err(access.throw_access_exception()),
        }
    }

    /// A physical memory write of the low `len` bytes of `data` at `addr`,
    /// made by an access of kind `access`.
    pub fn write<D: DeviceBase>(&mut self, bus: &mut Bus<D>, va: u64, data: u64, len: usize, access: AccessType) -> (r: Result<u64, TrapType>)
        requires
            vwrite_ok(*old(self), *old(bus), va, data, len, access),
        ensures
            *final(self) == with_mmu(*old(self), final(self).mmu),
            vwrite_post(*old(self), final(self).mmu, *old(bus), *final(bus), va, data, len, access, r),
    {
        let ghost ob = *bus;
        let t = self.translate_access(bus, va, len, access);
        let ghost b1 = *bus;
        assert(xlate(old(self).mmu, xs_of(*old(self)), sp_of(*old(self)), old(self).cur_priv, self.mmu, ob, b1, va, len, access, t));
        let addr = match t {
            Ok(pa) => pa,
            Err(e) => return Err(e),
        };
        if !check_aligned(addr, len) {
            return Err(access.throw_addr_misaligned_exception());
        }
        match bus.write(addr, data, len) {
            Ok(v) => Ok(v),
            Err(_e) => Err(access.throw_access_exception()),
        }
    }

    /// Executes a load: the destination takes the extended value read at
    /// `x[rs1]` plus the offset.
    pub fn exec_load<D: DeviceBase>(&mut self, bus: &mut Bus<D>, op: InstOp, inst: u32) -> (r: Result<(), TrapType>)
        requires
            is_load(op),
            vread_ok(*old(self), *old(bus), to_u64(xreg(*old(self), rs1_of(inst)) + imm_i(inst)), access_len(op),
                AccessType::Load(to_u64(xreg(*old(self), rs1_of(inst)) + imm_i(inst)))),
        ensures
            load_post(op, inst, *old(self), *final(self), *old(bus), *final(bus), r),
    {
        let f = parse_format_i(inst);
        let rs1 = self.gpr.read(f.rs1);
        let addr = add_wrap(rs1, f.imm);
        let len: usize = match op {
            InstOp::Lb | InstOp::Lbu => 1,
            InstOp::Lh | InstOp::Lhu => 2,
            InstOp::Lw | InstOp::Lwu => 4,
            _ => 8,
        };
        let m = self.read(bus, addr, len, AccessType::Load(addr));
        assert(vread_post(*old(self), self.mmu, *old(bus), *bus, addr, len, AccessType::Load(addr), m));
        match m {
            Ok(v) => {
                let w = match op {
                    InstOp::Lb => sign_extend_bits(get_field(v, 0, 8), 8),
                    InstOp::Lh => sign_extend_bits(get_field(v, 0, 16), 16),
                    InstOp::Lw => sext32_of(v),
                    InstOp::Lbu => get_field(v, 0, 8),
                    InstOp::Lhu => get_field(v, 0, 16),
                    InstOp::Lwu => get_field(v, 0, 32),
                    _ => v,
                };
                self.gpr.write(f.rd, w);
                Ok(())
            },
            Err(t) => Err(t),
        }
    }

    /// Executes a store: the low bytes of `x[rs2]` are written at `x[rs1]`
    /// plus the offset.
    pub fn exec_store<D: DeviceBase>(&mut self, bus: &mut Bus<D>, op: InstOp, inst: u32) -> (r: Result<(), TrapType>)
        requires
            is_store(op),
            vwrite_ok(*old(self), *old(bus), to_u64(xreg(*old(self), rs1_of(inst)) + imm_s(inst)), store_data(op, xreg(*old(self), rs2_of(inst))),
                access_len(op), AccessType::Store(to_u64(xreg(*old(self), rs1_of(inst)) + imm_s(inst)))),
        ensures
            store_post(op, inst, *old(self), *final(self), *old(bus), *final(bus), r),
    {
        let f = parse_format_s(inst);
        let rs1 = self.gpr.read(f.rs1);
        let rs2 = self.gpr.read(f.rs2);
        let addr = add_wrap(rs1, f.imm);
        let (len, data): (usize, u64) = match op {
            InstOp::Sb => (1, get_field(rs2, 0, 8)),
            InstOp::Sh => (2, get_field(rs2, 0, 16)),
            InstOp::Sw => (4, get_field(rs2, 0, 32)),
            _ => (8, rs2),
        };
        let m = self.write(bus, addr, data, len, AccessType::Store(addr));
        assert(vwrite_post(*old(self), self.mmu, *old(bus), *bus, addr, data, len, AccessType::Store(addr), m));
        match m {
            Ok(_) => Ok(()),
            Err(t) => Err(t),
        }
    }
    /// Executes a CSR instruction: the CSR is read (an illegal instruction
    /// when it does not exist or may not be read), takes its new value when
    /// that differs from the old one (an illegal instruction when it may not
    /// be written), and the destination takes the old value.
    pub fn exec_csr(&mut self, op: InstOp, inst: u32) -> (r: Result<(), TrapType>)
        requires
            is_csr_op(op),
            old(self).csr_regs.wf(),
            csr_write_defined(op, *old(self), inst),
        ensures
            csr_post(op, inst, *old(self), *final(self), r),
    {
        let f = parse_format_csr(inst);
        let privi = self.cur_priv;
        let t = match self.csr_regs.read(f.csr, privi) {
            Ok(v) => v,
            Err(e) => return Err(e),
        };
        let src = match op {
            InstOp::Csrrwi | InstOp::Csrrsi | InstOp::Csrrci => f.rs1,
            _ => self.gpr.read(f.rs1),
        };
        let n = match op {
            InstOp::Csrrw | InstOp::Csrrwi => src,
            InstOp::Csrrs | InstOp::Csrrsi => t | src,
            _ => t & !src,
        };
        if t != n {
            if let Err(e) = self.csr_regs.write(f.csr, n, privi) {
                return Err(e);
            }
        }
        self.gpr.write(f.rd, t);
        Ok(())
    }

    /// Executes a system instruction: `ecall` raises the environment call of
    /// the current mode, `ebreak` a breakpoint at the pc, `mret` and `sret`
    /// return from a trap, `fence.i` empties the instruction cache, and the
    /// other fences and `wfi` change nothing.
    pub fn exec_system(&mut self, op: InstOp) -> (r: Result<(), TrapType>)
        requires
            is_system(op),
            old(self).csr_regs.file@.len() == CSR_SLOTS,
            op == InstOp::Ecall ==> old(self).cur_priv != PrivilegeLevels::Hypervisor,
            op == InstOp::Mret ==> field(old(self).csr_regs.file@[SLOT_XSTATUS as int], 11, 2) != 2,
        ensures
            system_post(op, *old(self), *final(self), r),
    {
        match op {
            InstOp::Ecall => match self.cur_priv {
                PrivilegeLevels::User => Err(TrapType::EnvironmentCallFromUMode),
                PrivilegeLevels::Supervisor => Err(TrapType::EnvironmentCallFromSMode),
                _ => Err(TrapType::EnvironmentCallFromMMode),
            },
            InstOp::Ebreak => Err(TrapType::Breakpoint(self.pc)),
            InstOp::Mret => {
                let m = self.csr_regs.file.get(SLOT_XSTATUS);
                let mstatus = crate::rv64core::csr_regs_define::XstatusIn(m);
                let y = mstatus.get_mpp_priv();
                let mut v = set_flag(m, 3, get_flag(m, 7));
                v = set_flag(v, 7, true);
                v = set_field(v, 11, 2, 0);
                if y != PrivilegeLevels::Machine {
                    v = set_flag(v, 17, false);
                }
                self.cur_priv = y;
                self.csr_regs.file.set(SLOT_XSTATUS, v);
                self.npc = self.csr_regs.file.get(SLOT_MEPC);
                Ok(())
            },
            InstOp::Sret => {
                let m = self.csr_regs.file.get(SLOT_XSTATUS);
                if get_flag(m, 22) {
                    return Err(TrapType::IllegalInstruction(0));
                }
                let y = crate::rv64core::csr_regs_define::XstatusIn(m).get_spp_priv();
                let mut v = set_flag(m, 1, get_flag(m, 5));
                v = set_flag(v, 5, true);
                v = set_flag(v, 8, false);
                v = set_flag(v, 17, false);
                self.cur_priv = y;
                self.csr_regs.file.set(SLOT_XSTATUS, v);
                self.npc = self.csr_regs.file.get(SLOT_SEPC);
                Ok(())
            },
            InstOp::FenceI => {
                self.icache.clear();
                Ok(())
            },
            _ => Ok(()),
        }
    }
    /// Executes `sfence.vma`: the MMU drops the translations `x[rs1]` and
    /// `x[rs2]` name (see `Mmu::fence_vma`).
    pub fn exec_sfence_vma(&mut self, inst: u32) -> (r: Result<(), TrapType>)
        ensures
            sfence_post(inst, *old(self), *final(self), r),
    {
        let f = parse_format_r(inst);
        let va = self.gpr.read(f.rs1);
        let asid = self.gpr.read(f.rs2) as u16;
        self.mmu.fence_vma(va, asid);
        Ok(())
    }

    /// Executes a load-reserved: the destination takes the value read at
    /// `x[rs1]`, and that address is reserved.
    pub fn exec_lr<D: DeviceBase>(&mut self, bus: &mut Bus<D>, op: InstOp, inst: u32) -> (r: Result<(), TrapType>)
        requires
            op == InstOp::LrW || op == InstOp::LrD,
            vread_ok(*old(self), *old(bus), xreg(*old(self), rs1_of(inst)), atomic_len(op), AccessType::Load(xreg(*old(self), rs1_of(inst)))),
        ensures
            lr_post(op, inst, *old(self), *final(self), *old(bus), *final(bus), r),
    {
        let f = parse_format_r(inst);
        let addr = self.gpr.read(f.rs1);
        let word = op == InstOp::LrW;
        let len: usize = if word { 4 } else { 8 };
        let m = self.read(bus, addr, len, AccessType::Load(addr));
        let ghost n1 = *bus;
        let ghost nm = self.mmu;
        assert(vread_post(*old(self), nm, *old(bus), n1, addr, atomic_len(op), AccessType::Load(addr), m));
        match m {
            Ok(v) => {
                self.lr_sc_reservation_set(bus, addr);
                let w = if word { sext32_of(v) } else { v };
                self.gpr.write(f.rd, w);
                Ok(())
            },
            Err(t) => Err(t),
        }
    }

    /// Reserves `addr` for a later store-conditional.
    pub fn lr_sc_reservation_set<D>(&self, bus: &mut Bus<D>, addr: u64)
        ensures
            reserved(*old(bus), *final(bus), addr),
    {
        bus.lr_sc_set.set(addr);
    }

    /// Whether `addr` is the reserved address; the reservation is dropped
    /// either way.
    pub fn lr_sc_reservation_check_and_clear<D>(&self, bus: &mut Bus<D>, addr: u64) -> (r: bool)
        ensures
            r == (old(bus).lr_sc_set.val == addr),
            reserved(*old(bus), *final(bus), u64::MAX),
    {
        bus.lr_sc_set.check_and_clear(addr)
    }

    /// Executes a store-conditional: when `x[rs1]` is the reserved address,
    /// `x[rs2]` is stored there and the destination takes 0, else it takes
    /// 1; the reservation is dropped either way.
    pub fn exec_sc<D: DeviceBase>(&mut self, bus: &mut Bus<D>, op: InstOp, inst: u32) -> (r: Result<(), TrapType>)
        requires
            op == InstOp::ScW || op == InstOp::ScD,
            forall|n1: Bus<D>| #[trigger] reserved(*old(bus), n1, u64::MAX)
                ==> vwrite_ok(*old(self), n1, xreg(*old(self), rs1_of(inst)), xreg(*old(self), rs2_of(inst)), atomic_len(op),
                    AccessType::Amo(xreg(*old(self), rs1_of(inst)))),
        ensures
            sc_post(op, inst, *old(self), *final(self), *old(bus), *final(bus), r),
    {
        let f = parse_format_r(inst);
        let addr = self.gpr.read(f.rs1);
        let b = self.gpr.read(f.rs2);
        let len: usize = if op == InstOp::ScW { 4 } else { 8 };
        if self.lr_sc_reservation_check_and_clear(bus, addr) {
            let ghost n1 = *bus;
            assert(reserved(*old(bus), n1, u64::MAX));
            let m = self.write(bus, addr, b, len, AccessType::Amo(addr));
            assert(vwrite_post(*old(self), self.mmu, n1, *bus, addr, b, atomic_len(op), AccessType::Amo(addr), m));
            match m {
                Ok(_) => {
                    self.gpr.write(f.rd, 0);
                    Ok(())
                },
                Err(t) => Err(t),
            }
        } else {
            self.gpr.write(f.rd, 1);
            Ok(())
        }
    }

    /// Executes an atomic read-modify-write at `x[rs1]`: the value read,
    /// combined with `x[rs2]`, is written back, and the destination takes
    /// the value read.
    pub fn exec_amo<D: DeviceBase>(&mut self, bus: &mut Bus<D>, op: InstOp, inst: u32) -> (r: Result<(), TrapType>)
        requires
            is_amo(op),
            vread_ok(*old(self), *old(bus), xreg(*old(self), rs1_of(inst)), atomic_len(op), AccessType::Amo(xreg(*old(self), rs1_of(inst)))),
            forall|nm: Mmu, n: Bus<D>, v: u64| #[trigger] vread_post(*old(self), nm, *old(bus), n, xreg(*old(self), rs1_of(inst)), atomic_len(op),
                AccessType::Amo(xreg(*old(self), rs1_of(inst))), Ok(v))
                ==> vwrite_ok(with_mmu(*old(self), nm), n, xreg(*old(self), rs1_of(inst)), amo_value(op, v, xreg(*old(self), rs2_of(inst))),
                    atomic_len(op), AccessType::Amo(xreg(*old(self), rs1_of(inst)))),
        ensures
            amo_post(op, inst, *old(self), *final(self), *old(bus), *final(bus), r),
    {
        let f = parse_format_r(inst);
        let addr = self.gpr.read(f.rs1);
        let b = self.gpr.read(f.rs2);
        let word = match op {
            InstOp::AmoswapW | InstOp::AmoaddW | InstOp::AmoxorW | InstOp::AmoandW | InstOp::AmoorW
            | InstOp::AmominW | InstOp::AmomaxW | InstOp::AmominuW | InstOp::AmomaxuW => true,
            _ => false,
        };
        let len: usize = if word { 4 } else { 8 };
        let m1 = self.read(bus, addr, len, AccessType::Amo(addr));
        let ghost n1 = *bus;
        let ghost nm1 = self.mmu;
        let ghost o1 = *self;
        assert(vread_post(*old(self), nm1, *old(bus), n1, addr, atomic_len(op), AccessType::Amo(addr), m1));
        let t = match m1 {
            Ok(v) => v,
            Err(e) => {
                return Err(e);
            },
        };
        let v = match op {
            InstOp::AmoswapW | InstOp::AmoswapD => b,
            InstOp::AmoaddW | InstOp::AmoaddD => add_wrap(t, b),
            InstOp::AmoxorW | InstOp::AmoxorD => t ^ b,
            InstOp::AmoandW | InstOp::AmoandD => t & b,
            InstOp::AmoorW | InstOp::AmoorD => t | b,
            InstOp::AmominW => if lt_signed(sext32_of(t), sext32_of(b)) { t } else { b },
            InstOp::AmomaxW => if lt_signed(sext32_of(b), sext32_of(t)) { t } else { b },
            InstOp::AmominuW => if get_field(t, 0, 32) < get_field(b, 0, 32) { t } else { b },
            InstOp::AmomaxuW => if get_field(t, 0, 32) > get_field(b, 0, 32) { t } else { b },
            InstOp::AmominD => if lt_signed(t, b) { t } else { b },
            InstOp::AmomaxD => if lt_signed(b, t) { t } else { b },
            InstOp::AmominuD => if t < b { t } else { b },
            _ => if t > b { t } else { b },
        };
        let data = if word { get_field(v, 0, 32) } else { v };
        assert(data == amo_value(op, t, b));
        assert(o1 == with_mmu(*old(self), nm1));
        let m2 = self.write(bus, addr, data, len, AccessType::Amo(addr));
        assert(vwrite_post(with_mmu(*old(self), nm1), self.mmu, n1, *bus, addr, amo_value(op, t, b), atomic_len(op), AccessType::Amo(addr), m2));
        match m2 {
            Ok(_) => {
                let w = if word { sext32_of(t) } else { t };
                self.gpr.write(f.rd, w);
                Ok(())
            },
            Err(e) => Err(e),
        }
    }
    /// Executes instruction `op`, encoded as `inst`, at the hart's `pc`.
    pub fn exec_inst<D: DeviceBase>(&mut self, bus: &mut Bus<D>, op: InstOp, inst: u32) -> (r: Result<(), TrapType>)
        requires
            inst_defined(op, inst, *old(self), *old(bus)),
        ensures
            inst_post(op, inst, *old(self), *final(self), *old(bus), *final(bus), r),
    {
        let pc = self.pc;
        match op {
            InstOp::Lui | InstOp::Auipc | InstOp::Addi | InstOp::Slti | InstOp::Sltiu | InstOp::Xori
            | InstOp::Ori | InstOp::Andi | InstOp::Slli | InstOp::Srli | InstOp::Srai | InstOp::Add
            | InstOp::Sub | InstOp::Sll | InstOp::Slt | InstOp::Sltu | InstOp::Xor | InstOp::Srl
            | InstOp::Sra | InstOp::Or | InstOp::And | InstOp::Addiw | InstOp::Slliw | InstOp::Srliw
            | InstOp::Sraiw | InstOp::Addw | InstOp::Subw | InstOp::Sllw | InstOp::Srlw | InstOp::Sraw
            | InstOp::Mul | InstOp::Mulh | InstOp::Mulhsu | InstOp::Mulhu | InstOp::Div | InstOp::Divu
            | InstOp::Rem | InstOp::Remu | InstOp::Mulw | InstOp::Divw | InstOp::Divuw | InstOp::Remw
            | InstOp::Remuw => {
                self.exec_alu(op, inst, pc);
                Ok(())
            },
            InstOp::Beq | InstOp::Bne | InstOp::Blt | InstOp::Bge | InstOp::Bltu | InstOp::Bgeu => self.exec_branch(op, inst, pc),
            InstOp::Jal => self.exec_jal(inst, pc),
            InstOp::Jalr => self.exec_jalr(inst, pc),
            InstOp::Lb | InstOp::Lh | InstOp::Lw | InstOp::Ld | InstOp::Lbu | InstOp::Lhu | InstOp::Lwu => self.exec_load(bus, op, inst),
            InstOp::Sb | InstOp::Sh | InstOp::Sw | InstOp::Sd => self.exec_store(bus, op, inst),
            InstOp::Csrrw | InstOp::Csrrs | InstOp::Csrrc | InstOp::Csrrwi | InstOp::Csrrsi | InstOp::Csrrci => self.exec_csr(op, inst),
            InstOp::SfenceVma => self.exec_sfence_vma(inst),
            InstOp::Ebreak | InstOp::Ecall | InstOp::Wfi | InstOp::Mret | InstOp::Sret | InstOp::FenceI
            | InstOp::Fence => self.exec_system(op),
            InstOp::LrW | InstOp::LrD => self.exec_lr(bus, op, inst),
            InstOp::ScW | InstOp::ScD => self.exec_sc(bus, op, inst),
            InstOp::CNop | InstOp::CEbreak | InstOp::CAddi16sp | InstOp::CLwsp | InstOp::CLdsp | InstOp::CSwsp
            | InstOp::CSdsp | InstOp::CLw | InstOp::CLd | InstOp::CSw | InstOp::CSd | InstOp::CJ | InstOp::CJr
            | InstOp::CJalr | InstOp::CBeqz | InstOp::CBnez | InstOp::CLi | InstOp::CLui | InstOp::CAddi
            | InstOp::CAddiw | InstOp::CAddi4spn | InstOp::CSlli | InstOp::CSrli | InstOp::CSrai | InstOp::CAndi
            | InstOp::CMv | InstOp::CAdd | InstOp::CAnd | InstOp::COr | InstOp::CXor | InstOp::CSub
            | InstOp::CAddw | InstOp::CSubw => self.exec_c(bus, op, inst),
            _ => self.exec_amo(bus, op, inst),
        }
    }

    /// Decodes `inst` and executes it at the hart's `pc`; an instruction the
    /// decoder does not know is illegal.
    pub fn decode_and_excute<D: DeviceBase>(&mut self, bus: &mut Bus<D>, decode: &mut InstDecode, inst: u32) -> (r: Result<(), TrapType>)
        requires
            old(decode).wf(),
            match first_match(old(decode).table(), inst) {
                Some(op) => inst_defined(op, inst, *old(self), *old(bus)),
                None => true,
            },
        ensures
            final(decode).wf(),
            final(decode).table() == old(decode).table(),
            final(decode).cache_capacity() == old(decode).cache_capacity(),
            final(decode).rvc == old(decode).rvc,
            match first_match(old(decode).table(), inst) {
                Some(op) => inst_post(op, inst, *old(self), *final(self), *old(bus), *final(bus), r),
                None => r == Err::<(), TrapType>(TrapType::IllegalInstruction(inst as u64))
                    && *final(self) == *old(self) && *final(bus) == *old(bus),
            },
    {
        match decode.fast_path(inst) {
            Some(op) => self.exec_inst(bus, op, inst),
            None => Err(TrapType::IllegalInstruction(inst as u64)),
        }
    }
}

} // verus!
