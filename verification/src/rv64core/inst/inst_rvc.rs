//! What the compressed (16-bit) instructions do to a hart and the bus.
use vstd::prelude::*;
use crate::bits::lemma_field_bound;
use crate::rv64core::cpu_core::CpuCore;
use crate::rv64core::gpr::gpr_written;
use crate::rv64core::traptype::TrapType;
use crate::rv64core::bus::{Bus, bus_read_ok, bus_write_ok};
use crate::rv64core::inst_base::AccessType;
use crate::device::device_trait::DeviceBase;
use crate::tools::{aligned, check_aligned};
use super::inst_format::{
    c_rd, c_rs2, c_rs1p, c_rs2p, imm_c_lwsp, imm_c_ldsp, imm_c_swsp, imm_c_sdsp, imm_c_lw, imm_c_ld,
    imm_c_j, imm_c_b, imm_c_i6, imm_c_lui, imm_c_addi16sp, imm_c_addi4spn, shamt_c, FormatC, parse_format_c,
};
use super::inst_op::{InstOp, op_encoding, encodes, is_compressed_op, lemma_encoding_low_bits};
use super::inst_format::compressed;
use crate::bits::{field, low_mask, lemma_low_mask_values};
use super::inst_alu::{to_u64, sext32, sra, sext32_of, sra_of, add_wrap, sub_wrap};
use super::inst_exec::{xreg, same_but_gpr, same_but_gpr_npc, vread_post, vwrite_post, vread_ok, vwrite_ok, with_mmu};
use crate::rv64core::mmu::cpu_mmu::Mmu;

verus! {

broadcast use lemma_field_bound;

/// Whether `op` is a compressed instruction.
pub open spec fn is_c(op: InstOp) -> bool {
    is_c_alu(op) || is_c_load(op) || is_c_store(op) || is_c_jump(op) || op == InstOp::CNop || op == InstOp::CEbreak
}

/// Whether `op` is a compressed instruction that writes a register computed
/// from registers and its immediate.
pub open spec fn is_c_alu(op: InstOp) -> bool {
    match op {
        InstOp::CLi | InstOp::CLui | InstOp::CAddi | InstOp::CAddiw | InstOp::CAddi16sp | InstOp::CAddi4spn
        | InstOp::CSlli | InstOp::CSrli | InstOp::CSrai | InstOp::CAndi | InstOp::CMv | InstOp::CAdd
        | InstOp::CAnd | InstOp::COr | InstOp::CXor | InstOp::CSub | InstOp::CAddw | InstOp::CSubw => true,
        _ => false,
    }
}

pub open spec fn is_c_load(op: InstOp) -> bool {
    match op {
        InstOp::CLwsp | InstOp::CLdsp | InstOp::CLw | InstOp::CLd => true,
        _ => false,
    }
}

pub open spec fn is_c_store(op: InstOp) -> bool {
    match op {
        InstOp::CSwsp | InstOp::CSdsp | InstOp::CSw | InstOp::CSd => true,
        _ => false,
    }
}

/// The register a compressed ALU instruction writes.
pub open spec fn c_dest(op: InstOp, inst: u32) -> u64 {
    match op {
        InstOp::CAddi16sp => 2,
        InstOp::CAddi4spn => c_rs2p(inst),
        InstOp::CSrli | InstOp::CSrai | InstOp::CAndi | InstOp::CAnd | InstOp::COr | InstOp::CXor
        | InstOp::CSub | InstOp::CAddw | InstOp::CSubw => c_rs1p(inst),
        _ => c_rd(inst),
    }
}

/// The first register a compressed ALU instruction reads: the stack pointer
/// for `c.addi4spn`, else its destination.
pub open spec fn c_src1(op: InstOp, inst: u32) -> u64 {
    if op == InstOp::CAddi4spn { 2 } else { c_dest(op, inst) }
}

/// The second register a compressed ALU instruction reads.
pub open spec fn c_src2(op: InstOp, inst: u32) -> u64 {
    match op {
        InstOp::CMv | InstOp::CAdd => c_rs2(inst),
        _ => c_rs2p(inst),
    }
}

/// The value the compressed ALU instruction `op` writes, for `a` and `b`
/// the values of its two source registers.
pub open spec fn c_alu_value(op: InstOp, inst: u32, a: u64, b: u64) -> u64 {
    match op {
        InstOp::CLi => imm_c_i6(inst),
        InstOp::CLui => imm_c_lui(inst),
        InstOp::CAddi => to_u64(a + imm_c_i6(inst)),
        InstOp::CAddiw => sext32(to_u64(a + imm_c_i6(inst))),
        InstOp::CAddi16sp => to_u64(a + imm_c_addi16sp(inst)),
        InstOp::CAddi4spn => to_u64(a + imm_c_addi4spn(inst)),
        InstOp::CSlli => a << shamt_c(inst),
        InstOp::CSrli => a >> shamt_c(inst),
        InstOp::CSrai => sra(a, shamt_c(inst)),
        InstOp::CAndi => a & imm_c_i6(inst),
        InstOp::CMv => b,
        InstOp::CAdd => to_u64(a + b),
        InstOp::CAnd => a & b,
        InstOp::COr => a | b,
        InstOp::CXor => a ^ b,
        InstOp::CSub => to_u64(a - b),
        InstOp::CAddw => sext32(to_u64(a + b)),
        _ => sext32(to_u64(a - b)),
    }
}

/// The base register of a compressed load or store: the stack pointer for
/// the stack-relative forms.
pub open spec fn c_mem_base(op: InstOp, inst: u32) -> u64 {
    match op {
        InstOp::CLwsp | InstOp::CLdsp | InstOp::CSwsp | InstOp::CSdsp => 2,
        _ => c_rs1p(inst),
    }
}

/// The offset of a compressed load or store.
pub open spec fn c_mem_offset(op: InstOp, inst: u32) -> u64 {
    match op {
        InstOp::CLwsp => imm_c_lwsp(inst),
        InstOp::CLdsp => imm_c_ldsp(inst),
        InstOp::CSwsp => imm_c_swsp(inst),
        InstOp::CSdsp => imm_c_sdsp(inst),
        InstOp::CLw | InstOp::CSw => imm_c_lw(inst),
        _ => imm_c_ld(inst),
    }
}

/// The number of bytes a compressed load or store accesses.
pub open spec fn c_mem_len(op: InstOp) -> usize {
    match op {
        InstOp::CLwsp | InstOp::CLw | InstOp::CSwsp | InstOp::CSw => 4,
        _ => 8,
    }
}

/// The register a compressed load writes.
pub open spec fn c_load_dest(op: InstOp, inst: u32) -> u64 {
    match op {
        InstOp::CLwsp | InstOp::CLdsp => c_rd(inst),
        _ => c_rs2p(inst),
    }
}

/// The register a compressed store writes to memory.
pub open spec fn c_store_src(op: InstOp, inst: u32) -> u64 {
    match op {
        InstOp::CSwsp | InstOp::CSdsp => c_rs2(inst),
        _ => c_rs2p(inst),
    }
}

/// The address a compressed load or store of hart `o` accesses.
pub open spec fn c_addr(op: InstOp, inst: u32, o: CpuCore) -> u64 {
    to_u64(xreg(o, c_mem_base(op, inst)) + c_mem_offset(op, inst))
}

/// The register value of a compressed load that read `v`: a word is sign-extended.
pub open spec fn c_load_value(op: InstOp, v: u64) -> u64 {
    if c_mem_len(op) == 4 { sext32(v) } else { v }
}

/// Whether the compressed branch `op` is taken when its register holds `a`.
pub open spec fn c_branch_taken(op: InstOp, a: u64) -> bool {
    if op == InstOp::CBeqz { a == 0 } else { a != 0 }
}

/// Whether `op` is a compressed jump or branch.
pub open spec fn is_c_jump(op: InstOp) -> bool {
    match op {
        InstOp::CJ | InstOp::CJr | InstOp::CJalr | InstOp::CBeqz | InstOp::CBnez => true,
        _ => false,
    }
}

/// What the compressed jump or branch `op` at `pc` does to hart `o`.
pub open spec fn c_jump_post(op: InstOp, inst: u32, pc: u64, o: CpuCore, n: CpuCore, r: Result<(), TrapType>) -> bool {
    if op == InstOp::CJ {
        r is Ok && n == (CpuCore { npc: to_u64(pc + imm_c_j(inst)), ..o })
    } else if op == InstOp::CJr {
        r is Ok && n == (CpuCore { npc: xreg(o, c_rd(inst)), ..o })
    } else if op == InstOp::CJalr {
        &&& r is Ok
        &&& n.npc == xreg(o, c_rd(inst))
        &&& same_but_gpr_npc(o, n)
        &&& n.gpr@ == gpr_written(o.gpr@, 1, to_u64(pc + 2))
    } else {
        let target = to_u64(pc + imm_c_b(inst));
        if !c_branch_taken(op, xreg(o, c_rs1p(inst))) {
            r is Ok && n == o
        } else if !aligned(target, 2) {
            r == Err::<(), TrapType>(TrapType::InstructionAddressMisaligned(target)) && n == o
        } else {
            r is Ok && n == (CpuCore { npc: target, ..o })
        }
    }
}

/// What the bus must take for the compressed instruction `op` of hart `o`
/// to be carried out: the device a load or store goes to takes the access.
pub open spec fn c_defined<D: DeviceBase>(op: InstOp, inst: u32, o: CpuCore, ob: Bus<D>) -> bool {
    &&& is_c_load(op) ==> vread_ok(o, ob, c_addr(op, inst, o), c_mem_len(op), AccessType::Load(c_addr(op, inst, o)))
    &&& is_c_store(op) ==> vwrite_ok(o, ob, c_addr(op, inst, o), xreg(o, c_store_src(op, inst)), c_mem_len(op),
        AccessType::Store(c_addr(op, inst, o)))
}

/// What the compressed instruction `op`, encoded as `inst`, does when the
/// hart `o` executes it at `pc`: `n` and `nb` are the hart and bus after,
/// `r` its outcome.
pub open spec fn c_post<D: DeviceBase>(op: InstOp, inst: u32, pc: u64, o: CpuCore, n: CpuCore, ob: Bus<D>, nb: Bus<D>, r: Result<(), TrapType>) -> bool {
    if is_c_alu(op) {
        &&& r is Ok && nb == ob
        &&& same_but_gpr(o, n)
        &&& n.gpr@ == gpr_written(o.gpr@, c_dest(op, inst) as int,
            c_alu_value(op, inst, xreg(o, c_src1(op, inst)), xreg(o, c_src2(op, inst))))
    } else if is_c_load(op) {
        let addr = c_addr(op, inst, o);
        exists|nm: Mmu, m: Result<u64, TrapType>| {
            &&& #[trigger] vread_post(o, nm, ob, nb, addr, c_mem_len(op), AccessType::Load(addr), m)
            &&& match m {
                Ok(v) => r is Ok && same_but_gpr(with_mmu(o, nm), n)
                    && n.gpr@ == gpr_written(o.gpr@, c_load_dest(op, inst) as int, c_load_value(op, v)),
                Err(t) => r == Err::<(), TrapType>(t) && n == with_mmu(o, nm),
            }
        }
    } else if is_c_store(op) {
        let addr = c_addr(op, inst, o);
        exists|nm: Mmu, m: Result<u64, TrapType>| {
            &&& #[trigger] vwrite_post(o, nm, ob, nb, addr, xreg(o, c_store_src(op, inst)), c_mem_len(op), AccessType::Store(addr), m)
            &&& n == with_mmu(o, nm)
            &&& match m {
                Ok(_) => r is Ok,
                Err(t) => r == Err::<(), TrapType>(t),
            }
        }
    } else if is_c_jump(op) {
        c_jump_post(op, inst, pc, o, n, r) && nb == ob
    } else if op == InstOp::CEbreak {
        r == Err::<(), TrapType>(TrapType::Breakpoint(pc)) && n == o && nb == ob
    } else {
        r is Ok && n == o && nb == ob
    }
}

/// The value the compressed ALU instruction `op` writes, computed.
fn c_alu_compute(op: InstOp, inst: u32, f: FormatC, a: u64, b: u64) -> (r: u64)
    requires
        is_c_alu(op),
        f.decodes(inst),
        f.shamt < 64,
    ensures
        r == c_alu_value(op, inst, a, b),
{
    match op {
        InstOp::CLi => f.imm_i6,
        InstOp::CLui => f.imm_lui,
        InstOp::CAddi => add_wrap(a, f.imm_i6),
        InstOp::CAddiw => sext32_of(add_wrap(a, f.imm_i6)),
        InstOp::CAddi16sp => add_wrap(a, f.imm_addi16sp),
        InstOp::CAddi4spn => add_wrap(a, f.imm_addi4spn),
        InstOp::CSlli => a << f.shamt,
        InstOp::CSrli => a >> f.shamt,
        InstOp::CSrai => sra_of(a, f.shamt),
        InstOp::CAndi => a & f.imm_i6,
        InstOp::CMv => b,
        InstOp::CAdd => add_wrap(a, b),
        InstOp::CAnd => a & b,
        InstOp::COr => a | b,
        InstOp::CXor => a ^ b,
        InstOp::CSub => sub_wrap(a, b),
        InstOp::CAddw => sext32_of(add_wrap(a, b)),
        _ => sext32_of(sub_wrap(a, b)),
    }
}

impl CpuCore {
    /// Executes a compressed ALU instruction: its destination takes the
    /// value computed from its source registers and immediate.
    pub fn exec_c_alu(&mut self, op: InstOp, inst: u32)
        requires
            is_c_alu(op),
        ensures
            same_but_gpr(*old(self), *final(self)),
            final(self).gpr@ == gpr_written(old(self).gpr@, c_dest(op, inst) as int,
                c_alu_value(op, inst, xreg(*old(self), c_src1(op, inst)), xreg(*old(self), c_src2(op, inst)))),
    {
        let f = parse_format_c(inst);
        let dest = match op {
            InstOp::CAddi16sp => 2,
            InstOp::CAddi4spn => f.rs2p,
            InstOp::CSrli | InstOp::CSrai | InstOp::CAndi | InstOp::CAnd | InstOp::COr | InstOp::CXor
            | InstOp::CSub | InstOp::CAddw | InstOp::CSubw => f.rs1p,
            _ => f.rd,
        };
        let src1 = if matches!(op, InstOp::CAddi4spn) { 2 } else { dest };
        let src2 = match op {
            InstOp::CMv | InstOp::CAdd => f.rs2,
            _ => f.rs2p,
        };
        let a = self.gpr.read(src1);
        let b = self.gpr.read(src2);
        let v = c_alu_compute(op, inst, f, a, b);
        self.gpr.write(dest, v);
    }

    /// Executes a compressed load or store.
    pub fn exec_c_mem<D: DeviceBase>(&mut self, bus: &mut Bus<D>, op: InstOp, inst: u32) -> (r: Result<(), TrapType>)
        requires
            is_c_load(op) || is_c_store(op),
            c_defined(op, inst, *old(self), *old(bus)),
        ensures
            c_post(op, inst, old(self).pc, *old(self), *final(self), *old(bus), *final(bus), r),
    {
        let f = parse_format_c(inst);
        let base = match op {
            InstOp::CLwsp | InstOp::CLdsp | InstOp::CSwsp | InstOp::CSdsp => 2,
            _ => f.rs1p,
        };
        let offset = match op {
            InstOp::CLwsp => f.imm_lwsp,
            InstOp::CLdsp => f.imm_ldsp,
            InstOp::CSwsp => f.imm_swsp,
            InstOp::CSdsp => f.imm_sdsp,
            InstOp::CLw | InstOp::CSw => f.imm_lw,
            _ => f.imm_ld,
        };
        let len: usize = match op {
            InstOp::CLwsp | InstOp::CLw | InstOp::CSwsp | InstOp::CSw => 4,
            _ => 8,
        };
        let addr = add_wrap(self.gpr.read(base), offset);
        match op {
            InstOp::CLwsp | InstOp::CLdsp | InstOp::CLw | InstOp::CLd => {
                let rd = match op {
                    InstOp::CLwsp | InstOp::CLdsp => f.rd,
                    _ => f.rs2p,
                };
                let m = self.read(bus, addr, len, AccessType::Load(addr));
                assert(vread_post(*old(self), self.mmu, *old(bus), *bus, addr, len, AccessType::Load(addr), m));
                match m {
                    Ok(v) => {
                        let w = if len == 4 { sext32_of(v) } else { v };
                        self.gpr.write(rd, w);
                        Ok(())
                    },
                    Err(t) => Err(t),
                }
            },
            _ => {
                let src = match op {
                    InstOp::CSwsp | InstOp::CSdsp => f.rs2,
                    _ => f.rs2p,
                };
                let data = self.gpr.read(src);
                let m = self.write(bus, addr, data, len, AccessType::Store(addr));
                assert(vwrite_post(*old(self), self.mmu, *old(bus), *bus, addr, data, len, AccessType::Store(addr), m));
                match m {
                    Ok(_) => Ok(()),
                    Err(t) => Err(t),
                }
            },
        }
    }

    /// Executes a compressed jump or branch at `pc`: `c.j` adds its offset
    /// to `pc`, `c.jr` and `c.jalr` go to `x[rs1]` (`c.jalr` linking `pc + 2`
    /// in `x1`), and a taken `c.beqz` or `c.bnez` goes to `pc` plus its
    /// offset, which must be aligned to 2 bytes.
    pub fn exec_c_jump(&mut self, op: InstOp, inst: u32, pc: u64) -> (r: Result<(), TrapType>)
        requires
            is_c_jump(op),
        ensures
            c_jump_post(op, inst, pc, *old(self), *final(self), r),
    {
        let f = parse_format_c(inst);
        match op {
            InstOp::CJ => {
                self.npc = add_wrap(pc, f.imm_j);
                Ok(())
            },
            InstOp::CJr => {
                self.npc = self.gpr.read(f.rd);
                Ok(())
            },
            InstOp::CJalr => {
                let target = self.gpr.read(f.rd);
                self.npc = target;
                self.gpr.write(1, add_wrap(pc, 2));
                Ok(())
            },
            _ => {
                let a = self.gpr.read(f.rs1p);
                let taken = if matches!(op, InstOp::CBeqz) { a == 0 } else { a != 0 };
                if taken {
                    let next_pc = add_wrap(pc, f.imm_b);
                    if !check_aligned(next_pc, 2) {
                        return Err(TrapType::InstructionAddressMisaligned(next_pc));
                    }
                    self.npc = next_pc;
                }
                Ok(())
            },
        }
    }
}

/// The low two bits of a word that matches `t` under a mask that covers
/// them are those of `t`.
proof fn lemma_low_bits_match(inst: u32, m: u32, t: u32)
    requires
        inst & m == t,
        m & 3 == 3,
    ensures
        inst & 3 == t & 3,
{
    assert(inst & m == t && m & 3 == 3 ==> inst & 3 == t & 3) by (bit_vector);
}

/// A word decodes to a compressed instruction exactly when its low two bits
/// say it is 16 bits long, so the pc advances past the instruction that is
/// executed.
pub proof fn lemma_decode_agrees_with_length(op: InstOp, inst: u32)
    requires
        encodes(op, inst),
    ensures
        is_c(op) <==> compressed(inst),
{
    lemma_encoding_low_bits(op);
    assert(is_compressed_op(op) == is_c(op));
    lemma_low_bits_match(inst, op_encoding(op).0, op_encoding(op).1);
    lemma_low_mask_values();
    assert(((inst as u64) >> 0u64) & low_mask(2) == (inst & 3) as u64) by (bit_vector)
        requires
            low_mask(2) == 3,
    ;
    assert(field(inst as u64, 0, 2) == (inst & 3) as u64);
}

impl CpuCore {
    /// Executes the compressed instruction `op`, encoded as `inst`, at the
    /// hart's `pc`.
    pub fn exec_c<D: DeviceBase>(&mut self, bus: &mut Bus<D>, op: InstOp, inst: u32) -> (r: Result<(), TrapType>)
        requires
            is_c(op),
            c_defined(op, inst, *old(self), *old(bus)),
        ensures
            c_post(op, inst, old(self).pc, *old(self), *final(self), *old(bus), *final(bus), r),
    {
        let pc = self.pc;
        match op {
            InstOp::CLwsp | InstOp::CLdsp | InstOp::CLw | InstOp::CLd | InstOp::CSwsp | InstOp::CSdsp
            | InstOp::CSw | InstOp::CSd => self.exec_c_mem(bus, op, inst),
            InstOp::CJ | InstOp::CJr | InstOp::CJalr | InstOp::CBeqz | InstOp::CBnez => self.exec_c_jump(op, inst, pc),
            InstOp::CEbreak => Err(TrapType::Breakpoint(pc)),
            InstOp::CNop => Ok(()),
            _ => {
                self.exec_c_alu(op, inst);
                Ok(())
            },
        }
    }
}

} // verus!
