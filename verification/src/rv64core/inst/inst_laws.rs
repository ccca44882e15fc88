//! Laws of the instructions: what the computational, branch, jump, load,
//! store, atomic, CSR and trap-return instructions compute, stated bit by
//! bit or over the integers the words denote, and how the compressed forms
//! relate to the base ones.
use vstd::prelude::*;
use crate::bits::{bit, field, flag, with_field, with_flag, valid_field, lemma_bitwise_bits, lemma_low_mask_values, lemma_shift_mask_bits,
    lemma_field_of_with_field, lemma_field_of_with_other_field, lemma_flag_of_with_flag};
use crate::rv64core::cpu_core::CpuCore;
use crate::rv64core::traptype::TrapType;
use super::inst_format::{imm_i, imm_b, imm_j, rd_of, imm_u, imm_c_i6, shamt_c, rs1_of, rs2_of, sign_extend};
use super::inst_rvc::{c_alu_value, c_branch_taken, c_load_value};
use super::inst_op::InstOp;
use super::inst_alu::{alu_value, signed, to_u64, abs, trunc_div, trunc_rem};
use vstd::arithmetic::div_mod::{lemma_fundamental_div_mod, lemma_fundamental_div_mod_converse};
use super::inst_exec::{amo_value, branch_post, branch_taken, csr_new_value, load_ext, store_data, xreg,
    mstatus_after_mret, mstatus_after_sret, jal_post, jalr_post, lr_post, sc_post, vwrite_post,
    atomic_len};
use crate::rv64core::gpr::gpr_written;
use crate::rv64core::bus::Bus;
use crate::rv64core::mmu::cpu_mmu::Mmu;
use crate::rv64core::inst_base::AccessType;
use crate::device::device_trait::DeviceBase;

verus! {

/// `v` is the integer the 64-bit word `a` denotes in two's complement: it
/// lies in `[-2^63, 2^63)` and differs from `a` by a multiple of `2^64`.
pub open spec fn denotes_signed(a: u64, v: int) -> bool {
    &&& -0x8000_0000_0000_0000 <= v < 0x8000_0000_0000_0000
    &&& (v == a || v == a - 0x1_0000_0000_0000_0000)
}

/// `or` and `ori` write the bitwise or of `x[rs1]` and the second operand
/// (`x[rs2]`, or the sign-extended immediate): a bit of the result is set
/// exactly when it is set in either, so every bit of `x[rs1]` stays set.
pub proof fn lemma_or_bits(inst: u32, pc: u64, a: u64, b: u64)
    ensures
        forall|i: u64| i < 64 ==> #[trigger] bit(alu_value(InstOp::Ori, inst, pc, a, b), i)
            == (bit(a, i) || bit(imm_i(inst), i)),
        forall|i: u64| i < 64 ==> #[trigger] bit(alu_value(InstOp::Or, inst, pc, a, b), i)
            == (bit(a, i) || bit(b, i)),
{
    lemma_bitwise_bits();
}

/// `and` and `andi` write the bitwise and of `x[rs1]` and the second
/// operand: a bit of the result is set exactly when it is set in both.
pub proof fn lemma_and_bits(inst: u32, pc: u64, a: u64, b: u64)
    ensures
        forall|i: u64| i < 64 ==> #[trigger] bit(alu_value(InstOp::Andi, inst, pc, a, b), i)
            == (bit(a, i) && bit(imm_i(inst), i)),
        forall|i: u64| i < 64 ==> #[trigger] bit(alu_value(InstOp::And, inst, pc, a, b), i)
            == (bit(a, i) && bit(b, i)),
{
    lemma_bitwise_bits();
}

/// `xor` and `xori` write the bitwise exclusive or of `x[rs1]` and the
/// second operand: a bit of the result is set exactly when the two differ.
pub proof fn lemma_xor_bits(inst: u32, pc: u64, a: u64, b: u64)
    ensures
        forall|i: u64| i < 64 ==> #[trigger] bit(alu_value(InstOp::Xori, inst, pc, a, b), i)
            == (bit(a, i) != bit(imm_i(inst), i)),
        forall|i: u64| i < 64 ==> #[trigger] bit(alu_value(InstOp::Xor, inst, pc, a, b), i)
            == (bit(a, i) != bit(b, i)),
{
    lemma_bitwise_bits();
}

/// `slt`/`slti` set the destination to 1 exactly when `x[rs1]` is below the
/// second operand as signed integers, `sltu`/`sltiu` as unsigned ones, and
/// to 0 otherwise.
pub proof fn lemma_set_less_than(inst: u32, pc: u64, a: u64, b: u64, va: int, vb: int, vi: int)
    requires
        denotes_signed(a, va),
        denotes_signed(b, vb),
        denotes_signed(imm_i(inst), vi),
    ensures
        alu_value(InstOp::Slt, inst, pc, a, b) == (if va < vb { 1u64 } else { 0u64 }),
        alu_value(InstOp::Slti, inst, pc, a, b) == (if va < vi { 1u64 } else { 0u64 }),
        alu_value(InstOp::Sltu, inst, pc, a, b) == (if a < b { 1u64 } else { 0u64 }),
        alu_value(InstOp::Sltiu, inst, pc, a, b) == (if a < imm_i(inst) { 1u64 } else { 0u64 }),
{
}

/// `add`, `addi`, `sub` and `mul` compute modulo `2^64`.
pub proof fn lemma_add_sub_mul(inst: u32, pc: u64, a: u64, b: u64)
    ensures
        alu_value(InstOp::Add, inst, pc, a, b) as int == (a + b) % 0x1_0000_0000_0000_0000,
        alu_value(InstOp::Addi, inst, pc, a, b) as int == (a + imm_i(inst)) % 0x1_0000_0000_0000_0000,
        alu_value(InstOp::Sub, inst, pc, a, b) as int == (a - b) % 0x1_0000_0000_0000_0000,
        alu_value(InstOp::Mul, inst, pc, a, b) as int == (a * b) % 0x1_0000_0000_0000_0000,
{
}

/// `divu` and `remu` split `x[rs1]` by a nonzero `x[rs2]` into quotient and
/// remainder: `b * q + r == a` with `r < b`. By zero the quotient is all
/// ones and the remainder is the dividend.
pub proof fn lemma_divu_remu(inst: u32, pc: u64, a: u64, b: u64)
    ensures
        b != 0 ==> b * alu_value(InstOp::Divu, inst, pc, a, b) + alu_value(InstOp::Remu, inst, pc, a, b) == a,
        b != 0 ==> alu_value(InstOp::Remu, inst, pc, a, b) < b,
        b == 0 ==> alu_value(InstOp::Divu, inst, pc, a, b) == 0xffff_ffff_ffff_ffffu64,
        b == 0 ==> alu_value(InstOp::Remu, inst, pc, a, b) == a,
{
    if b != 0 {
        vstd::arithmetic::div_mod::lemma_fundamental_div_mod(a as int, b as int);
    }
}

/// The conditional branches compare `x[rs1]` with `x[rs2]`: `beq`/`bne` for
/// equality, `blt`/`bge` as signed integers, `bltu`/`bgeu` as unsigned ones.
pub proof fn lemma_branch_compare(a: u64, b: u64, va: int, vb: int)
    requires
        denotes_signed(a, va),
        denotes_signed(b, vb),
    ensures
        branch_taken(InstOp::Beq, a, b) == (a == b),
        branch_taken(InstOp::Bne, a, b) == (a != b),
        branch_taken(InstOp::Blt, a, b) == (va < vb),
        branch_taken(InstOp::Bge, a, b) == (va >= vb),
        branch_taken(InstOp::Bltu, a, b) == (a < b),
        branch_taken(InstOp::Bgeu, a, b) == (a >= b),
{
}

/// A negative `x[rs1]` (top bit set) is below a non-negative `x[rs2]`:
/// `blt` is taken and `bge` is not, while `bltu` is not taken.
pub proof fn lemma_branch_negative_below(a: u64, b: u64)
    requires
        a >= 0x8000_0000_0000_0000,
        b < 0x8000_0000_0000_0000,
    ensures
        branch_taken(InstOp::Blt, a, b),
        !branch_taken(InstOp::Bge, a, b),
        !branch_taken(InstOp::Bltu, a, b),
{
}

/// `blt` at `pc` jumps to `pc + imm` (modulo `2^64`, when that is 4-byte
/// aligned) exactly when `x[rs1]` is below `x[rs2]` as signed integers; when
/// it is not, the hart is left as it was and execution falls through.
pub proof fn lemma_blt_jumps(inst: u32, pc: u64, o: CpuCore, n: CpuCore, r: Result<(), TrapType>, va: int, vb: int)
    requires
        branch_post(InstOp::Blt, inst, pc, o, n, r),
        denotes_signed(xreg(o, rs1_of(inst)), va),
        denotes_signed(xreg(o, rs2_of(inst)), vb),
    ensures
        va < vb && ((pc + imm_b(inst)) % 0x1_0000_0000_0000_0000) % 4 == 0
            ==> r is Ok && n.npc as int == (pc + imm_b(inst)) % 0x1_0000_0000_0000_0000,
        va >= vb ==> r is Ok && n == o,
{
}

/// The value an atomic memory operation stores, bit by bit: `amoor` the or,
/// `amoand` the and, `amoxor` the exclusive or of the loaded value and
/// `x[rs2]`, `amoswap` `x[rs2]` itself; a word operation stores the low 32
/// bits of it and nothing above them.
pub proof fn lemma_amo_bits(t: u64, b: u64)
    ensures
        forall|i: u64| i < 64 ==> #[trigger] bit(amo_value(InstOp::AmoorD, t, b), i) == (bit(t, i) || bit(b, i)),
        forall|i: u64| i < 64 ==> #[trigger] bit(amo_value(InstOp::AmoorW, t, b), i)
            == (i < 32 && (bit(t, i) || bit(b, i))),
        forall|i: u64| i < 64 ==> #[trigger] bit(amo_value(InstOp::AmoandD, t, b), i) == (bit(t, i) && bit(b, i)),
        forall|i: u64| i < 64 ==> #[trigger] bit(amo_value(InstOp::AmoandW, t, b), i)
            == (i < 32 && bit(t, i) && bit(b, i)),
        forall|i: u64| i < 64 ==> #[trigger] bit(amo_value(InstOp::AmoxorD, t, b), i) == (bit(t, i) != bit(b, i)),
        forall|i: u64| i < 64 ==> #[trigger] bit(amo_value(InstOp::AmoxorW, t, b), i)
            == (i < 32 && bit(t, i) != bit(b, i)),
        amo_value(InstOp::AmoswapD, t, b) == b,
        forall|i: u64| i < 64 ==> #[trigger] bit(amo_value(InstOp::AmoswapW, t, b), i) == (i < 32 && bit(b, i)),
{
    lemma_bitwise_bits();
    lemma_low_mask_values();
}

/// `amoadd.d` stores the sum modulo `2^64`; `amominu.d`/`amomaxu.d` store
/// the smaller/larger of the loaded value and `x[rs2]` as unsigned integers,
/// `amomin.d`/`amomax.d` as signed ones.
pub proof fn lemma_amo_arith(t: u64, b: u64, vt: int, vb: int)
    requires
        denotes_signed(t, vt),
        denotes_signed(b, vb),
    ensures
        amo_value(InstOp::AmoaddD, t, b) as int == (t + b) % 0x1_0000_0000_0000_0000,
        ({
            let m = amo_value(InstOp::AmominuD, t, b);
            (m == t || m == b) && m <= t && m <= b
        }),
        ({
            let m = amo_value(InstOp::AmomaxuD, t, b);
            (m == t || m == b) && m >= t && m >= b
        }),
        ({
            let m = amo_value(InstOp::AmominD, t, b);
            (m == t && vt <= vb) || (m == b && vb <= vt)
        }),
        ({
            let m = amo_value(InstOp::AmomaxD, t, b);
            (m == t && vt >= vb) || (m == b && vb >= vt)
        }),
{
}

/// The value a CSR instruction writes, from the value `t` read and the
/// source `s`: `csrrw`/`csrrwi` write `s`; `csrrs`/`csrrsi` set the bits of
/// `s` and keep the others; `csrrc`/`csrrci` clear the bits of `s` and keep
/// the others.
pub proof fn lemma_csr_new_value_bits(t: u64, s: u64)
    ensures
        csr_new_value(InstOp::Csrrw, t, s) == s,
        csr_new_value(InstOp::Csrrwi, t, s) == s,
        forall|i: u64| i < 64 ==> #[trigger] bit(csr_new_value(InstOp::Csrrs, t, s), i) == (bit(t, i) || bit(s, i)),
        forall|i: u64| i < 64 ==> #[trigger] bit(csr_new_value(InstOp::Csrrsi, t, s), i) == (bit(t, i) || bit(s, i)),
        forall|i: u64| i < 64 ==> #[trigger] bit(csr_new_value(InstOp::Csrrc, t, s), i) == (bit(t, i) && !bit(s, i)),
        forall|i: u64| i < 64 ==> #[trigger] bit(csr_new_value(InstOp::Csrrci, t, s), i) == (bit(t, i) && !bit(s, i)),
{
    lemma_bitwise_bits();
}

/// The low `w` bits of `v` (`w` a byte, half-word or word), with bit `w - 1`
/// copied into every bit above them.
proof fn lemma_sign_extend_low_bits(v: u64, w: u64)
    requires
        w == 8 || w == 16 || w == 32,
    ensures
        forall|i: u64| i < 64 ==> #[trigger] bit(sign_extend(field(v, 0, w), w), i)
            == (if i < w { bit(v, i) } else { bit(v, (w - 1) as u64) }),
        forall|i: u64| i < 64 ==> #[trigger] bit(field(v, 0, w), i) == (i < w && bit(v, i)),
{
    lemma_bitwise_bits();
    lemma_shift_mask_bits();
    lemma_low_mask_values();
    let f = field(v, 0, w);
    assert(flag(f, (w - 1) as u64) == bit(f, (w - 1) as u64));
    if w == 8 {
        assert(bit(f, 7) == bit(v, 7));
    } else if w == 16 {
        assert(bit(f, 15) == bit(v, 15));
    } else {
        assert(bit(f, 31) == bit(v, 31));
    }
    assert forall|i: u64| i < 64 implies #[trigger] bit(sign_extend(f, w), i)
        == (if i < w { bit(v, i) } else { bit(v, (w - 1) as u64) }) by {
        if flag(f, (w - 1) as u64) {
            assert(bit(f | !field(0xffff_ffff_ffff_ffffu64, 0, w), i) == (bit(f, i) || bit(!field(0xffff_ffff_ffff_ffffu64, 0, w), i)));
        }
    }
}

/// The shifts: `sll`/`slli` move the bits of `x[rs1]` up by the shift
/// amount and fill with zeros, `srl`/`srli` move them down and fill with
/// zeros, `sra`/`srai` move them down and fill with the sign bit. The
/// amount is the low 6 bits of `x[rs2]`, or the 6-bit field at bit 20 of
/// the instruction.
pub proof fn lemma_shift_bits(inst: u32, pc: u64, a: u64, b: u64)
    ensures
        forall|i: u64| i < 64 ==> #[trigger] bit(alu_value(InstOp::Sll, inst, pc, a, b), i)
            == (i >= b % 64 && bit(a, (i - b % 64) as u64)),
        forall|i: u64| i < 64 ==> #[trigger] bit(alu_value(InstOp::Srl, inst, pc, a, b), i)
            == (i + b % 64 < 64 && bit(a, (i + b % 64) as u64)),
        forall|i: u64| i < 64 ==> #[trigger] bit(alu_value(InstOp::Sra, inst, pc, a, b), i)
            == (if i + b % 64 < 64 { bit(a, (i + b % 64) as u64) } else { bit(a, 63) }),
        forall|i: u64| i < 64 ==> #[trigger] bit(alu_value(InstOp::Slli, inst, pc, a, b), i)
            == (i >= field(inst as u64, 20, 6) && bit(a, (i - field(inst as u64, 20, 6)) as u64)),
        forall|i: u64| i < 64 ==> #[trigger] bit(alu_value(InstOp::Srli, inst, pc, a, b), i)
            == (i + field(inst as u64, 20, 6) < 64 && bit(a, (i + field(inst as u64, 20, 6)) as u64)),
        forall|i: u64| i < 64 ==> #[trigger] bit(alu_value(InstOp::Srai, inst, pc, a, b), i)
            == (if i + field(inst as u64, 20, 6) < 64 { bit(a, (i + field(inst as u64, 20, 6)) as u64) } else { bit(a, 63) }),
{
    lemma_bitwise_bits();
    lemma_shift_mask_bits();
    lemma_low_mask_values();
    crate::bits::lemma_field_lt(inst as u64, 20, 6);
    assert(flag(a, 63) == bit(a, 63));
    let sh = field(inst as u64, 20, 6);
    assert forall|i: u64| i < 64 implies #[trigger] bit(alu_value(InstOp::Sra, inst, pc, a, b), i)
        == (if i + b % 64 < 64 { bit(a, (i + b % 64) as u64) } else { bit(a, 63) }) by {
        let s = b % 64;
        if flag(a, 63) {
            assert(bit((a >> s) | !(0xffff_ffff_ffff_ffffu64 >> s), i) == (bit(a >> s, i) || bit(!(0xffff_ffff_ffff_ffffu64 >> s), i)));
        }
    }
    assert forall|i: u64| i < 64 implies #[trigger] bit(alu_value(InstOp::Srai, inst, pc, a, b), i)
        == (if i + sh < 64 { bit(a, (i + sh) as u64) } else { bit(a, 63) }) by {
        if flag(a, 63) {
            assert(bit((a >> sh) | !(0xffff_ffff_ffff_ffffu64 >> sh), i) == (bit(a >> sh, i) || bit(!(0xffff_ffff_ffff_ffffu64 >> sh), i)));
        }
    }
}

/// A load writes the bytes it read sign-extended (`lb`, `lh`, `lw`) or
/// zero-extended (`lbu`, `lhu`, `lwu`); a store hands the bus the low byte,
/// half-word or word of `x[rs2]`.
pub proof fn lemma_load_store_extend(v: u64)
    ensures
        forall|i: u64| i < 64 ==> #[trigger] bit(load_ext(InstOp::Lb, v), i) == (if i < 8 { bit(v, i) } else { bit(v, 7) }),
        forall|i: u64| i < 64 ==> #[trigger] bit(load_ext(InstOp::Lh, v), i) == (if i < 16 { bit(v, i) } else { bit(v, 15) }),
        forall|i: u64| i < 64 ==> #[trigger] bit(load_ext(InstOp::Lw, v), i) == (if i < 32 { bit(v, i) } else { bit(v, 31) }),
        forall|i: u64| i < 64 ==> #[trigger] bit(load_ext(InstOp::Lbu, v), i) == (i < 8 && bit(v, i)),
        forall|i: u64| i < 64 ==> #[trigger] bit(load_ext(InstOp::Lhu, v), i) == (i < 16 && bit(v, i)),
        forall|i: u64| i < 64 ==> #[trigger] bit(load_ext(InstOp::Lwu, v), i) == (i < 32 && bit(v, i)),
        load_ext(InstOp::Ld, v) == v,
        forall|i: u64| i < 64 ==> #[trigger] bit(store_data(InstOp::Sb, v), i) == (i < 8 && bit(v, i)),
        forall|i: u64| i < 64 ==> #[trigger] bit(store_data(InstOp::Sh, v), i) == (i < 16 && bit(v, i)),
        forall|i: u64| i < 64 ==> #[trigger] bit(store_data(InstOp::Sw, v), i) == (i < 32 && bit(v, i)),
        store_data(InstOp::Sd, v) == v,
{
    lemma_sign_extend_low_bits(v, 8);
    lemma_sign_extend_low_bits(v, 16);
    lemma_sign_extend_low_bits(v, 32);
}

/// The 32-bit operations `addw`, `addiw`, `subw` and `mulw` write the low
/// word of the 64-bit result, sign-extended from its bit 31.
pub proof fn lemma_word_ops(inst: u32, pc: u64, a: u64, b: u64)
    ensures
        ({
            let s = ((a + b) % 0x1_0000_0000_0000_0000) as u64;
            forall|i: u64| i < 64 ==> #[trigger] bit(alu_value(InstOp::Addw, inst, pc, a, b), i)
                == (if i < 32 { bit(s, i) } else { bit(s, 31) })
        }),
        ({
            let s = ((a + imm_i(inst)) % 0x1_0000_0000_0000_0000) as u64;
            forall|i: u64| i < 64 ==> #[trigger] bit(alu_value(InstOp::Addiw, inst, pc, a, b), i)
                == (if i < 32 { bit(s, i) } else { bit(s, 31) })
        }),
        ({
            let s = ((a - b) % 0x1_0000_0000_0000_0000) as u64;
            forall|i: u64| i < 64 ==> #[trigger] bit(alu_value(InstOp::Subw, inst, pc, a, b), i)
                == (if i < 32 { bit(s, i) } else { bit(s, 31) })
        }),
        ({
            let s = ((a * b) % 0x1_0000_0000_0000_0000) as u64;
            forall|i: u64| i < 64 ==> #[trigger] bit(alu_value(InstOp::Mulw, inst, pc, a, b), i)
                == (if i < 32 { bit(s, i) } else { bit(s, 31) })
        }),
{
    lemma_sign_extend_low_bits(((a + b) % 0x1_0000_0000_0000_0000) as u64, 32);
    lemma_sign_extend_low_bits(((a + imm_i(inst)) % 0x1_0000_0000_0000_0000) as u64, 32);
    lemma_sign_extend_low_bits(((a - b) % 0x1_0000_0000_0000_0000) as u64, 32);
    lemma_sign_extend_low_bits(((a * b) % 0x1_0000_0000_0000_0000) as u64, 32);
}

/// `lui` writes its sign-extended upper immediate and `auipc` adds it to
/// the pc, modulo `2^64`.
pub proof fn lemma_upper_immediates(inst: u32, pc: u64, a: u64, b: u64)
    ensures
        alu_value(InstOp::Lui, inst, pc, a, b) == imm_u(inst),
        alu_value(InstOp::Auipc, inst, pc, a, b) as int == (pc + imm_u(inst)) % 0x1_0000_0000_0000_0000,
{
}

/// A compressed instruction does what the base instruction it expands to
/// does: `c.add`, `c.sub`, `c.and`, `c.or`, `c.xor`, `c.addw` and `c.subw`
/// compute as `add`, `sub`, `and`, `or`, `xor`, `addw` and `subw`; `c.mv`
/// as `add` from `x0`; `c.addi`, `c.andi` and `c.addiw` as `addi`, `andi`
/// and `addiw` with the same immediate, the shifts as `slli`, `srli` and
/// `srai` by the same amount; `c.beqz`/`c.bnez` as `beq`/`bne` against
/// zero; `c.lw`/`c.lwsp` load as `lw` and `c.ld`/`c.ldsp` as `ld`.
pub proof fn lemma_compressed_expansion(ci: u32, inst: u32, pc: u64, a: u64, b: u64, v: u64)
    ensures
        c_alu_value(InstOp::CAdd, ci, a, b) == alu_value(InstOp::Add, inst, pc, a, b),
        c_alu_value(InstOp::CSub, ci, a, b) == alu_value(InstOp::Sub, inst, pc, a, b),
        c_alu_value(InstOp::CAnd, ci, a, b) == alu_value(InstOp::And, inst, pc, a, b),
        c_alu_value(InstOp::COr, ci, a, b) == alu_value(InstOp::Or, inst, pc, a, b),
        c_alu_value(InstOp::CXor, ci, a, b) == alu_value(InstOp::Xor, inst, pc, a, b),
        c_alu_value(InstOp::CAddw, ci, a, b) == alu_value(InstOp::Addw, inst, pc, a, b),
        c_alu_value(InstOp::CSubw, ci, a, b) == alu_value(InstOp::Subw, inst, pc, a, b),
        c_alu_value(InstOp::CMv, ci, a, b) == alu_value(InstOp::Add, inst, pc, 0, b),
        imm_i(inst) == imm_c_i6(ci) ==> c_alu_value(InstOp::CAddi, ci, a, b) == alu_value(InstOp::Addi, inst, pc, a, b),
        imm_i(inst) == imm_c_i6(ci) ==> c_alu_value(InstOp::CAndi, ci, a, b) == alu_value(InstOp::Andi, inst, pc, a, b),
        imm_i(inst) == imm_c_i6(ci) ==> c_alu_value(InstOp::CAddiw, ci, a, b) == alu_value(InstOp::Addiw, inst, pc, a, b),
        field(inst as u64, 20, 6) == shamt_c(ci) ==> c_alu_value(InstOp::CSlli, ci, a, b) == alu_value(InstOp::Slli, inst, pc, a, b),
        field(inst as u64, 20, 6) == shamt_c(ci) ==> c_alu_value(InstOp::CSrli, ci, a, b) == alu_value(InstOp::Srli, inst, pc, a, b),
        field(inst as u64, 20, 6) == shamt_c(ci) ==> c_alu_value(InstOp::CSrai, ci, a, b) == alu_value(InstOp::Srai, inst, pc, a, b),
        c_branch_taken(InstOp::CBeqz, a) == branch_taken(InstOp::Beq, a, 0),
        c_branch_taken(InstOp::CBnez, a) == branch_taken(InstOp::Bne, a, 0),
        c_load_value(InstOp::CLw, v) == load_ext(InstOp::Lw, v),
        c_load_value(InstOp::CLwsp, v) == load_ext(InstOp::Lw, v),
        c_load_value(InstOp::CLd, v) == load_ext(InstOp::Ld, v),
        c_load_value(InstOp::CLdsp, v) == load_ext(InstOp::Ld, v),
{
}

/// The integer a word denotes is its signed value.
proof fn lemma_denotes_signed(a: u64, v: int)
    requires
        denotes_signed(a, v),
    ensures
        v == signed(a),
{
}

/// A signed integer in range survives the round trip through its word.
proof fn lemma_signed_to_u64(x: int)
    requires
        -0x8000_0000_0000_0000 <= x < 0x8000_0000_0000_0000,
    ensures
        signed(to_u64(x)) == x,
{
    if x < 0 {
        lemma_fundamental_div_mod_converse(x, 0x1_0000_0000_0000_0000, -1, x + 0x1_0000_0000_0000_0000);
    } else {
        lemma_fundamental_div_mod_converse(x, 0x1_0000_0000_0000_0000, 0, x);
    }
}

/// `div` and `rem` divide `x[rs1]` by a nonzero `x[rs2]` as signed integers,
/// rounding toward zero: `q * b + r == a`, the remainder is smaller than the
/// divisor in magnitude, and a nonzero remainder has the sign of the
/// dividend. The one quotient that does not fit, of the most negative value
/// by -1, wraps to the dividend with remainder 0.
pub proof fn lemma_div_rem_signed(inst: u32, pc: u64, a: u64, b: u64, va: int, vb: int, vq: int, vr: int)
    requires
        denotes_signed(a, va),
        denotes_signed(b, vb),
        denotes_signed(alu_value(InstOp::Div, inst, pc, a, b), vq),
        denotes_signed(alu_value(InstOp::Rem, inst, pc, a, b), vr),
    ensures
        vb != 0 && !(va == -0x8000_0000_0000_0000 && vb == -1) ==> {
            &&& vq * vb + vr == va
            &&& vb > 0 ==> -vb < vr < vb
            &&& vb < 0 ==> vb < vr < -vb
            &&& vr == 0 || ((vr < 0) == (va < 0))
        },
        va == -0x8000_0000_0000_0000 && vb == -1 ==> alu_value(InstOp::Div, inst, pc, a, b) == a
            && alu_value(InstOp::Rem, inst, pc, a, b) == 0,
{
    lemma_denotes_signed(a, va);
    lemma_denotes_signed(b, vb);
    let q = alu_value(InstOp::Div, inst, pc, a, b);
    let r = alu_value(InstOp::Rem, inst, pc, a, b);
    lemma_denotes_signed(q, vq);
    lemma_denotes_signed(r, vr);
    if vb != 0 {
        let aa = abs(va);
        let bb = abs(vb);
        lemma_fundamental_div_mod(aa, bb);
        let qq = aa / bb;
        let rr = aa % bb;
        assert(0 <= qq) by (nonlinear_arith)
            requires
                aa == bb * qq + rr,
                0 <= rr < bb,
                aa >= 0,
        ;
        assert(qq <= aa) by (nonlinear_arith)
            requires
                aa == bb * qq + rr,
                0 <= rr,
                bb >= 1,
                qq >= 0,
        ;
        if !(va == -0x8000_0000_0000_0000 && vb == -1) {
            if (va < 0) == (vb < 0) {
                assert(qq < 0x8000_0000_0000_0000) by (nonlinear_arith)
                    requires
                        aa == bb * qq + rr,
                        0 <= rr < bb,
                        bb >= 1,
                        qq >= 0,
                        aa <= 0x8000_0000_0000_0000,
                        !(aa == 0x8000_0000_0000_0000 && bb == 1),
                ;
            }
            lemma_signed_to_u64(trunc_div(va, vb));
            lemma_signed_to_u64(trunc_rem(va, vb));
            assert(vq == trunc_div(va, vb));
            assert(vr == trunc_rem(va, vb));
            if va >= 0 && vb > 0 {
                assert(vq * vb + vr == va) by (nonlinear_arith)
                    requires
                        vq == qq, vb == bb, vr == rr, va == aa, aa == bb * qq + rr,
                ;
            } else if va >= 0 {
                assert(vq * vb + vr == va) by (nonlinear_arith)
                    requires
                        vq == -qq, vb == -bb, vr == rr, va == aa, aa == bb * qq + rr,
                ;
            } else if vb > 0 {
                assert(vq * vb + vr == va) by (nonlinear_arith)
                    requires
                        vq == -qq, vb == bb, vr == -rr, va == -aa, aa == bb * qq + rr,
                ;
            } else {
                assert(vq * vb + vr == va) by (nonlinear_arith)
                    requires
                        vq == qq, vb == -bb, vr == -rr, va == -aa, aa == bb * qq + rr,
                ;
            }
        } else {
            assert(aa == 0x8000_0000_0000_0000 && bb == 1);
            lemma_fundamental_div_mod_converse(aa, bb, aa, 0);
            lemma_fundamental_div_mod_converse(-aa, 0x1_0000_0000_0000_0000, -1, 0x8000_0000_0000_0000);
        }
    }
}

/// Writing a field leaves a flag outside it as it was.
proof fn lemma_flag_kept(v: u64, lo: u64, w: u64, f: u64, j: u64)
    requires
        valid_field(lo, w),
        j < 64,
        j + 1 <= lo || lo + w <= j,
    ensures
        flag(with_field(v, lo, w, f), j) == flag(v, j),
{
    lemma_field_of_with_other_field(v, lo, w, f, j, 1);
}

/// `mret` sets `mstatus` so: MIE takes MPIE, MPIE is set, MPP becomes U (0),
/// MPRV is cleared unless the return is to M-mode, and the S-mode bits (SIE,
/// SPIE, SPP) and SUM and MXR are kept.
pub proof fn lemma_mret_mstatus(m: u64)
    ensures
        flag(mstatus_after_mret(m), 3) == flag(m, 7),
        flag(mstatus_after_mret(m), 7),
        field(mstatus_after_mret(m), 11, 2) == 0,
        flag(mstatus_after_mret(m), 17) == (flag(m, 17) && field(m, 11, 2) == 3),
        flag(mstatus_after_mret(m), 1) == flag(m, 1),
        flag(mstatus_after_mret(m), 5) == flag(m, 5),
        flag(mstatus_after_mret(m), 8) == flag(m, 8),
        flag(mstatus_after_mret(m), 18) == flag(m, 18),
        flag(mstatus_after_mret(m), 19) == flag(m, 19),
{
    lemma_low_mask_values();
    let b1: u64 = if flag(m, 7) { 1 } else { 0 };
    let m1 = with_flag(m, 3, flag(m, 7));
    let m2 = with_flag(m1, 7, true);
    let m3 = with_field(m2, 11, 2, 0);
    let m4 = with_flag(m3, 17, false);
    lemma_flag_of_with_flag(m, 3, flag(m, 7));
    lemma_flag_of_with_flag(m1, 7, true);
    lemma_field_of_with_field(m2, 11, 2, 0);
    lemma_flag_of_with_flag(m3, 17, false);
    lemma_flag_kept(m1, 7, 1, 1, 3);
    lemma_flag_kept(m2, 11, 2, 0, 3);
    lemma_flag_kept(m2, 11, 2, 0, 7);
    lemma_flag_kept(m3, 17, 1, 0, 3);
    lemma_flag_kept(m3, 17, 1, 0, 7);
    lemma_field_of_with_other_field(m3, 17, 1, 0, 11, 2);
    lemma_flag_kept(m, 3, 1, b1, 17);
    lemma_flag_kept(m1, 7, 1, 1, 17);
    lemma_flag_kept(m2, 11, 2, 0, 17);
    assert(0u64 & 3u64 == 0) by (bit_vector);
    assert forall|j: u64| j == 1 || j == 5 || j == 8 || j == 18 || j == 19 implies
        flag(mstatus_after_mret(m), j) == flag(m, j) by {
        lemma_flag_kept(m, 3, 1, b1, j);
        lemma_flag_kept(m1, 7, 1, 1, j);
        lemma_flag_kept(m2, 11, 2, 0, j);
        lemma_flag_kept(m3, 17, 1, 0, j);
    }
}

/// `sret` sets `mstatus` so: SIE takes SPIE, SPIE is set, SPP becomes U,
/// MPRV is cleared, and the M-mode bits (MIE, MPIE, MPP) and SUM and MXR are
/// kept.
pub proof fn lemma_sret_mstatus(m: u64)
    ensures
        flag(mstatus_after_sret(m), 1) == flag(m, 5),
        flag(mstatus_after_sret(m), 5),
        !flag(mstatus_after_sret(m), 8),
        !flag(mstatus_after_sret(m), 17),
        flag(mstatus_after_sret(m), 3) == flag(m, 3),
        flag(mstatus_after_sret(m), 7) == flag(m, 7),
        field(mstatus_after_sret(m), 11, 2) == field(m, 11, 2),
        flag(mstatus_after_sret(m), 18) == flag(m, 18),
        flag(mstatus_after_sret(m), 19) == flag(m, 19),
{
    lemma_low_mask_values();
    let b1: u64 = if flag(m, 5) { 1 } else { 0 };
    let m1 = with_flag(m, 1, flag(m, 5));
    let m2 = with_flag(m1, 5, true);
    let m3 = with_flag(m2, 8, false);
    lemma_flag_of_with_flag(m, 1, flag(m, 5));
    lemma_flag_of_with_flag(m1, 5, true);
    lemma_flag_of_with_flag(m2, 8, false);
    lemma_flag_of_with_flag(m3, 17, false);
    lemma_flag_kept(m1, 5, 1, 1, 1);
    lemma_flag_kept(m2, 8, 1, 0, 1);
    lemma_flag_kept(m3, 17, 1, 0, 1);
    lemma_flag_kept(m2, 8, 1, 0, 5);
    lemma_flag_kept(m3, 17, 1, 0, 5);
    lemma_flag_kept(m3, 17, 1, 0, 8);
    lemma_field_of_with_other_field(m, 1, 1, b1, 11, 2);
    lemma_field_of_with_other_field(m1, 5, 1, 1, 11, 2);
    lemma_field_of_with_other_field(m2, 8, 1, 0, 11, 2);
    lemma_field_of_with_other_field(m3, 17, 1, 0, 11, 2);
    assert forall|j: u64| j == 3 || j == 7 || j == 18 || j == 19 implies
        flag(mstatus_after_sret(m), j) == flag(m, j) by {
        lemma_flag_kept(m, 1, 1, b1, j);
        lemma_flag_kept(m1, 5, 1, 1, j);
        lemma_flag_kept(m2, 8, 1, 0, j);
        lemma_flag_kept(m3, 17, 1, 0, j);
    }
}

/// `jal` that does not trap jumps to `pc + imm` and links `pc + 4` (both
/// modulo `2^64`) into rd.
pub proof fn lemma_jal_link(inst: u32, pc: u64, o: CpuCore, n: CpuCore, r: Result<(), TrapType>)
    requires
        jal_post(inst, pc, o, n, r),
        r is Ok,
    ensures
        n.npc as int == (pc + imm_j(inst)) % 0x1_0000_0000_0000_0000,
        n.gpr@ == gpr_written(o.gpr@, rd_of(inst) as int, ((pc + 4) % 0x1_0000_0000_0000_0000) as u64),
{
}

/// `jalr` that does not trap jumps to `x[rs1] + imm` (modulo `2^64`) with
/// bit 0 cleared and every other bit kept, and links `pc + 4` into rd.
pub proof fn lemma_jalr_link(inst: u32, pc: u64, o: CpuCore, n: CpuCore, r: Result<(), TrapType>)
    requires
        jalr_post(inst, pc, o, n, r),
        r is Ok,
    ensures
        ({
            let sum = ((xreg(o, rs1_of(inst)) + imm_i(inst)) % 0x1_0000_0000_0000_0000) as u64;
            forall|i: u64| i < 64 ==> #[trigger] bit(n.npc, i) == (i != 0 && bit(sum, i))
        }),
        n.gpr@ == gpr_written(o.gpr@, rd_of(inst) as int, ((pc + 4) % 0x1_0000_0000_0000_0000) as u64),
{
    lemma_bitwise_bits();
    lemma_shift_mask_bits();
}

/// A store-conditional right after a successful load-reserved of the same
/// address by the same hart finds its reservation: it attempts the write of
/// `x[rs2]`, and when that goes through rd gets 0. Without a reservation at
/// its address it writes nothing and rd gets 1.
pub proof fn lemma_lr_then_sc<D: DeviceBase>(op1: InstOp, inst1: u32, o: CpuCore, n: CpuCore, ob: Bus<D>, nb: Bus<D>,
    r1: Result<(), TrapType>, op2: InstOp, inst2: u32, n2: CpuCore, nb2: Bus<D>, r2: Result<(), TrapType>)
    requires
        lr_post(op1, inst1, o, n, ob, nb, r1),
        r1 is Ok,
        sc_post(op2, inst2, n, n2, nb, nb2, r2),
        xreg(n, rs1_of(inst2)) == xreg(o, rs1_of(inst1)),
    ensures
        exists|nm: Mmu, m: Result<u64, TrapType>, n1: Bus<D>| {
            &&& n1.devices == nb.devices
            &&& #[trigger] vwrite_post(n, nm, n1, nb2, xreg(o, rs1_of(inst1)), xreg(n, rs2_of(inst2)),
                atomic_len(op2), AccessType::Amo(xreg(o, rs1_of(inst1))), m)
            &&& (m is Ok ==> r2 is Ok && n2.gpr@ == gpr_written(n.gpr@, rd_of(inst2) as int, 0))
        },
{
}

/// A store-conditional whose address holds no reservation leaves the
/// devices as they were and writes 1 to rd.
pub proof fn lemma_sc_without_reservation<D: DeviceBase>(op: InstOp, inst: u32, o: CpuCore, n: CpuCore, ob: Bus<D>,
    nb: Bus<D>, r: Result<(), TrapType>)
    requires
        sc_post(op, inst, o, n, ob, nb, r),
        ob.lr_sc_set.val != xreg(o, rs1_of(inst)),
    ensures
        r is Ok,
        nb.devices == ob.devices,
        n.gpr@ == gpr_written(o.gpr@, rd_of(inst) as int, 1),
{
}

/// `amoadd.w` stores the low word of the sum; `amominu.w`/`amomaxu.w` store
/// the low word of the operand whose low word is the smaller/larger.
pub proof fn lemma_amo_word_arith(t: u64, b: u64)
    ensures
        forall|i: u64| i < 64 ==> #[trigger] bit(amo_value(InstOp::AmoaddW, t, b), i)
            == (i < 32 && bit(((t + b) % 0x1_0000_0000_0000_0000) as u64, i)),
        ({
            let m = amo_value(InstOp::AmominuW, t, b);
            (m == field(t, 0, 32) || m == field(b, 0, 32)) && m <= field(t, 0, 32) && m <= field(b, 0, 32)
        }),
        ({
            let m = amo_value(InstOp::AmomaxuW, t, b);
            (m == field(t, 0, 32) || m == field(b, 0, 32)) && m >= field(t, 0, 32) && m >= field(b, 0, 32)
        }),
{
    lemma_bitwise_bits();
    lemma_low_mask_values();
    let tl = field(t, 0, 32);
    let bl = field(b, 0, 32);
    assert(field(tl, 0, 32) == tl && field(bl, 0, 32) == bl) by {
        assert(((t >> 0u64) & 0xffff_ffffu64) >> 0u64 & 0xffff_ffffu64 == (t >> 0u64) & 0xffff_ffffu64
            && ((b >> 0u64) & 0xffff_ffffu64) >> 0u64 & 0xffff_ffffu64 == (b >> 0u64) & 0xffff_ffffu64) by (bit_vector);
    }
}

/// `mulhu` and `mul` give the high and low words of the full 128-bit
/// product of `x[rs1]` and `x[rs2]`: `hi * 2^64 + lo == a * b`.
pub proof fn lemma_mulhu_mul(inst: u32, pc: u64, a: u64, b: u64)
    ensures
        alu_value(InstOp::Mulhu, inst, pc, a, b) * 0x1_0000_0000_0000_0000 + alu_value(InstOp::Mul, inst, pc, a, b)
            == a * b,
{
    let w: int = 0x1_0000_0000_0000_0000;
    let p: int = a * b;
    lemma_fundamental_div_mod(p, w);
    assert(0 <= p < w * w) by (nonlinear_arith)
        requires
            p == a * b,
            0 <= a < w,
            0 <= b < w,
            w == 0x1_0000_0000_0000_0000,
    ;
    assert(0 <= p / w < w) by (nonlinear_arith)
        requires
            0 <= p < w * w,
            p == w * (p / w) + p % w,
            0 <= p % w < w,
            w > 0,
    ;
    lemma_fundamental_div_mod_converse(p / w, w, 0, p / w);
    assert(to_u64(p / w) == p / w);
    assert((p / w) * w == w * (p / w)) by (nonlinear_arith);
}

} // verus!
