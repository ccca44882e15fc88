//! The fields of the RV64 instruction formats (R, I, S, B, U, J, the CSR
//! form of I, and the compressed formats), with immediates sign-extended to 64 bits.
use vstd::prelude::*;
use crate::bits::{field, flag, low_mask, get_field32, get_flag, lemma_field_bound, valid_field};

verus! {

broadcast use lemma_field_bound;

/// `v` with its bit `bits - 1` copied into every bit above it.
pub open spec fn sign_extend(v: u64, bits: u64) -> u64 {
    if flag(v, (bits - 1) as u64) {
        v | !low_mask(bits)
    } else {
        v
    }
}

proof fn lemma_one_shl_pos(bits: u64)
    requires
        bits < 64,
    ensures
        (1u64 << bits) >= 1,
{
    assert((1u64 << bits) >= 1) by (bit_vector)
        requires
            bits < 64,
    ;
}

/// Sign-extends the `bits`-bit value `v`.
pub fn sign_extend_bits(v: u64, bits: u64) -> (r: u64)
    requires
        0 < bits < 64,
    ensures
        r == sign_extend(v, bits),
{
    if get_flag(v, bits - 1) {
        proof {
            lemma_one_shl_pos(bits);
        }
        v | !((1u64 << bits) - 1)
    } else {
        v
    }
}

/// The destination register of `inst`.
pub open spec fn rd_of(inst: u32) -> u64 {
    field(inst as u64, 7, 5)
}

/// The first source register of `inst`.
pub open spec fn rs1_of(inst: u32) -> u64 {
    field(inst as u64, 15, 5)
}

/// The second source register of `inst`.
pub open spec fn rs2_of(inst: u32) -> u64 {
    field(inst as u64, 20, 5)
}

/// The immediate of an I-type instruction: bits 31..20, sign-extended.
pub open spec fn imm_i(inst: u32) -> u64 {
    sign_extend(field(inst as u64, 20, 12), 12)
}

/// The immediate of an S-type instruction: bits 31..25 and 11..7, sign-extended.
pub open spec fn imm_s(inst: u32) -> u64 {
    sign_extend((field(inst as u64, 25, 7) << 5u64) | field(inst as u64, 7, 5), 12)
}

/// The immediate of a B-type instruction: imm[12|10:5] in bits 31..25 and
/// imm[4:1|11] in bits 11..7, sign-extended from bit 12.
pub open spec fn imm_b(inst: u32) -> u64 {
    sign_extend(
        (field(inst as u64, 31, 1) << 12u64) | (field(inst as u64, 7, 1) << 11u64)
            | (field(inst as u64, 25, 6) << 5u64) | (field(inst as u64, 8, 4) << 1u64),
        13,
    )
}

/// The immediate of a U-type instruction: bits 31..12 in place, sign-extended from bit 31.
pub open spec fn imm_u(inst: u32) -> u64 {
    sign_extend(field(inst as u64, 12, 20) << 12u64, 32)
}

/// The immediate of a J-type instruction: imm[20|10:1|11|19:12] in bits
/// 31..12, sign-extended from bit 20.
pub open spec fn imm_j(inst: u32) -> u64 {
    sign_extend(
        (field(inst as u64, 31, 1) << 20u64) | (field(inst as u64, 12, 8) << 12u64)
            | (field(inst as u64, 20, 1) << 11u64) | (field(inst as u64, 21, 10) << 1u64),
        21,
    )
}

/// The CSR address of a CSR instruction: bits 31..20.
pub open spec fn csr_of(inst: u32) -> u64 {
    field(inst as u64, 20, 12)
}

#[derive(Clone, Copy, Debug)]
pub struct FormatR {
    pub rd: u64,
    pub rs1: u64,
    pub rs2: u64,
}

#[derive(Clone, Copy, Debug)]
pub struct FormatI {
    pub rd: u64,
    pub rs1: u64,
    pub imm: u64,
}

#[derive(Clone, Copy, Debug)]
pub struct FormatS {
    pub rs1: u64,
    pub rs2: u64,
    pub imm: u64,
}

#[derive(Clone, Copy, Debug)]
pub struct FormatB {
    pub rs1: u64,
    pub rs2: u64,
    pub imm: u64,
}

#[derive(Clone, Copy, Debug)]
pub struct FormatU {
    pub rd: u64,
    pub imm: u64,
}

#[derive(Clone, Copy, Debug)]
pub struct FormatJ {
    pub rd: u64,
    pub imm: u64,
}

#[derive(Clone, Copy, Debug)]
pub struct FormatCSR {
    pub csr: u64,
    pub rs1: u64,
    pub rd: u64,
}

pub fn parse_format_r(inst: u32) -> (f: FormatR)
    ensures
        f.rd == rd_of(inst) && f.rs1 == rs1_of(inst) && f.rs2 == rs2_of(inst),
        f.rd < 32 && f.rs1 < 32 && f.rs2 < 32,
{
    proof {
        crate::bits::lemma_field_lt(inst as u64, 7, 5);
        crate::bits::lemma_field_lt(inst as u64, 15, 5);
        crate::bits::lemma_field_lt(inst as u64, 20, 5);
        crate::bits::lemma_low_mask_values();
    }
    FormatR { rd: get_field32(inst, 7, 5), rs1: get_field32(inst, 15, 5), rs2: get_field32(inst, 20, 5) }
}

pub fn parse_format_i(inst: u32) -> (f: FormatI)
    ensures
        f.rd == rd_of(inst) && f.rs1 == rs1_of(inst) && f.imm == imm_i(inst),
        f.rd < 32 && f.rs1 < 32,
{
    let r = parse_format_r(inst);
    let imm = sign_extend_bits(get_field32(inst, 20, 12), 12);
    FormatI { rd: r.rd, rs1: r.rs1, imm }
}

pub fn parse_format_s(inst: u32) -> (f: FormatS)
    ensures
        f.rs1 == rs1_of(inst) && f.rs2 == rs2_of(inst) && f.imm == imm_s(inst),
        f.rs1 < 32 && f.rs2 < 32,
{
    let r = parse_format_r(inst);
    let v = (get_field32(inst, 25, 7) << 5u64) | get_field32(inst, 7, 5);
    FormatS { rs1: r.rs1, rs2: r.rs2, imm: sign_extend_bits(v, 12) }
}

pub fn parse_format_b(inst: u32) -> (f: FormatB)
    ensures
        f.rs1 == rs1_of(inst) && f.rs2 == rs2_of(inst) && f.imm == imm_b(inst),
        f.rs1 < 32 && f.rs2 < 32,
{
    let r = parse_format_r(inst);
    let v = (get_field32(inst, 31, 1) << 12u64) | (get_field32(inst, 7, 1) << 11u64)
        | (get_field32(inst, 25, 6) << 5u64) | (get_field32(inst, 8, 4) << 1u64);
    FormatB { rs1: r.rs1, rs2: r.rs2, imm: sign_extend_bits(v, 13) }
}

pub fn parse_format_u(inst: u32) -> (f: FormatU)
    ensures
        f.rd == rd_of(inst) && f.imm == imm_u(inst),
        f.rd < 32,
{
    let r = parse_format_r(inst);
    FormatU { rd: r.rd, imm: sign_extend_bits(get_field32(inst, 12, 20) << 12u64, 32) }
}

pub fn parse_format_j(inst: u32) -> (f: FormatJ)
    ensures
        f.rd == rd_of(inst) && f.imm == imm_j(inst),
        f.rd < 32,
{
    let r = parse_format_r(inst);
    let v = (get_field32(inst, 31, 1) << 20u64) | (get_field32(inst, 12, 8) << 12u64)
        | (get_field32(inst, 20, 1) << 11u64) | (get_field32(inst, 21, 10) << 1u64);
    FormatJ { rd: r.rd, imm: sign_extend_bits(v, 21) }
}

pub fn parse_format_csr(inst: u32) -> (f: FormatCSR)
    ensures
        f.csr == csr_of(inst) && f.rs1 == rs1_of(inst) && f.rd == rd_of(inst),
        f.csr < 4096 && f.rs1 < 32 && f.rd < 32,
{
    let r = parse_format_r(inst);
    proof {
        crate::bits::lemma_field_lt(inst as u64, 20, 12);
        crate::bits::lemma_low_mask_values();
    }
    FormatCSR { csr: get_field32(inst, 20, 12), rs1: r.rs1, rd: r.rd }
}

/// Whether `inst` is a 16-bit (compressed) instruction: its low two bits are not both set.
pub open spec fn compressed(inst: u32) -> bool {
    field(inst as u64, 0, 2) != 3
}

pub fn is_compressed_instruction(inst: u32) -> (r: bool)
    ensures
        r == compressed(inst),
{
    get_field32(inst, 0, 2) != 3
}

/// The full register field of a compressed instruction (CI, CR): bits 11..7.
pub open spec fn c_rd(inst: u32) -> u64 {
    field(inst as u64, 7, 5)
}

/// The second full register field of a compressed instruction (CR, CSS): bits 6..2.
pub open spec fn c_rs2(inst: u32) -> u64 {
    field(inst as u64, 2, 5)
}

/// The short register field at bits 9..7 (CL, CS, CB, CA), naming x8..x15.
pub open spec fn c_rs1p(inst: u32) -> u64 {
    (field(inst as u64, 7, 3) + 8) as u64
}

/// The short register field at bits 4..2 (CL, CS, CIW, CA), naming x8..x15.
pub open spec fn c_rs2p(inst: u32) -> u64 {
    (field(inst as u64, 2, 3) + 8) as u64
}

/// The offset of `c.lwsp`: uimm[5] in bit 12, uimm[4:2] in bits 6..4,
/// uimm[7:6] in bits 3..2.
pub open spec fn imm_c_lwsp(inst: u32) -> u64 {
    (field(inst as u64, 12, 1) << 5u64) | (field(inst as u64, 4, 3) << 2u64) | (field(inst as u64, 2, 2) << 6u64)
}

/// The offset of `c.ldsp`: uimm[5] in bit 12, uimm[4:3] in bits 6..5,
/// uimm[8:6] in bits 4..2.
pub open spec fn imm_c_ldsp(inst: u32) -> u64 {
    (field(inst as u64, 12, 1) << 5u64) | (field(inst as u64, 5, 2) << 3u64) | (field(inst as u64, 2, 3) << 6u64)
}

/// The offset of `c.swsp`: uimm[5:2] in bits 12..9, uimm[7:6] in bits 8..7.
pub open spec fn imm_c_swsp(inst: u32) -> u64 {
    (field(inst as u64, 9, 4) << 2u64) | (field(inst as u64, 7, 2) << 6u64)
}

/// The offset of `c.sdsp`: uimm[5:3] in bits 12..10, uimm[8:6] in bits 9..7.
pub open spec fn imm_c_sdsp(inst: u32) -> u64 {
    (field(inst as u64, 10, 3) << 3u64) | (field(inst as u64, 7, 3) << 6u64)
}

/// The offset of `c.lw` and `c.sw`: uimm[5:3] in bits 12..10, uimm[2] in
/// bit 6, uimm[6] in bit 5.
pub open spec fn imm_c_lw(inst: u32) -> u64 {
    (field(inst as u64, 10, 3) << 3u64) | (field(inst as u64, 6, 1) << 2u64) | (field(inst as u64, 5, 1) << 6u64)
}

/// The offset of `c.ld` and `c.sd`: uimm[5:3] in bits 12..10, uimm[7:6] in bits 6..5.
pub open spec fn imm_c_ld(inst: u32) -> u64 {
    (field(inst as u64, 10, 3) << 3u64) | (field(inst as u64, 5, 2) << 6u64)
}

/// The offset of `c.j`: imm[11|4|9:8|10|6|7|3:1|5] in bits 12..2,
/// sign-extended from bit 11.
pub open spec fn imm_c_j(inst: u32) -> u64 {
    sign_extend(
        (field(inst as u64, 12, 1) << 11u64) | (field(inst as u64, 11, 1) << 4u64)
            | (field(inst as u64, 9, 2) << 8u64) | (field(inst as u64, 8, 1) << 10u64)
            | (field(inst as u64, 7, 1) << 6u64) | (field(inst as u64, 6, 1) << 7u64)
            | (field(inst as u64, 3, 3) << 1u64) | (field(inst as u64, 2, 1) << 5u64),
        12,
    )
}

/// The offset of `c.beqz` and `c.bnez`: imm[8|4:3] in bits 12..10 and
/// imm[7:6|2:1|5] in bits 6..2, sign-extended from bit 8.
pub open spec fn imm_c_b(inst: u32) -> u64 {
    sign_extend(
        (field(inst as u64, 12, 1) << 8u64) | (field(inst as u64, 10, 2) << 3u64)
            | (field(inst as u64, 5, 2) << 6u64) | (field(inst as u64, 3, 2) << 1u64)
            | (field(inst as u64, 2, 1) << 5u64),
        9,
    )
}

/// The six-bit immediate of `c.li`, `c.addi`, `c.addiw` and `c.andi`:
/// imm[5] in bit 12, imm[4:0] in bits 6..2, sign-extended.
pub open spec fn imm_c_i6(inst: u32) -> u64 {
    sign_extend((field(inst as u64, 12, 1) << 5u64) | field(inst as u64, 2, 5), 6)
}

/// The immediate of `c.lui`: imm[17] in bit 12, imm[16:12] in bits 6..2,
/// sign-extended from bit 17.
pub open spec fn imm_c_lui(inst: u32) -> u64 {
    sign_extend((field(inst as u64, 12, 1) << 17u64) | (field(inst as u64, 2, 5) << 12u64), 18)
}

/// The immediate of `c.addi16sp`: imm[9] in bit 12, imm[4|6|8:7|5] in
/// bits 6..2, sign-extended from bit 9.
pub open spec fn imm_c_addi16sp(inst: u32) -> u64 {
    sign_extend(
        (field(inst as u64, 12, 1) << 9u64) | (field(inst as u64, 6, 1) << 4u64)
            | (field(inst as u64, 5, 1) << 6u64) | (field(inst as u64, 3, 2) << 7u64)
            | (field(inst as u64, 2, 1) << 5u64),
        10,
    )
}

/// The immediate of `c.addi4spn`: uimm[5:4|9:6|2|3] in bits 12..5.
pub open spec fn imm_c_addi4spn(inst: u32) -> u64 {
    (field(inst as u64, 11, 2) << 4u64) | (field(inst as u64, 7, 4) << 6u64)
        | (field(inst as u64, 6, 1) << 2u64) | (field(inst as u64, 5, 1) << 3u64)
}

/// The shift amount of `c.slli`, `c.srli` and `c.srai`: shamt[5] in bit 12,
/// shamt[4:0] in bits 6..2.
pub open spec fn shamt_c(inst: u32) -> u64 {
    (field(inst as u64, 12, 1) << 5u64) | field(inst as u64, 2, 5)
}

/// The fields of a compressed instruction: its register fields and every
/// immediate its formats define, each decoded.
#[derive(Clone, Copy, Debug)]
pub struct FormatC {
    pub rd: u64,
    pub rs2: u64,
    pub rs1p: u64,
    pub rs2p: u64,
    pub imm_lwsp: u64,
    pub imm_ldsp: u64,
    pub imm_swsp: u64,
    pub imm_sdsp: u64,
    pub imm_lw: u64,
    pub imm_ld: u64,
    pub imm_j: u64,
    pub imm_b: u64,
    pub imm_i6: u64,
    pub imm_lui: u64,
    pub imm_addi16sp: u64,
    pub imm_addi4spn: u64,
    pub shamt: u64,
}

impl FormatC {
    pub open spec fn decodes(self, inst: u32) -> bool {
        &&& self.rd == c_rd(inst) && self.rs2 == c_rs2(inst)
        &&& self.rs1p == c_rs1p(inst) && self.rs2p == c_rs2p(inst)
        &&& self.imm_lwsp == imm_c_lwsp(inst) && self.imm_ldsp == imm_c_ldsp(inst)
        &&& self.imm_swsp == imm_c_swsp(inst) && self.imm_sdsp == imm_c_sdsp(inst)
        &&& self.imm_lw == imm_c_lw(inst) && self.imm_ld == imm_c_ld(inst)
        &&& self.imm_j == imm_c_j(inst) && self.imm_b == imm_c_b(inst)
        &&& self.imm_i6 == imm_c_i6(inst) && self.imm_lui == imm_c_lui(inst)
        &&& self.imm_addi16sp == imm_c_addi16sp(inst) && self.imm_addi4spn == imm_c_addi4spn(inst)
        &&& self.shamt == shamt_c(inst)
    }
}

/// The fields of the compressed instruction `inst`.
pub fn parse_format_c(inst: u32) -> (f: FormatC)
    ensures
        f.decodes(inst),
        f.rd < 32 && f.rs2 < 32 && 8 <= f.rs1p < 16 && 8 <= f.rs2p < 16 && f.shamt < 64,
{
    proof {
        crate::bits::lemma_field_lt(inst as u64, 7, 5);
        crate::bits::lemma_field_lt(inst as u64, 2, 5);
        crate::bits::lemma_low_mask_values();
    }
    let g = |lo: u64, w: u64| -> (r: u64)
        requires
            valid_field(lo, w),
            lo + w <= 32,
        ensures
            r == field(inst as u64, lo, w),
        { get_field32(inst, lo, w) };
    let rs1p = g(7, 3) + 8;
    let rs2p = g(2, 3) + 8;
    let shamt = (g(12, 1) << 5u64) | g(2, 5);
    assert(shamt < 64) by (bit_vector)
        requires
            shamt == (field(inst as u64, 12, 1) << 5u64) | field(inst as u64, 2, 5),
            field(inst as u64, 12, 1) < 2,
            field(inst as u64, 2, 5) < 32,
    ;
    FormatC {
        rd: g(7, 5),
        rs2: g(2, 5),
        rs1p,
        rs2p,
        imm_lwsp: (g(12, 1) << 5u64) | (g(4, 3) << 2u64) | (g(2, 2) << 6u64),
        imm_ldsp: (g(12, 1) << 5u64) | (g(5, 2) << 3u64) | (g(2, 3) << 6u64),
        imm_swsp: (g(9, 4) << 2u64) | (g(7, 2) << 6u64),
        imm_sdsp: (g(10, 3) << 3u64) | (g(7, 3) << 6u64),
        imm_lw: (g(10, 3) << 3u64) | (g(6, 1) << 2u64) | (g(5, 1) << 6u64),
        imm_ld: (g(10, 3) << 3u64) | (g(5, 2) << 6u64),
        imm_j: sign_extend_bits(
            (g(12, 1) << 11u64) | (g(11, 1) << 4u64) | (g(9, 2) << 8u64) | (g(8, 1) << 10u64)
                | (g(7, 1) << 6u64) | (g(6, 1) << 7u64) | (g(3, 3) << 1u64) | (g(2, 1) << 5u64),
            12,
        ),
        imm_b: sign_extend_bits(
            (g(12, 1) << 8u64) | (g(10, 2) << 3u64) | (g(5, 2) << 6u64) | (g(3, 2) << 1u64) | (g(2, 1) << 5u64),
            9,
        ),
        imm_i6: sign_extend_bits((g(12, 1) << 5u64) | g(2, 5), 6),
        imm_lui: sign_extend_bits((g(12, 1) << 17u64) | (g(2, 5) << 12u64), 18),
        imm_addi16sp: sign_extend_bits(
            (g(12, 1) << 9u64) | (g(6, 1) << 4u64) | (g(5, 1) << 6u64) | (g(3, 2) << 7u64) | (g(2, 1) << 5u64),
            10,
        ),
        imm_addi4spn: (g(11, 2) << 4u64) | (g(7, 4) << 6u64) | (g(6, 1) << 2u64) | (g(5, 1) << 3u64),
        shamt,
    }
}

} // verus!
