//! What the computational instructions compute: the value an ALU
//! instruction writes to its destination register, as a function of the
//! instruction, its pc and its two source registers.
use vstd::prelude::*;
use vstd::arithmetic::div_mod::{lemma_fundamental_div_mod, lemma_fundamental_div_mod_converse};
use crate::bits::{field, flag, get_field, get_flag, lemma_field_bound};
use super::inst_format::{sign_extend, sign_extend_bits, imm_i, imm_u, FormatI};
use super::inst_op::InstOp;

verus! {

broadcast use lemma_field_bound;

/// 2^64, the number of 64-bit words.
pub open spec fn word_range() -> int {
    0x1_0000_0000_0000_0000
}

/// The 64-bit two's-complement encoding of the integer `x` (`x` modulo 2^64).
pub open spec fn to_u64(x: int) -> u64 {
    (x % 0x1_0000_0000_0000_0000) as u64
}

/// The signed value of the 64-bit word `a`.
pub open spec fn signed(a: u64) -> int {
    if a < 0x8000_0000_0000_0000 {
        a as int
    } else {
        a - 0x1_0000_0000_0000_0000
    }
}

/// The low 32 bits of `a`, sign-extended.
pub open spec fn sext32(a: u64) -> u64 {
    sign_extend(field(a, 0, 32), 32)
}

/// `a` shifted right by `s` (below 64), filling with its sign bit.
pub open spec fn sra(a: u64, s: u64) -> u64 {
    if flag(a, 63) {
        (a >> s) | !(0xffff_ffff_ffff_ffffu64 >> s)
    } else {
        a >> s
    }
}

pub open spec fn abs(x: int) -> int {
    if x < 0 { -x } else { x }
}

/// Division rounded toward zero.
pub open spec fn trunc_div(x: int, d: int) -> int {
    if (x < 0) != (d < 0) {
        -(abs(x) / abs(d))
    } else {
        abs(x) / abs(d)
    }
}

/// The remainder of division rounded toward zero: it takes the sign of `x`.
pub open spec fn trunc_rem(x: int, d: int) -> int {
    if x < 0 {
        -(abs(x) % abs(d))
    } else {
        abs(x) % abs(d)
    }
}

/// Signed division; by zero it gives all ones, and the overflowing
/// quotient of the most negative value by -1 wraps to the dividend.
pub open spec fn div_s(a: u64, b: u64) -> u64 {
    if b == 0 { 0xffff_ffff_ffff_ffff } else { to_u64(trunc_div(signed(a), signed(b))) }
}

/// Unsigned division; by zero it gives all ones.
pub open spec fn div_u(a: u64, b: u64) -> u64 {
    if b == 0 { 0xffff_ffff_ffff_ffff } else { a / b }
}

/// Signed remainder; by zero it gives the dividend.
pub open spec fn rem_s(a: u64, b: u64) -> u64 {
    if b == 0 { a } else { to_u64(trunc_rem(signed(a), signed(b))) }
}

/// Unsigned remainder; by zero it gives the dividend.
pub open spec fn rem_u(a: u64, b: u64) -> u64 {
    if b == 0 { a } else { a % b }
}

/// Whether `op` only computes a value for its destination register.
pub open spec fn is_alu(op: InstOp) -> bool {
    match op {
        InstOp::Lui | InstOp::Auipc | InstOp::Addi | InstOp::Slti | InstOp::Sltiu | InstOp::Xori
        | InstOp::Ori | InstOp::Andi | InstOp::Slli | InstOp::Srli | InstOp::Srai | InstOp::Add
        | InstOp::Sub | InstOp::Sll | InstOp::Slt | InstOp::Sltu | InstOp::Xor | InstOp::Srl
        | InstOp::Sra | InstOp::Or | InstOp::And | InstOp::Addiw | InstOp::Slliw | InstOp::Srliw
        | InstOp::Sraiw | InstOp::Addw | InstOp::Subw | InstOp::Sllw | InstOp::Srlw | InstOp::Sraw
        | InstOp::Mul | InstOp::Mulh | InstOp::Mulhsu | InstOp::Mulhu | InstOp::Div | InstOp::Divu
        | InstOp::Rem | InstOp::Remu | InstOp::Mulw | InstOp::Divw | InstOp::Divuw | InstOp::Remw
        | InstOp::Remuw => true,
        _ => false,
    }
}

/// The value the ALU instruction `op` (encoded as `inst`, at `pc`) writes
/// to its destination, from `a = x[rs1]` and `b = x[rs2]`.
pub open spec fn alu_value(op: InstOp, inst: u32, pc: u64, a: u64, b: u64) -> u64 {
    let shamt = field(inst as u64, 20, 6);
    let shamt_w = field(inst as u64, 20, 5);
    match op {
        InstOp::Lui => imm_u(inst),
        InstOp::Auipc => to_u64(pc + imm_u(inst)),
        InstOp::Addi => to_u64(a + imm_i(inst)),
        InstOp::Slti => if signed(a) < signed(imm_i(inst)) { 1 } else { 0 },
        InstOp::Sltiu => if a < imm_i(inst) { 1 } else { 0 },
        InstOp::Xori => a ^ imm_i(inst),
        InstOp::Ori => a | imm_i(inst),
        InstOp::Andi => a & imm_i(inst),
        InstOp::Slli => a << shamt,
        InstOp::Srli => a >> shamt,
        InstOp::Srai => sra(a, shamt),
        InstOp::Add => to_u64(a + b),
        InstOp::Sub => to_u64(a - b),
        InstOp::Sll => a << (b % 64),
        InstOp::Slt => if signed(a) < signed(b) { 1 } else { 0 },
        InstOp::Sltu => if a < b { 1 } else { 0 },
        InstOp::Xor => a ^ b,
        InstOp::Srl => a >> (b % 64),
        InstOp::Sra => sra(a, b % 64),
        InstOp::Or => a | b,
        InstOp::And => a & b,
        InstOp::Addiw => sext32(to_u64(a + imm_i(inst))),
        InstOp::Slliw => sext32(a << shamt_w),
        InstOp::Srliw => sext32(field(a, 0, 32) >> shamt_w),
        InstOp::Sraiw => sra(sext32(a), shamt_w),
        InstOp::Addw => sext32(to_u64(a + b)),
        InstOp::Subw => sext32(to_u64(a - b)),
        InstOp::Sllw => sext32(a << (b % 32)),
        InstOp::Srlw => sext32(field(a, 0, 32) >> (b % 32)),
        InstOp::Sraw => sra(sext32(a), b % 32),
        InstOp::Mul => to_u64(a * b),
        InstOp::Mulh => to_u64((signed(a) * signed(b)) / word_range()),
        InstOp::Mulhsu => to_u64((signed(a) * b) / word_range()),
        InstOp::Mulhu => to_u64((a * b) / word_range()),
        InstOp::Div => div_s(a, b),
        InstOp::Divu => div_u(a, b),
        InstOp::Rem => rem_s(a, b),
        InstOp::Remu => rem_u(a, b),
        InstOp::Mulw => sext32(to_u64(a * b)),
        InstOp::Divw => sext32(div_s(sext32(a), sext32(b))),
        InstOp::Divuw => if field(b, 0, 32) == 0 { 0xffff_ffff_ffff_ffff } else { sext32(field(a, 0, 32) / field(b, 0, 32)) },
        InstOp::Remw => sext32(rem_s(sext32(a), sext32(b))),
        InstOp::Remuw => if field(b, 0, 32) == 0 { sext32(a) } else { sext32(field(a, 0, 32) % field(b, 0, 32)) },
        _ => 0,
    }
}

pub fn sext32_of(a: u64) -> (r: u64)
    ensures
        r == sext32(a),
{
    sign_extend_bits(get_field(a, 0, 32), 32)
}

pub fn sra_of(a: u64, s: u64) -> (r: u64)
    requires
        s < 64,
    ensures
        r == sra(a, s),
{
    if get_flag(a, 63) {
        (a >> s) | !(0xffff_ffff_ffff_ffffu64 >> s)
    } else {
        a >> s
    }
}

/// Signed less-than on 64-bit words.
pub fn lt_signed(a: u64, b: u64) -> (r: bool)
    ensures
        r == (signed(a) < signed(b)),
{
    let an = a >= 0x8000_0000_0000_0000;
    let bn = b >= 0x8000_0000_0000_0000;
    if an != bn {
        an
    } else {
        a < b
    }
}

pub fn add_wrap(a: u64, b: u64) -> (r: u64)
    ensures
        r == to_u64(a + b),
{
    a.wrapping_add(b)
}

pub fn sub_wrap(a: u64, b: u64) -> (r: u64)
    ensures
        r == to_u64(a - b),
{
    a.wrapping_sub(b)
}

pub fn mul_wrap(a: u64, b: u64) -> (r: u64)
    ensures
        r == to_u64(a * b),
{
    a.wrapping_mul(b)
}

proof fn lemma_floor_shift(x: int, k: int)
    ensures
        (x + k * word_range()) / word_range() == x / word_range() + k,
{
    lemma_fundamental_div_mod(x, word_range());
    lemma_fundamental_div_mod_converse(x + k * word_range(), word_range(), x / word_range() + k, x % word_range());
}

proof fn lemma_to_u64_shift(x: int, k: int)
    ensures
        to_u64(x + k * word_range()) == to_u64(x),
{
    lemma_fundamental_div_mod(x, word_range());
    lemma_fundamental_div_mod_converse(x + k * word_range(), word_range(), x / word_range() + k, x % word_range());
}

/// The high word of the unsigned product.
pub fn mulhu(a: u64, b: u64) -> (r: u64)
    ensures
        r == to_u64((a * b) / word_range()),
        r == (a * b) / word_range(),
{
    assert(a * b <= 0xffff_ffff_ffff_fffe_0000_0000_0000_0001) by (nonlinear_arith)
        requires
            a <= 0xffff_ffff_ffff_ffff,
            b <= 0xffff_ffff_ffff_ffff,
    ;
    let p: u128 = (a as u128) * (b as u128);
    proof {
        vstd::bits::lemma_u128_shr_is_div(p, 64);
        vstd::arithmetic::power2::lemma2_to64();
        vstd::arithmetic::power2::lemma2_to64_rest();
        assert(p as int / word_range() < word_range()) by (nonlinear_arith)
            requires
                p <= 0xffff_ffff_ffff_fffe_0000_0000_0000_0001,
        ;
    }
    (p >> 64u128) as u64
}

/// The high word of the product of signed `a` and unsigned `b`.
pub fn mulhsu(a: u64, b: u64) -> (r: u64)
    ensures
        r == to_u64((signed(a) * b) / word_range()),
{
    let h = mulhu(a, b);
    if a >= 0x8000_0000_0000_0000 {
        proof {
            assert(signed(a) * b == a * b + (-(b as int)) * word_range()) by (nonlinear_arith)
                requires
                    signed(a) == a - word_range(),
            ;
            lemma_floor_shift(a * b, -(b as int));
        }
        h.wrapping_sub(b)
    } else {
        h
    }
}

/// The high word of the signed product.
pub fn mulh(a: u64, b: u64) -> (r: u64)
    ensures
        r == to_u64((signed(a) * signed(b)) / word_range()),
{
    let h = mulhu(a, b);
    let an = a >= 0x8000_0000_0000_0000;
    let bn = b >= 0x8000_0000_0000_0000;
    let t1 = if an { h.wrapping_sub(b) } else { h };
    let t2 = if bn { t1.wrapping_sub(a) } else { t1 };
    proof {
        let na: int = if an { 1 } else { 0 };
        let nb: int = if bn { 1 } else { 0 };
        let hh: int = (a * b) / word_range();
        assert(signed(a) == a - na * word_range());
        assert(signed(b) == b - nb * word_range());
        assert(signed(a) * signed(b) == a * b + (na * nb * word_range() - na * b - nb * a) * word_range()) by (nonlinear_arith)
            requires
                signed(a) == a - na * word_range(),
                signed(b) == b - nb * word_range(),
        ;
        lemma_floor_shift(a * b, na * nb * word_range() - na * b - nb * a);
        assert((hh + (na * nb * word_range() - na * b - nb * a)) == (hh - na * b - nb * a) + (na * nb) * word_range()) by (nonlinear_arith);
        lemma_to_u64_shift(hh - na * b - nb * a, na * nb);
    }
    t2
}

pub fn div_s_of(a: u64, b: u64) -> (r: u64)
    ensures
        r == div_s(a, b),
{
    if b == 0 {
        return 0xffff_ffff_ffff_ffff;
    }
    let an = a >= 0x8000_0000_0000_0000;
    let bn = b >= 0x8000_0000_0000_0000;
    let ua = if an { 0u64.wrapping_sub(a) } else { a };
    let ub = if bn { 0u64.wrapping_sub(b) } else { b };
    assert(ua == abs(signed(a)) && ub == abs(signed(b)));
    let q = ua / ub;
    if an != bn {
        0u64.wrapping_sub(q)
    } else {
        q
    }
}

pub fn rem_s_of(a: u64, b: u64) -> (r: u64)
    ensures
        r == rem_s(a, b),
{
    if b == 0 {
        return a;
    }
    let an = a >= 0x8000_0000_0000_0000;
    let bn = b >= 0x8000_0000_0000_0000;
    let ua = if an { 0u64.wrapping_sub(a) } else { a };
    let ub = if bn { 0u64.wrapping_sub(b) } else { b };
    assert(ua == abs(signed(a)) && ub == abs(signed(b)));
    let m = ua % ub;
    if an {
        0u64.wrapping_sub(m)
    } else {
        m
    }
}

} // verus!
