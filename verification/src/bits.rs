//! Bit-field arithmetic on 64-bit words: the primitive on which every
//! register layout of the emulator (CSRs, page-table entries, debug-module
//! registers, device registers) is built.
use vstd::prelude::*;

verus! {

/// A mask of `w` low ones.
pub open spec fn low_mask(w: u64) -> u64 {
    ((1u64 << w) - 1) as u64
}

/// The `w`-bit field of `v` that starts at bit `lo`.
pub open spec fn field(v: u64, lo: u64, w: u64) -> u64 {
    (v >> lo) & low_mask(w)
}

/// The one-bit flag of `v` at bit `lo`.
pub open spec fn flag(v: u64, lo: u64) -> bool {
    field(v, lo, 1) == 1
}

/// `v` with its `w`-bit field at `lo` replaced by the low `w` bits of `f`.
pub open spec fn with_field(v: u64, lo: u64, w: u64, f: u64) -> u64 {
    (v & !(low_mask(w) << lo)) | ((f & low_mask(w)) << lo)
}

/// `v` with its flag at `lo` set to `b`.
pub open spec fn with_flag(v: u64, lo: u64, b: bool) -> u64 {
    with_field(v, lo, 1, if b { 1 } else { 0 })
}

/// A field position that fits in a 64-bit word.
pub open spec fn valid_field(lo: u64, w: u64) -> bool {
    0 < w < 64 && lo < 64 && lo + w <= 64
}

/// Reads the `w`-bit field of `v` at bit `lo`.
pub fn get_field(v: u64, lo: u64, w: u64) -> (r: u64)
    requires
        valid_field(lo, w),
    ensures
        r == field(v, lo, w),
        w <= 1 ==> r < 2,
        w <= 8 ==> r < 0x100,
        w <= 16 ==> r < 0x1_0000,
        w <= 32 ==> r < 0x1_0000_0000,
{
    assert(1u64 << w >= 1 && (w <= 1 ==> ((v >> lo) & (((1u64 << w) - 1) as u64)) < 2) && (w <= 8
        ==> ((v >> lo) & (((1u64 << w) - 1) as u64)) < 0x100) && (w <= 16 ==> ((v >> lo) & (((1u64
        << w) - 1) as u64)) < 0x1_0000) && (w <= 32 ==> ((v >> lo) & (((1u64 << w) - 1) as u64))
        < 0x1_0000_0000)) by (bit_vector)
        requires
            0 < w < 64,
    ;
    (v >> lo) & ((1u64 << w) - 1)
}

/// Reads the flag of `v` at bit `lo`.
pub fn get_flag(v: u64, lo: u64) -> (r: bool)
    requires
        lo < 64,
    ensures
        r == flag(v, lo),
{
    get_field(v, lo, 1) == 1
}

/// Replaces the `w`-bit field of `v` at bit `lo` by the low bits of `f`.
pub fn set_field(v: u64, lo: u64, w: u64, f: u64) -> (r: u64)
    requires
        valid_field(lo, w),
    ensures
        r == with_field(v, lo, w, f),
{
    assert(1u64 << w >= 1) by (bit_vector)
        requires
            w < 64,
    ;
    (v & !(((1u64 << w) - 1) << lo)) | ((f & ((1u64 << w) - 1)) << lo)
}

/// Sets the flag of `v` at bit `lo` to `b`.
pub fn set_flag(v: u64, lo: u64, b: bool) -> (r: u64)
    requires
        lo < 64,
    ensures
        r == with_flag(v, lo, b),
{
    set_field(v, lo, 1, if b { 1 } else { 0 })
}

/// Reading a field back after it was written gives the low bits written.
pub proof fn lemma_field_of_with_field(v: u64, lo: u64, w: u64, f: u64)
    requires
        valid_field(lo, w),
    ensures
        field(with_field(v, lo, w, f), lo, w) == f & low_mask(w),
        f <= low_mask(w) ==> field(with_field(v, lo, w, f), lo, w) == f,
{
    assert(((((v & !((((1u64 << w) - 1) as u64) << lo)) | ((f & (((1u64 << w) - 1) as u64)) << lo))
        >> lo) & (((1u64 << w) - 1) as u64)) == f & (((1u64 << w) - 1) as u64) && (f <= (((1u64
        << w) - 1) as u64) ==> f & (((1u64 << w) - 1) as u64) == f)) by (bit_vector)
        requires
            0 < w < 64,
            lo < 64,
            lo + w <= 64,
    ;
}

/// Writing a field leaves every disjoint field as it was.
pub proof fn lemma_field_of_with_other_field(v: u64, lo: u64, w: u64, f: u64, lo2: u64, w2: u64)
    requires
        valid_field(lo, w),
        valid_field(lo2, w2),
        lo2 + w2 <= lo || lo + w <= lo2,
    ensures
        field(with_field(v, lo, w, f), lo2, w2) == field(v, lo2, w2),
{
    assert(((((v & !((((1u64 << w) - 1) as u64) << lo)) | ((f & (((1u64 << w) - 1) as u64)) << lo))
        >> lo2) & (((1u64 << w2) - 1) as u64)) == ((v >> lo2) & (((1u64 << w2) - 1) as u64)))
        by (bit_vector)
        requires
            0 < w < 64,
            lo < 64,
            lo + w <= 64,
            0 < w2 < 64,
            lo2 < 64,
            lo2 + w2 <= 64,
            lo2 + w2 <= lo || lo + w <= lo2,
    ;
}

/// A word below `2^n` stays below `2^n` when a field inside its low `n` bits is written.
pub proof fn lemma_with_field_bound(v: u64, lo: u64, w: u64, f: u64, n: u64)
    requires
        valid_field(lo, w),
        lo + w <= n,
        n < 64,
        v < (1u64 << n),
    ensures
        with_field(v, lo, w, f) < (1u64 << n),
{
    assert(((v & !((((1u64 << w) - 1) as u64) << lo)) | ((f & (((1u64 << w) - 1) as u64)) << lo))
        < (1u64 << n)) by (bit_vector)
        requires
            0 < w < 64,
            lo < 64,
            lo + w <= n,
            n < 64,
            v < (1u64 << n),
    ;
}

/// Powers of two that the register widths need.
pub proof fn lemma_word_bounds()
    ensures
        (1u64 << 8u64) == 0x100,
        (1u64 << 16u64) == 0x1_0000,
        (1u64 << 32u64) == 0x1_0000_0000,
{
    assert((1u64 << 8u64) == 0x100 && (1u64 << 16u64) == 0x1_0000 && (1u64 << 32u64)
        == 0x1_0000_0000) by (bit_vector);
}

/// The masks of the field widths that the register layouts use.
pub proof fn lemma_low_mask_values()
    ensures
        low_mask(1) == 0x1,
        low_mask(2) == 0x3,
        low_mask(3) == 0x7,
        low_mask(4) == 0xf,
        low_mask(5) == 0x1f,
        low_mask(6) == 0x3f,
        low_mask(7) == 0x7f,
        low_mask(8) == 0xff,
        low_mask(9) == 0x1ff,
        low_mask(10) == 0x3ff,
        low_mask(11) == 0x7ff,
        low_mask(12) == 0xfff,
        low_mask(13) == 0x1fff,
        low_mask(14) == 0x3fff,
        low_mask(15) == 0x7fff,
        low_mask(16) == 0xffff,
        low_mask(17) == 0x1ffff,
        low_mask(24) == 0xffffff,
        low_mask(25) == 0x1ffffff,
        low_mask(29) == 0x1fffffff,
        low_mask(30) == 0x3fffffff,
        low_mask(32) == 0xffffffff,
        low_mask(44) == 0xfffffffffff,
        low_mask(52) == 0xfffffffffffff,
        low_mask(54) == 0x3fffffffffffff,
        low_mask(62) == 0x3fffffffffffffff,
        low_mask(63) == 0x7fffffffffffffff,
{
    assert(((1u64 << 1u64) - 1) as u64 == 0x1 && ((1u64 << 2u64) - 1) as u64 == 0x3 && ((1u64 << 3u64) - 1) as u64 == 0x7 && ((1u64 << 4u64) - 1) as u64 == 0xf && ((1u64 << 5u64) - 1) as u64 == 0x1f && ((1u64 << 6u64) - 1) as u64 == 0x3f && ((1u64 << 7u64) - 1) as u64 == 0x7f && ((1u64 << 8u64) - 1) as u64 == 0xff && ((1u64 << 9u64) - 1) as u64 == 0x1ff && ((1u64 << 10u64) - 1) as u64 == 0x3ff && ((1u64 << 11u64) - 1) as u64 == 0x7ff && ((1u64 << 12u64) - 1) as u64 == 0xfff && ((1u64 << 13u64) - 1) as u64 == 0x1fff && ((1u64 << 14u64) - 1) as u64 == 0x3fff && ((1u64 << 15u64) - 1) as u64 == 0x7fff && ((1u64 << 16u64) - 1) as u64 == 0xffff && ((1u64 << 17u64) - 1) as u64 == 0x1ffff && ((1u64 << 24u64) - 1) as u64 == 0xffffff && ((1u64 << 25u64) - 1) as u64 == 0x1ffffff && ((1u64 << 29u64) - 1) as u64 == 0x1fffffff && ((1u64 << 30u64) - 1) as u64 == 0x3fffffff && ((1u64 << 32u64) - 1) as u64 == 0xffffffff && ((1u64 << 44u64) - 1) as u64 == 0xfffffffffff && ((1u64 << 52u64) - 1) as u64 == 0xfffffffffffff && ((1u64 << 54u64) - 1) as u64 == 0x3fffffffffffff && ((1u64 << 62u64) - 1) as u64 == 0x3fffffffffffffff && ((1u64 << 63u64) - 1) as u64 == 0x7fffffffffffffff) by (bit_vector);
}

/// Reading a flag back after it was written gives the value written.
pub proof fn lemma_flag_of_with_flag(v: u64, lo: u64, b: bool)
    requires
        lo < 64,
    ensures
        flag(with_flag(v, lo, b), lo) == b,
{
    lemma_low_mask_values();
    lemma_field_of_with_field(v, lo, 1, if b { 1 } else { 0 });
    assert((1u64 & 1u64) == 1 && (0u64 & 1u64) == 0) by (bit_vector);
}

/// Reads the `w`-bit field at `lo` of a 32-bit register.
pub fn get_field32(v: u32, lo: u64, w: u64) -> (r: u64)
    requires
        valid_field(lo, w),
        lo + w <= 32,
    ensures
        r == field(v as u64, lo, w),
        w <= 1 ==> r < 2,
        w <= 8 ==> r < 0x100,
        w <= 16 ==> r < 0x1_0000,
        r < 0x1_0000_0000,
{
    get_field(v as u64, lo, w)
}

/// Writes the `w`-bit field at `lo` of a 32-bit register.
pub fn set_field32(v: u32, lo: u64, w: u64, f: u64) -> (r: u32)
    requires
        valid_field(lo, w),
        lo + w <= 32,
    ensures
        r as u64 == with_field(v as u64, lo, w, f),
{
    proof {
        lemma_word_bounds();
        lemma_with_field_bound(v as u64, lo, w, f, 32);
    }
    set_field(v as u64, lo, w, f) as u32
}

/// Writes a flag of a 32-bit register.
pub fn set_flag32(v: u32, lo: u64, b: bool) -> (r: u32)
    requires
        lo < 32,
    ensures
        r as u64 == with_flag(v as u64, lo, b),
{
    set_field32(v, lo, 1, if b { 1 } else { 0 })
}

/// Writes the `w`-bit field at `lo` of a 16-bit register.
pub fn set_field16(v: u16, lo: u64, w: u64, f: u64) -> (r: u16)
    requires
        valid_field(lo, w),
        lo + w <= 16,
    ensures
        r as u64 == with_field(v as u64, lo, w, f),
{
    proof {
        lemma_word_bounds();
        lemma_with_field_bound(v as u64, lo, w, f, 16);
    }
    set_field(v as u64, lo, w, f) as u16
}

/// Writes a flag of a 16-bit register.
pub fn set_flag16(v: u16, lo: u64, b: bool) -> (r: u16)
    requires
        lo < 16,
    ensures
        r as u64 == with_flag(v as u64, lo, b),
{
    set_field16(v, lo, 1, if b { 1 } else { 0 })
}

/// Writes the `w`-bit field at `lo` of an 8-bit register.
pub fn set_field8(v: u8, lo: u64, w: u64, f: u64) -> (r: u8)
    requires
        valid_field(lo, w),
        lo + w <= 8,
    ensures
        r as u64 == with_field(v as u64, lo, w, f),
{
    proof {
        lemma_word_bounds();
        lemma_with_field_bound(v as u64, lo, w, f, 8);
    }
    set_field(v as u64, lo, w, f) as u8
}

/// Writes a flag of an 8-bit register.
pub fn set_flag8(v: u8, lo: u64, b: bool) -> (r: u8)
    requires
        lo < 8,
    ensures
        r as u64 == with_flag(v as u64, lo, b),
{
    set_field8(v, lo, 1, if b { 1 } else { 0 })
}

/// The low 32 bits of a 64-bit word.
pub fn lo32(v: u64) -> (r: u32)
    ensures
        r == v % 0x1_0000_0000,
{
    assert((v & 0xffff_ffff) == v % 0x1_0000_0000) by (bit_vector);
    (v & 0xffff_ffff) as u32
}

/// The high 32 bits of a 64-bit word.
pub fn hi32(v: u64) -> (r: u32)
    ensures
        r == v / 0x1_0000_0000,
{
    assert((v >> 32) == v / 0x1_0000_0000) by (bit_vector);
    (v >> 32) as u32
}

/// The 64-bit word whose low half is `lo` and whose high half is `hi`.
pub fn join64(lo: u32, hi: u32) -> (r: u64)
    ensures
        r == lo + hi * 0x1_0000_0000,
{
    assert(((lo as u64) | ((hi as u64) << 32)) == (lo as u64) + (hi as u64) * 0x1_0000_0000)
        by (bit_vector);
    (lo as u64) | ((hi as u64) << 32)
}

/// Splitting a word into halves and joining them gives the word back.
pub proof fn lemma_join_split(v: u64)
    ensures
        v % 0x1_0000_0000 + (v / 0x1_0000_0000) * 0x1_0000_0000 == v,
{
}

/// A field of `w` bits is below `2^w`.
pub proof fn lemma_field_lt(v: u64, lo: u64, w: u64)
    requires
        valid_field(lo, w),
    ensures
        field(v, lo, w) < (1u64 << w),
{
    assert(((v >> lo) & (((1u64 << w) - 1) as u64)) < (1u64 << w)) by (bit_vector)
        requires
            0 < w < 64,
    ;
}

/// Bounds of a field by its width.
pub broadcast proof fn lemma_field_bound(v: u64, lo: u64, w: u64)
    requires
        valid_field(lo, w),
    ensures
        w <= 1 ==> #[trigger] field(v, lo, w) < 2,
        w <= 8 ==> field(v, lo, w) < 0x100,
        w <= 16 ==> field(v, lo, w) < 0x1_0000,
        w <= 32 ==> field(v, lo, w) < 0x1_0000_0000,
        w <= 3 ==> field(v, lo, w) < 8,
        w <= 2 ==> field(v, lo, w) < 4,
{
    assert((w <= 1 ==> ((v >> lo) & (((1u64 << w) - 1) as u64)) < 2) && (w <= 8 ==> ((v >> lo) & (((
    1u64 << w) - 1) as u64)) < 0x100) && (w <= 16 ==> ((v >> lo) & (((1u64 << w) - 1) as u64))
        < 0x1_0000) && (w <= 32 ==> ((v >> lo) & (((1u64 << w) - 1) as u64)) < 0x1_0000_0000) && (w
        <= 3 ==> ((v >> lo) & (((1u64 << w) - 1) as u64)) < 8) && (w <= 2 ==> ((v >> lo) & (((1u64
        << w) - 1) as u64)) < 4)) by (bit_vector)
        requires
            0 < w < 64,
    ;
}

/// The mask of `w` low ones.
pub fn low_mask_of(w: u64) -> (r: u64)
    requires
        0 < w < 64,
    ensures
        r == low_mask(w),
{
    assert(1u64 << w >= 1) by (bit_vector)
        requires
            w < 64,
    ;
    (1u64 << w) - 1
}

/// Bit `i` of `x`.
pub open spec fn bit(x: u64, i: u64) -> bool {
    (x >> i) & 1u64 == 1u64
}

/// The bits of a bitwise or, and, exclusive or and and-not are the boolean
/// operations on the bits of the operands; the low word of `x` keeps its
/// low 32 bits and clears the others.
pub proof fn lemma_bitwise_bits()
    by (bit_vector)
    ensures
        forall|x: u64, y: u64, i: u64| i < 64 ==> #[trigger] bit(x | y, i) == (bit(x, i) || bit(y, i)),
        forall|x: u64, y: u64, i: u64| i < 64 ==> #[trigger] bit(x & y, i) == (bit(x, i) && bit(y, i)),
        forall|x: u64, y: u64, i: u64| i < 64 ==> #[trigger] bit(x ^ y, i) == (bit(x, i) != bit(y, i)),
        forall|x: u64, y: u64, i: u64| i < 64 ==> #[trigger] bit(x & !y, i) == (bit(x, i) && !bit(y, i)),
        forall|x: u64, i: u64| i < 64 ==> #[trigger] bit((x >> 0u64) & 0xffff_ffffu64, i) == (i < 32 && bit(x, i)),
{
}

/// The bits of shifts, and of the low byte, half-word and word of `x` and
/// of the masks above them.
pub proof fn lemma_shift_mask_bits()
    by (bit_vector)
    ensures
        forall|x: u64, s: u64, i: u64| s < 64 && i < 64 ==> #[trigger] bit(x << s, i)
            == (i >= s && bit(x, (i - s) as u64)),
        forall|x: u64, s: u64, i: u64| s < 64 && i < 64 ==> #[trigger] bit(x >> s, i)
            == (i + s < 64 && bit(x, (i + s) as u64)),
        forall|s: u64, i: u64| s < 64 && i < 64 ==> #[trigger] bit(!(0xffff_ffff_ffff_ffffu64 >> s), i)
            == (i + s >= 64),
        forall|x: u64, i: u64| i < 64 ==> #[trigger] bit((x >> 0u64) & 0xffu64, i) == (i < 8 && bit(x, i)),
        forall|x: u64, i: u64| i < 64 ==> #[trigger] bit((x >> 0u64) & 0xffffu64, i) == (i < 16 && bit(x, i)),
        forall|i: u64| i < 64 ==> #[trigger] bit(!0xffu64, i) == (i >= 8),
        forall|i: u64| i < 64 ==> #[trigger] bit(!0xffffu64, i) == (i >= 16),
        forall|i: u64| i < 64 ==> #[trigger] bit(!0xffff_ffffu64, i) == (i >= 32),
        forall|i: u64| i < 64 ==> #[trigger] bit(!1u64, i) == (i != 0),
{
}

} // verus!
