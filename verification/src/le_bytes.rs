//! Little-endian byte encoding of words, as memory-like devices and caches store them.
use vstd::prelude::*;
use vstd::arithmetic::div_mod::{lemma_div_denominator, lemma_mod_breakdown, lemma_fundamental_div_mod};
use vstd::arithmetic::mul::{lemma_mul_strict_inequality, lemma_mul_inequality};

verus! {

/// `256^n`.
pub open spec fn byte_weight(n: nat) -> nat
    decreases n,
{
    if n == 0 {
        1
    } else {
        256 * byte_weight((n - 1) as nat)
    }
}

/// The number whose little-endian bytes are `s`.
pub open spec fn le_value(s: Seq<u8>) -> nat
    decreases s.len(),
{
    if s.len() == 0 {
        0
    } else {
        s[0] as nat + 256 * le_value(s.drop_first())
    }
}

/// The `n` low bytes of `v`, least significant first.
pub open spec fn le_bytes(v: nat, n: nat) -> Seq<u8>
    decreases n,
{
    if n == 0 {
        Seq::empty()
    } else {
        seq![(v % 256) as u8] + le_bytes(v / 256, (n - 1) as nat)
    }
}

pub proof fn lemma_byte_weight_values()
    ensures
        byte_weight(0) == 1,
        byte_weight(1) == 0x100,
        byte_weight(2) == 0x1_0000,
        byte_weight(3) == 0x100_0000,
        byte_weight(4) == 0x1_0000_0000,
        byte_weight(5) == 0x100_0000_0000,
        byte_weight(6) == 0x1_0000_0000_0000,
        byte_weight(7) == 0x100_0000_0000_0000,
        byte_weight(8) == 0x1_0000_0000_0000_0000,
{
    reveal_with_fuel(byte_weight, 9);
}

pub proof fn lemma_byte_weight_pos(n: nat)
    ensures
        byte_weight(n) > 0,
    decreases n,
{
    if n > 0 {
        lemma_byte_weight_pos((n - 1) as nat);
    }
}

pub proof fn lemma_byte_weight_mono(m: nat, n: nat)
    requires
        m <= n,
    ensures
        byte_weight(m) <= byte_weight(n),
    decreases n,
{
    if m < n {
        lemma_byte_weight_mono(m, (n - 1) as nat);
        lemma_byte_weight_pos((n - 1) as nat);
    }
}

/// A value of `n` bytes is below `256^n`.
pub proof fn lemma_le_value_bound(s: Seq<u8>)
    ensures
        le_value(s) < byte_weight(s.len()),
    decreases s.len(),
{
    if s.len() > 0 {
        lemma_le_value_bound(s.drop_first());
        assert(le_value(s.drop_first()) + 1 <= byte_weight((s.len() - 1) as nat));
        lemma_mul_inequality(le_value(s.drop_first()) as int + 1, byte_weight((s.len() - 1) as nat) as int, 256);
    }
}

pub proof fn lemma_le_bytes_len(v: nat, n: nat)
    ensures
        le_bytes(v, n).len() == n,
    decreases n,
{
    if n > 0 {
        lemma_le_bytes_len(v / 256, (n - 1) as nat);
    }
}

/// Byte `i` of the encoding is byte `i` of the value.
pub proof fn lemma_le_bytes_index(v: nat, n: nat, i: nat)
    requires
        i < n,
    ensures
        le_bytes(v, n)[i as int] == ((v / byte_weight(i)) % 256) as u8,
    decreases n,
{
    lemma_le_bytes_len(v, n);
    lemma_le_bytes_len(v / 256, (n - 1) as nat);
    if i == 0 {
        assert(byte_weight(0) == 1);
        assert(v / 1 == v);
        assert(le_bytes(v, n)[0] == (v % 256) as u8);
    } else {
        lemma_le_bytes_index(v / 256, (n - 1) as nat, (i - 1) as nat);
        lemma_byte_weight_pos((i - 1) as nat);
        lemma_div_denominator(v as int, 256, byte_weight((i - 1) as nat) as int);
        assert(le_bytes(v, n)[i as int] == le_bytes(v / 256, (n - 1) as nat)[i - 1]);
    }
}

/// Decoding the `n`-byte encoding of `v` gives `v` modulo `256^n`.
pub proof fn lemma_le_value_of_le_bytes(v: nat, n: nat)
    ensures
        le_value(le_bytes(v, n)) == v % byte_weight(n),
    decreases n,
{
    if n > 0 {
        let s = le_bytes(v, n);
        lemma_le_bytes_len(v, n);
        assert(s.drop_first() == le_bytes(v / 256, (n - 1) as nat));
        lemma_le_value_of_le_bytes(v / 256, (n - 1) as nat);
        lemma_byte_weight_pos((n - 1) as nat);
        lemma_mod_breakdown(v as int, 256, byte_weight((n - 1) as nat) as int);
    }
}

/// Reads `len` bytes at `addr` as a little-endian word.
pub fn read_le(data: &Vec<u8>, addr: usize, len: usize) -> (r: u64)
    requires
        len <= 8,
        addr + len <= data@.len(),
    ensures
        r == le_value(data@.subrange(addr as int, addr + len)),
{
    let ghost s = data@.subrange(addr as int, addr + len);
    let total = data.len();
    let mut value: u64 = 0;
    let mut k: usize = len;
    proof {
        assert(s.subrange(len as int, len as int) == Seq::<u8>::empty());
    }
    while k > 0
        invariant
            0 <= k <= len <= 8,
            addr + len <= data@.len(),
            total == data@.len(),
            s == data@.subrange(addr as int, addr + len),
            value == le_value(s.subrange(k as int, len as int)),
        decreases k,
    {
        let ghost tail = s.subrange(k as int, len as int);
        let ghost t = s.subrange(k - 1, len as int);
        proof {
            lemma_le_value_bound(tail);
            lemma_byte_weight_mono(tail.len(), 7);
            lemma_byte_weight_values();
            assert(t.drop_first() == tail);
            assert(t[0] == data@[addr + k - 1]);
        }
        value = data[addr + k - 1] as u64 + 256 * value;
        k = k - 1;
    }
    assert(s.subrange(0, len as int) == s);
    value
}

/// Writes the `len` low bytes of `v` at `addr`, least significant first.
pub fn write_le(data: &mut Vec<u8>, addr: usize, v: u64, len: usize)
    requires
        len <= 8,
        addr + len <= old(data)@.len(),
    ensures
        final(data)@ == old(data)@.subrange(0, addr as int) + le_bytes(v as nat, len as nat)
            + old(data)@.subrange(addr + len, old(data)@.len() as int),
{
    let ghost bytes = le_bytes(v as nat, len as nat);
    proof {
        lemma_le_bytes_len(v as nat, len as nat);
    }
    let total = data.len();
    let mut rest: u64 = v;
    let mut i: usize = 0;
    assert(byte_weight(0) == 1);
    assert(v as nat / 1 == v as nat);
    while i < len
        invariant
            0 <= i <= len <= 8,
            addr + len <= data@.len(),
            data@.len() == old(data)@.len(),
            total == data@.len(),
            bytes == le_bytes(v as nat, len as nat),
            bytes.len() == len,
            rest == v as nat / byte_weight(i as nat),
            forall|j: int| 0 <= j < addr || addr + i <= j < data@.len() ==> data@[j] == old(data)@[j],
            forall|j: int| addr <= j < addr + i ==> data@[j] == bytes[j - addr],
        decreases len - i,
    {
        proof {
            lemma_le_bytes_index(v as nat, len as nat, i as nat);
            lemma_byte_weight_pos(i as nat);
            lemma_div_denominator(v as int, byte_weight(i as nat) as int, 256);
        }
        data.set(addr + i, (rest % 256) as u8);
        rest = rest / 256;
        i = i + 1;
    }
    assert(data@ == old(data)@.subrange(0, addr as int) + bytes + old(data)@.subrange(addr + len, old(data)@.len() as int));
}

} // verus!
