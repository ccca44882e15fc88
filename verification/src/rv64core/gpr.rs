//! The 32 general-purpose registers and their ABI names.
use vstd::prelude::*;
use vstd::string::StringSliceAdditionalSpecFns;

verus! {

broadcast use vstd::array::group_array_axioms;

/// The ABI names of the registers `x0`..`x31`, in register order.
#[allow(non_camel_case_types)]
#[derive(Clone, Copy, PartialEq, Eq, Debug, Structural)]
pub enum GprName {
    zero,
    ra,
    sp,
    gp,
    tp,
    t0,
    t1,
    t2,
    s0,
    s1,
    a0,
    a1,
    a2,
    a3,
    a4,
    a5,
    a6,
    a7,
    s2,
    s3,
    s4,
    s5,
    s6,
    s7,
    s8,
    s9,
    s10,
    s11,
    t3,
    t4,
    t5,
    t6,
}

/// The register number of `g`.
pub open spec fn gpr_index(g: GprName) -> nat {
    match g {
        GprName::zero => 0,
        GprName::ra => 1,
        GprName::sp => 2,
        GprName::gp => 3,
        GprName::tp => 4,
        GprName::t0 => 5,
        GprName::t1 => 6,
        GprName::t2 => 7,
        GprName::s0 => 8,
        GprName::s1 => 9,
        GprName::a0 => 10,
        GprName::a1 => 11,
        GprName::a2 => 12,
        GprName::a3 => 13,
        GprName::a4 => 14,
        GprName::a5 => 15,
        GprName::a6 => 16,
        GprName::a7 => 17,
        GprName::s2 => 18,
        GprName::s3 => 19,
        GprName::s4 => 20,
        GprName::s5 => 21,
        GprName::s6 => 22,
        GprName::s7 => 23,
        GprName::s8 => 24,
        GprName::s9 => 25,
        GprName::s10 => 26,
        GprName::s11 => 27,
        GprName::t3 => 28,
        GprName::t4 => 29,
        GprName::t5 => 30,
        GprName::t6 => 31,
    }
}

/// The ABI name of register `i`.
pub open spec fn gpr_name(i: int) -> Seq<char> {
    if i == 0 {
        "zero"@
    } else if i == 1 {
        "ra"@
    } else if i == 2 {
        "sp"@
    } else if i == 3 {
        "gp"@
    } else if i == 4 {
        "tp"@
    } else if i == 5 {
        "t0"@
    } else if i == 6 {
        "t1"@
    } else if i == 7 {
        "t2"@
    } else if i == 8 {
        "s0"@
    } else if i == 9 {
        "s1"@
    } else if i == 10 {
        "a0"@
    } else if i == 11 {
        "a1"@
    } else if i == 12 {
        "a2"@
    } else if i == 13 {
        "a3"@
    } else if i == 14 {
        "a4"@
    } else if i == 15 {
        "a5"@
    } else if i == 16 {
        "a6"@
    } else if i == 17 {
        "a7"@
    } else if i == 18 {
        "s2"@
    } else if i == 19 {
        "s3"@
    } else if i == 20 {
        "s4"@
    } else if i == 21 {
        "s5"@
    } else if i == 22 {
        "s6"@
    } else if i == 23 {
        "s7"@
    } else if i == 24 {
        "s8"@
    } else if i == 25 {
        "s9"@
    } else if i == 26 {
        "s10"@
    } else if i == 27 {
        "s11"@
    } else if i == 28 {
        "t3"@
    } else if i == 29 {
        "t4"@
    } else if i == 30 {
        "t5"@
    } else if i == 31 {
        "t6"@
    } else {
        Seq::empty()
    }
}

impl GprName {
    /// The register number.
    pub fn index(&self) -> (r: u64)
        ensures
            r == gpr_index(*self),
    {
        match self {
            GprName::zero => 0,
            GprName::ra => 1,
            GprName::sp => 2,
            GprName::gp => 3,
            GprName::tp => 4,
            GprName::t0 => 5,
            GprName::t1 => 6,
            GprName::t2 => 7,
            GprName::s0 => 8,
            GprName::s1 => 9,
            GprName::a0 => 10,
            GprName::a1 => 11,
            GprName::a2 => 12,
            GprName::a3 => 13,
            GprName::a4 => 14,
            GprName::a5 => 15,
            GprName::a6 => 16,
            GprName::a7 => 17,
            GprName::s2 => 18,
            GprName::s3 => 19,
            GprName::s4 => 20,
            GprName::s5 => 21,
            GprName::s6 => 22,
            GprName::s7 => 23,
            GprName::s8 => 24,
            GprName::s9 => 25,
            GprName::s10 => 26,
            GprName::s11 => 27,
            GprName::t3 => 28,
            GprName::t4 => 29,
            GprName::t5 => 30,
            GprName::t6 => 31,
        }
    }

    /// The register with number `i`.
    pub fn from_index(i: u64) -> (r: Self)
        requires
            i < 32,
        ensures
            gpr_index(r) == i,
    {
        match i {
            0 => GprName::zero,
            1 => GprName::ra,
            2 => GprName::sp,
            3 => GprName::gp,
            4 => GprName::tp,
            5 => GprName::t0,
            6 => GprName::t1,
            7 => GprName::t2,
            8 => GprName::s0,
            9 => GprName::s1,
            10 => GprName::a0,
            11 => GprName::a1,
            12 => GprName::a2,
            13 => GprName::a3,
            14 => GprName::a4,
            15 => GprName::a5,
            16 => GprName::a6,
            17 => GprName::a7,
            18 => GprName::s2,
            19 => GprName::s3,
            20 => GprName::s4,
            21 => GprName::s5,
            22 => GprName::s6,
            23 => GprName::s7,
            24 => GprName::s8,
            25 => GprName::s9,
            26 => GprName::s10,
            27 => GprName::s11,
            28 => GprName::t3,
            29 => GprName::t4,
            30 => GprName::t5,
            _ => GprName::t6,
        }
    }

    /// The ABI name, as an owned string.
    pub fn to_string(&self) -> (r: String)
        ensures
            r@ == gpr_name(gpr_index(*self) as int),
    {
        self.name().to_owned()
    }

    /// The ABI name, as a string.
    pub fn name(&self) -> (r: &'static str)
        ensures
            r@ == gpr_name(gpr_index(*self) as int),
    {
        Gpr::get_register_name(self.index())
    }
}

/// Whether `a` and `b` are the same string.
pub fn str_eq(a: &str, b: &str) -> (r: bool)
    ensures
        r == (a@ == b@),
{
    let x = a.as_bytes();
    let y = b.as_bytes();
    proof {
        vstd::utf8::encode_utf8_decode_utf8(a@);
        vstd::utf8::encode_utf8_decode_utf8(b@);
    }
    assert(x@ == a.spec_bytes() && y@ == b.spec_bytes());
    assert(a@ == vstd::utf8::decode_utf8(x@) && b@ == vstd::utf8::decode_utf8(y@));
    if x.len() != y.len() {
        return false;
    }
    let mut i: usize = 0;
    while i < x.len()
        invariant
            0 <= i <= x@.len(),
            x@.len() == y@.len(),
            x@ == a.spec_bytes(),
            y@ == b.spec_bytes(),
            forall|j: int| 0 <= j < i ==> x@[j] == y@[j],
        decreases x@.len() - i,
    {
        if x[i] != y[i] {
            assert(x@ != y@);
            return false;
        }
        i = i + 1;
    }
    assert(x@ == y@);
    true
}

/// The register whose ABI name is `s`, if any.
pub fn parse_gpr_name(s: &str) -> (r: Option<GprName>)
    ensures
        r is Some ==> gpr_name(gpr_index(r->0) as int) == s@,
        r is None ==> forall|i: int| 0 <= i < 32 ==> gpr_name(i) != s@,
{
    let mut i: u64 = 0;
    while i < 32
        invariant
            0 <= i <= 32,
            forall|j: int| 0 <= j < i ==> gpr_name(j) != s@,
        decreases 32 - i,
    {
        if str_eq(s, Gpr::get_register_name(i)) {
            return Some(GprName::from_index(i));
        }
        i = i + 1;
    }
    None
}

impl std::str::FromStr for GprName {
    type Err = ();

    fn from_str(s: &str) -> Result<Self, ()> {
        match parse_gpr_name(s) {
            Some(g) => Ok(g),
            None => Err(()),
        }
    }
}

/// What reading register `idx` gives with registers `regs`: `x0` reads 0.
pub open spec fn gpr_value(regs: Seq<u64>, idx: int) -> u64 {
    if idx == 0 { 0 } else { regs[idx] }
}

/// The register an ABI name stands for, read off its characters.
pub open spec fn gpr_name_index(s: Seq<char>) -> int {
    let c0 = s[0];
    let d = s[1] as int - '0' as int;
    if c0 == 'z' {
        0
    } else if c0 == 'r' {
        1
    } else if c0 == 'g' {
        3
    } else if c0 == 'a' {
        10 + d
    } else if c0 == 's' && s[1] == 'p' {
        2
    } else if c0 == 't' && s[1] == 'p' {
        4
    } else if c0 == 't' {
        if d <= 2 { 5 + d } else { 25 + d }
    } else if s.len() == 3 {
        26 + (s[2] as int - '0' as int)
    } else if d <= 1 {
        8 + d
    } else {
        16 + d
    }
}

/// Each register's ABI name leads back to the register.
pub proof fn lemma_gpr_name_index(i: int)
    requires
        0 <= i < 32,
    ensures
        gpr_name_index(gpr_name(i)) == i,
{
    if i == 0 {
        reveal_strlit("zero");
    } else if i == 1 {
        reveal_strlit("ra");
    } else if i == 2 {
        reveal_strlit("sp");
    } else if i == 3 {
        reveal_strlit("gp");
    } else if i == 4 {
        reveal_strlit("tp");
    } else if i == 5 {
        reveal_strlit("t0");
    } else if i == 6 {
        reveal_strlit("t1");
    } else if i == 7 {
        reveal_strlit("t2");
    } else if i == 8 {
        reveal_strlit("s0");
    } else if i == 9 {
        reveal_strlit("s1");
    } else if i == 10 {
        reveal_strlit("a0");
    } else if i == 11 {
        reveal_strlit("a1");
    } else if i == 12 {
        reveal_strlit("a2");
    } else if i == 13 {
        reveal_strlit("a3");
    } else if i == 14 {
        reveal_strlit("a4");
    } else if i == 15 {
        reveal_strlit("a5");
    } else if i == 16 {
        reveal_strlit("a6");
    } else if i == 17 {
        reveal_strlit("a7");
    } else if i == 18 {
        reveal_strlit("s2");
    } else if i == 19 {
        reveal_strlit("s3");
    } else if i == 20 {
        reveal_strlit("s4");
    } else if i == 21 {
        reveal_strlit("s5");
    } else if i == 22 {
        reveal_strlit("s6");
    } else if i == 23 {
        reveal_strlit("s7");
    } else if i == 24 {
        reveal_strlit("s8");
    } else if i == 25 {
        reveal_strlit("s9");
    } else if i == 26 {
        reveal_strlit("s10");
    } else if i == 27 {
        reveal_strlit("s11");
    } else if i == 28 {
        reveal_strlit("t3");
    } else if i == 29 {
        reveal_strlit("t4");
    } else if i == 30 {
        reveal_strlit("t5");
    } else if i == 31 {
        reveal_strlit("t6");
    }
}

/// No two registers share an ABI name.
pub proof fn lemma_gpr_names_distinct(i: int, j: int)
    requires
        0 <= i < 32,
        0 <= j < 32,
        gpr_name(i) == gpr_name(j),
    ensures
        i == j,
{
    lemma_gpr_name_index(i);
    lemma_gpr_name_index(j);
}

/// The registers after writing `data` to register `idx`: writes to `x0` are dropped.
pub open spec fn gpr_written(regs: Seq<u64>, idx: int, data: u64) -> Seq<u64> {
    if idx == 0 { regs } else { regs.update(idx, data) }
}

/// A read gives what the last write to the register wrote; `x0` always reads 0.
pub proof fn lemma_gpr_read_after_write(regs: Seq<u64>, idx: int, data: u64, j: int)
    requires
        regs.len() == 32,
        0 <= idx < 32,
        0 <= j < 32,
    ensures
        gpr_value(gpr_written(regs, idx, data), j) == (if j == idx && idx != 0 { data } else { gpr_value(regs, j) }),
        gpr_value(gpr_written(regs, idx, data), 0) == 0,
{
}

pub struct Gpr {
    regs: [u64; 32],
}

impl View for Gpr {
    type V = Seq<u64>;

    closed spec fn view(&self) -> Seq<u64> {
        self.regs@
    }
}

/// A register file holds the 32 registers.
pub proof fn lemma_gpr_len(g: Gpr)
    ensures
        g@.len() == 32,
{
}

/// After a write, a register reads what was written to it (but `x0`,
/// which stays 0), and every other register reads as before.
pub proof fn lemma_gpr_write_then_read(g: Gpr, idx: int, data: u64, j: int)
    requires
        0 <= idx < 32,
        0 <= j < 32,
    ensures
        gpr_value(gpr_written(g@, idx, data), j) == (if j == idx && idx != 0 { data } else { gpr_value(g@, j) }),
{
    lemma_gpr_read_after_write(g@, idx, data, j);
}

impl Gpr {
    /// All registers zero.
    pub fn new() -> (r: Self)
        ensures
            r@.len() == 32,
            r@ == Seq::new(32, |i: int| 0u64),
    {
        let r = Gpr { regs: [0u64; 32] };
        assert(r@ == Seq::new(32, |i: int| 0u64));
        r
    }

    pub fn read(&self, idx: u64) -> (r: u64)
        requires
            idx < 32,
        ensures
            r == gpr_value(self@, idx as int),
    {
        if idx == 0 {
            0
        } else {
            self.regs[idx as usize]
        }
    }

    pub fn write(&mut self, idx: u64, data: u64)
        requires
            idx < 32,
        ensures
            final(self)@.len() == 32,
            final(self)@ == gpr_written(old(self)@, idx as int, data),
    {
        if idx != 0 {
            self.regs[idx as usize] = data;
        }
    }

    /// The ABI name of register `num`.
    pub fn get_register_name(num: u64) -> (r: &'static str)
        requires
            num < 32,
        ensures
            r@ == gpr_name(num as int),
    {
        match num {
            0 => "zero",
            1 => "ra",
            2 => "sp",
            3 => "gp",
            4 => "tp",
            5 => "t0",
            6 => "t1",
            7 => "t2",
            8 => "s0",
            9 => "s1",
            10 => "a0",
            11 => "a1",
            12 => "a2",
            13 => "a3",
            14 => "a4",
            15 => "a5",
            16 => "a6",
            17 => "a7",
            18 => "s2",
            19 => "s3",
            20 => "s4",
            21 => "s5",
            22 => "s6",
            23 => "s7",
            24 => "s8",
            25 => "s9",
            26 => "s10",
            27 => "s11",
            28 => "t3",
            29 => "t4",
            30 => "t5",
            _ => "t6",
        }
    }

    /// The register whose ABI name is `reg_name`, which must be one.
    pub fn get_register_idx(reg_name: &str) -> (r: GprName)
        requires
            exists|i: int| 0 <= i < 32 && gpr_name(i) == reg_name@,
        ensures
            gpr_index(r) < 32,
            gpr_name(gpr_index(r) as int) == reg_name@,
            forall|i: int| 0 <= i < 32 && gpr_name(i) == reg_name@ ==> gpr_index(r) == i,
    {
        let g = match parse_gpr_name(reg_name) {
            Some(g) => g,
            None => GprName::zero,
        };
        proof {
            assert forall|i: int| 0 <= i < 32 && gpr_name(i) == reg_name@ implies gpr_index(g) == i by {
                lemma_gpr_names_distinct(i, gpr_index(g) as int);
            }
        }
        g
    }

    /// Reads the register whose ABI name is `reg_name`, which must be one.
    pub fn read_by_name(&mut self, reg_name: &str) -> (r: u64)
        requires
            exists|i: int| 0 <= i < 32 && gpr_name(i) == reg_name@,
        ensures
            *final(self) == *old(self),
            forall|i: int| 0 <= i < 32 && gpr_name(i) == reg_name@ ==> r == gpr_value(old(self)@, i),
    {
        let idx = Gpr::get_register_idx(reg_name);
        self.read(idx.index())
    }
}

} // verus!

