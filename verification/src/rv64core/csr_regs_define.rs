//! The control and status registers (CSRs) of the RV64 hart: their layouts,
//! and the views through which instructions read and write them.
//!
//! Several CSRs are views of one register (`sstatus` of `mstatus`, `sip` of
//! `mip`, `cycle` of `mcycle`). The registers live in a `CsrFile`; a view
//! names its register by index (`CsrShare`) and reads or writes it through
//! the file it is handed.
use vstd::prelude::*;
use crate::bits::{lemma_field_bound, lemma_field_of_with_field, lemma_low_mask_values, field, flag, get_field, get_flag, set_field, set_flag, set_field16, set_flag16, set_field8, set_flag8, with_field, with_flag};
use super::inst_base::{AccessType, PrivilegeLevels, priv_level};
use super::traptype::{TrapType, is_interrupt_trap, trap_code};

verus! {

broadcast use lemma_field_bound;

/// `old` with the bits of `mask` taken from `data`.
pub open spec fn masked_write(old: u64, data: u64, mask: u64) -> u64 {
    (old & !mask) | (data & mask)
}

pub fn write_with_mask(old: u64, data: u64, mask: u64) -> (r: u64)
    ensures
        r == masked_write(old, data, mask),
{
    (old & !mask) | (data & mask)
}

/// The index of a register in a `CsrFile`.
pub type CsrShare = usize;

/// The registers behind the CSR views.
pub struct CsrFile {
    pub regs: Vec<u64>,
}

impl View for CsrFile {
    type V = Seq<u64>;

    open spec fn view(&self) -> Seq<u64> {
        self.regs@
    }
}

impl CsrFile {
    pub fn new() -> (r: Self)
        ensures
            r@ == Seq::<u64>::empty(),
    {
        CsrFile { regs: Vec::new() }
    }

    /// Adds a register holding `init`; returns its index.
    pub fn add_register(&mut self, init: u64) -> (r: CsrShare)
        requires
            old(self)@.len() < usize::MAX,
        ensures
            r == old(self)@.len(),
            final(self)@ == old(self)@.push(init),
    {
        let r = self.regs.len();
        self.regs.push(init);
        r
    }

    pub fn get(&self, s: CsrShare) -> (r: u64)
        requires
            s < self@.len(),
        ensures
            r == self@[s as int],
    {
        self.regs[s]
    }

    pub fn set(&mut self, s: CsrShare, v: u64)
        requires
            s < old(self)@.len(),
        ensures
            final(self)@ == old(self)@.update(s as int, v),
    {
        self.regs.set(s, v);
    }
}

/// The access check that a CSR address encodes: `csr[9:8]` is the lowest
/// privilege that may access it, and `csr[11:10] == 0b11` makes it read-only.
pub open spec fn csr_addr_permits(addr: u64, privi: PrivilegeLevels, access: AccessType) -> bool {
    let has_privilege = priv_level(privi) >= field(addr, 8, 2);
    match access {
        AccessType::Store(_) => field(addr, 10, 2) != 3 && has_privilege,
        _ => has_privilege,
    }
}

/// The default permission check of a CSR, from its address.
pub fn default_check_permission(addr: u64, privi: PrivilegeLevels, access_type: AccessType) -> (r: Result<(), ()>)
    requires
        addr < 4096,
    ensures
        r is Ok <==> csr_addr_permits(addr, privi, access_type),
{
    let csr_addr = CsrAddr(addr as u16);
    assert(csr_addr.0 as u64 == addr);
    if csr_addr.check_privilege(privi, access_type) {
        Ok(())
    } else {
        Err(())
    }
}

/// A CSR as instructions see it.
pub trait Csr: Sized {
    /// The registers this view reaches exist in a file of `n` registers.
    spec fn fits(&self, n: nat) -> bool;

    /// The register value, unmasked.
    spec fn raw_of(&self, f: Seq<u64>) -> u64;

    /// What a CSR read returns.
    spec fn read_of(&self, f: Seq<u64>) -> u64;

    /// The writes the view takes.
    spec fn write_ok(&self, data: u64) -> bool;

    /// The registers after a write of `data`.
    spec fn write_of(&self, f: Seq<u64>, data: u64) -> Seq<u64>;

    /// Whether an access is permitted.
    spec fn permitted(&self, f: Seq<u64>, addr: u64, privi: PrivilegeLevels, access: AccessType) -> bool;

    fn read(&self, file: &CsrFile) -> (r: u64)
        requires
            self.fits(file@.len()),
        ensures
            r == self.read_of(file@),
    ;

    fn write(&self, file: &mut CsrFile, data: u64)
        requires
            self.fits(old(file)@.len()),
            self.write_ok(data),
        ensures
            final(file)@ == self.write_of(old(file)@, data),
            final(file)@.len() == old(file)@.len(),
    ;

    fn read_raw(&self, file: &CsrFile) -> (r: u64)
        requires
            self.fits(file@.len()),
        ensures
            r == self.raw_of(file@),
    ;

    fn check_permission(&self, file: &CsrFile, addr: u64, privi: PrivilegeLevels, access_type: AccessType) -> (r: Result<(), ()>)
        requires
            addr < 4096,
            self.fits(file@.len()),
        ensures
            r is Ok <==> self.permitted(file@, addr, privi, access_type),
    ;
}

/// A CSR address: the register number, the lowest privilege that may access it, and whether it is read-only (`0b11` in `read_write`).
#[derive(Clone, Copy, PartialEq, Eq, Debug, Structural)]
pub struct CsrAddr(pub u16);

impl CsrAddr {
    pub fn new() -> (r: Self)
        ensures
            r.0 == 0,
    {
        CsrAddr(0)
    }

    #[verifier::allow_in_spec]
    pub fn addr(&self) -> u8
        returns
            field(self.0 as u64, 0, 8) as u8,
    {
        get_field(self.0 as u64, 0, 8) as u8
    }

    pub fn set_addr(&mut self, v: u8)
        ensures
            final(self).0 as u64 == with_field(old(self).0 as u64, 0, 8, v as u64),
    {
        self.0 = set_field16(self.0, 0, 8, v as u64);
    }

    #[verifier::allow_in_spec]
    pub fn privilege(&self) -> u8
        returns
            field(self.0 as u64, 8, 2) as u8,
    {
        get_field(self.0 as u64, 8, 2) as u8
    }

    pub fn set_privilege(&mut self, v: u8)
        ensures
            final(self).0 as u64 == with_field(old(self).0 as u64, 8, 2, v as u64),
    {
        self.0 = set_field16(self.0, 8, 2, v as u64);
    }

    #[verifier::allow_in_spec]
    pub fn read_write(&self) -> u8
        returns
            field(self.0 as u64, 10, 2) as u8,
    {
        get_field(self.0 as u64, 10, 2) as u8
    }

    pub fn set_read_write(&mut self, v: u8)
        ensures
            final(self).0 as u64 == with_field(old(self).0 as u64, 10, 2, v as u64),
    {
        self.0 = set_field16(self.0, 10, 2, v as u64);
    }

}

/// The `misa` register: the extensions and the base width.
#[derive(Clone, Copy, PartialEq, Eq, Debug, Structural)]
pub struct Misa(pub u64);

impl Misa {
    pub fn new() -> (r: Self)
        ensures
            r.0 == 0,
    {
        Misa(0)
    }

    #[verifier::allow_in_spec]
    pub fn a(&self) -> bool
        returns
            flag(self.0, 0),
    {
        get_flag(self.0, 0)
    }

    pub fn set_a(&mut self, b: bool)
        ensures
            final(self).0 == with_flag(old(self).0, 0, b),
    {
        self.0 = set_flag(self.0, 0, b);
    }

    pub fn with_a(self, b: bool) -> (r: Self)
        ensures
            r.0 == with_flag(self.0, 0, b),
    {
        Misa(set_flag(self.0, 0, b))
    }

    #[verifier::allow_in_spec]
    pub fn b(&self) -> bool
        returns
            flag(self.0, 1),
    {
        get_flag(self.0, 1)
    }

    pub fn set_b(&mut self, b: bool)
        ensures
            final(self).0 == with_flag(old(self).0, 1, b),
    {
        self.0 = set_flag(self.0, 1, b);
    }

    #[verifier::allow_in_spec]
    pub fn c(&self) -> bool
        returns
            flag(self.0, 2),
    {
        get_flag(self.0, 2)
    }

    pub fn set_c(&mut self, b: bool)
        ensures
            final(self).0 == with_flag(old(self).0, 2, b),
    {
        self.0 = set_flag(self.0, 2, b);
    }

    pub fn with_c(self, b: bool) -> (r: Self)
        ensures
            r.0 == with_flag(self.0, 2, b),
    {
        Misa(set_flag(self.0, 2, b))
    }

    #[verifier::allow_in_spec]
    pub fn d(&self) -> bool
        returns
            flag(self.0, 3),
    {
        get_flag(self.0, 3)
    }

    pub fn set_d(&mut self, b: bool)
        ensures
            final(self).0 == with_flag(old(self).0, 3, b),
    {
        self.0 = set_flag(self.0, 3, b);
    }

    #[verifier::allow_in_spec]
    pub fn e(&self) -> bool
        returns
            flag(self.0, 4),
    {
        get_flag(self.0, 4)
    }

    pub fn set_e(&mut self, b: bool)
        ensures
            final(self).0 == with_flag(old(self).0, 4, b),
    {
        self.0 = set_flag(self.0, 4, b);
    }

    #[verifier::allow_in_spec]
    pub fn f(&self) -> bool
        returns
            flag(self.0, 5),
    {
        get_flag(self.0, 5)
    }

    pub fn set_f(&mut self, b: bool)
        ensures
            final(self).0 == with_flag(old(self).0, 5, b),
    {
        self.0 = set_flag(self.0, 5, b);
    }

    #[verifier::allow_in_spec]
    pub fn g(&self) -> bool
        returns
            flag(self.0, 6),
    {
        get_flag(self.0, 6)
    }

    pub fn set_g(&mut self, b: bool)
        ensures
            final(self).0 == with_flag(old(self).0, 6, b),
    {
        self.0 = set_flag(self.0, 6, b);
    }

    #[verifier::allow_in_spec]
    pub fn h(&self) -> bool
        returns
            flag(self.0, 7),
    {
        get_flag(self.0, 7)
    }

    pub fn set_h(&mut self, b: bool)
        ensures
            final(self).0 == with_flag(old(self).0, 7, b),
    {
        self.0 = set_flag(self.0, 7, b);
    }

    #[verifier::allow_in_spec]
    pub fn i(&self) -> bool
        returns
            flag(self.0, 8),
    {
        get_flag(self.0, 8)
    }

    pub fn set_i(&mut self, b: bool)
        ensures
            final(self).0 == with_flag(old(self).0, 8, b),
    {
        self.0 = set_flag(self.0, 8, b);
    }

    pub fn with_i(self, b: bool) -> (r: Self)
        ensures
            r.0 == with_flag(self.0, 8, b),
    {
        Misa(set_flag(self.0, 8, b))
    }

    #[verifier::allow_in_spec]
    pub fn j(&self) -> bool
        returns
            flag(self.0, 9),
    {
        get_flag(self.0, 9)
    }

    pub fn set_j(&mut self, b: bool)
        ensures
            final(self).0 == with_flag(old(self).0, 9, b),
    {
        self.0 = set_flag(self.0, 9, b);
    }

    #[verifier::allow_in_spec]
    pub fn k(&self) -> bool
        returns
            flag(self.0, 10),
    {
        get_flag(self.0, 10)
    }

    pub fn set_k(&mut self, b: bool)
        ensures
            final(self).0 == with_flag(old(self).0, 10, b),
    {
        self.0 = set_flag(self.0, 10, b);
    }

    #[verifier::allow_in_spec]
    pub fn l(&self) -> bool
        returns
            flag(self.0, 11),
    {
        get_flag(self.0, 11)
    }

    pub fn set_l(&mut self, b: bool)
        ensures
            final(self).0 == with_flag(old(self).0, 11, b),
    {
        self.0 = set_flag(self.0, 11, b);
    }

    #[verifier::allow_in_spec]
    pub fn m(&self) -> bool
        returns
            flag(self.0, 12),
    {
        get_flag(self.0, 12)
    }

    pub fn set_m(&mut self, b: bool)
        ensures
            final(self).0 == with_flag(old(self).0, 12, b),
    {
        self.0 = set_flag(self.0, 12, b);
    }

    pub fn with_m(self, b: bool) -> (r: Self)
        ensures
            r.0 == with_flag(self.0, 12, b),
    {
        Misa(set_flag(self.0, 12, b))
    }

    #[verifier::allow_in_spec]
    pub fn n(&self) -> bool
        returns
            flag(self.0, 13),
    {
        get_flag(self.0, 13)
    }

    pub fn set_n(&mut self, b: bool)
        ensures
            final(self).0 == with_flag(old(self).0, 13, b),
    {
        self.0 = set_flag(self.0, 13, b);
    }

    #[verifier::allow_in_spec]
    pub fn o(&self) -> bool
        returns
            flag(self.0, 14),
    {
        get_flag(self.0, 14)
    }

    pub fn set_o(&mut self, b: bool)
        ensures
            final(self).0 == with_flag(old(self).0, 14, b),
    {
        self.0 = set_flag(self.0, 14, b);
    }

    #[verifier::allow_in_spec]
    pub fn p(&self) -> bool
        returns
            flag(self.0, 15),
    {
        get_flag(self.0, 15)
    }

    pub fn set_p(&mut self, b: bool)
        ensures
            final(self).0 == with_flag(old(self).0, 15, b),
    {
        self.0 = set_flag(self.0, 15, b);
    }

    #[verifier::allow_in_spec]
    pub fn q(&self) -> bool
        returns
            flag(self.0, 16),
    {
        get_flag(self.0, 16)
    }

    pub fn set_q(&mut self, b: bool)
        ensures
            final(self).0 == with_flag(old(self).0, 16, b),
    {
        self.0 = set_flag(self.0, 16, b);
    }

    #[verifier::allow_in_spec]
    pub fn r(&self) -> bool
        returns
            flag(self.0, 17),
    {
        get_flag(self.0, 17)
    }

    pub fn set_r(&mut self, b: bool)
        ensures
            final(self).0 == with_flag(old(self).0, 17, b),
    {
        self.0 = set_flag(self.0, 17, b);
    }

    #[verifier::allow_in_spec]
    pub fn s(&self) -> bool
        returns
            flag(self.0, 18),
    {
        get_flag(self.0, 18)
    }

    pub fn set_s(&mut self, b: bool)
        ensures
            final(self).0 == with_flag(old(self).0, 18, b),
    {
        self.0 = set_flag(self.0, 18, b);
    }

    pub fn with_s(self, b: bool) -> (r: Self)
        ensures
            r.0 == with_flag(self.0, 18, b),
    {
        Misa(set_flag(self.0, 18, b))
    }

    #[verifier::allow_in_spec]
    pub fn t(&self) -> bool
        returns
            flag(self.0, 19),
    {
        get_flag(self.0, 19)
    }

    pub fn set_t(&mut self, b: bool)
        ensures
            final(self).0 == with_flag(old(self).0, 19, b),
    {
        self.0 = set_flag(self.0, 19, b);
    }

    #[verifier::allow_in_spec]
    pub fn u(&self) -> bool
        returns
            flag(self.0, 20),
    {
        get_flag(self.0, 20)
    }

    pub fn set_u(&mut self, b: bool)
        ensures
            final(self).0 == with_flag(old(self).0, 20, b),
    {
        self.0 = set_flag(self.0, 20, b);
    }

    #[verifier::allow_in_spec]
    pub fn v(&self) -> bool
        returns
            flag(self.0, 21),
    {
        get_flag(self.0, 21)
    }

    pub fn set_v(&mut self, b: bool)
        ensures
            final(self).0 == with_flag(old(self).0, 21, b),
    {
        self.0 = set_flag(self.0, 21, b);
    }

    #[verifier::allow_in_spec]
    pub fn w(&self) -> bool
        returns
            flag(self.0, 22),
    {
        get_flag(self.0, 22)
    }

    pub fn set_w(&mut self, b: bool)
        ensures
            final(self).0 == with_flag(old(self).0, 22, b),
    {
        self.0 = set_flag(self.0, 22, b);
    }

    #[verifier::allow_in_spec]
    pub fn x(&self) -> bool
        returns
            flag(self.0, 23),
    {
        get_flag(self.0, 23)
    }

    pub fn set_x(&mut self, b: bool)
        ensures
            final(self).0 == with_flag(old(self).0, 23, b),
    {
        self.0 = set_flag(self.0, 23, b);
    }

    #[verifier::allow_in_spec]
    pub fn y(&self) -> bool
        returns
            flag(self.0, 24),
    {
        get_flag(self.0, 24)
    }

    pub fn set_y(&mut self, b: bool)
        ensures
            final(self).0 == with_flag(old(self).0, 24, b),
    {
        self.0 = set_flag(self.0, 24, b);
    }

    #[verifier::allow_in_spec]
    pub fn z(&self) -> bool
        returns
            flag(self.0, 25),
    {
        get_flag(self.0, 25)
    }

    pub fn set_z(&mut self, b: bool)
        ensures
            final(self).0 == with_flag(old(self).0, 25, b),
    {
        self.0 = set_flag(self.0, 25, b);
    }

    #[verifier::allow_in_spec]
    pub fn mxl(&self) -> u8
        returns
            field(self.0, 62, 2) as u8,
    {
        get_field(self.0, 62, 2) as u8
    }

    pub fn set_mxl(&mut self, v: u8)
        ensures
            final(self).0 == with_field(old(self).0, 62, 2, v as u64),
    {
        self.0 = set_field(self.0, 62, 2, v as u64);
    }

    pub fn with_mxl(self, v: u8) -> (r: Self)
        ensures
            r.0 == with_field(self.0, 62, 2, v as u64),
    {
        Misa(set_field(self.0, 62, 2, v as u64))
    }

}

/// The `mstatus` register (`sstatus` is a restricted view of it).
#[derive(Clone, Copy, PartialEq, Eq, Debug, Structural)]
pub struct XstatusIn(pub u64);

impl XstatusIn {
    pub fn new() -> (r: Self)
        ensures
            r.0 == 0,
    {
        XstatusIn(0)
    }

    #[verifier::allow_in_spec]
    pub fn sie(&self) -> bool
        returns
            flag(self.0, 1),
    {
        get_flag(self.0, 1)
    }

    pub fn set_sie(&mut self, b: bool)
        ensures
            final(self).0 == with_flag(old(self).0, 1, b),
    {
        self.0 = set_flag(self.0, 1, b);
    }

    pub fn with_sie(self, b: bool) -> (r: Self)
        ensures
            r.0 == with_flag(self.0, 1, b),
    {
        XstatusIn(set_flag(self.0, 1, b))
    }

    #[verifier::allow_in_spec]
    pub fn mie(&self) -> bool
        returns
            flag(self.0, 3),
    {
        get_flag(self.0, 3)
    }

    pub fn set_mie(&mut self, b: bool)
        ensures
            final(self).0 == with_flag(old(self).0, 3, b),
    {
        self.0 = set_flag(self.0, 3, b);
    }

    pub fn with_mie(self, b: bool) -> (r: Self)
        ensures
            r.0 == with_flag(self.0, 3, b),
    {
        XstatusIn(set_flag(self.0, 3, b))
    }

    #[verifier::allow_in_spec]
    pub fn spie(&self) -> bool
        returns
            flag(self.0, 5),
    {
        get_flag(self.0, 5)
    }

    pub fn set_spie(&mut self, b: bool)
        ensures
            final(self).0 == with_flag(old(self).0, 5, b),
    {
        self.0 = set_flag(self.0, 5, b);
    }

    pub fn with_spie(self, b: bool) -> (r: Self)
        ensures
            r.0 == with_flag(self.0, 5, b),
    {
        XstatusIn(set_flag(self.0, 5, b))
    }

    #[verifier::allow_in_spec]
    pub fn ube(&self) -> bool
        returns
            flag(self.0, 6),
    {
        get_flag(self.0, 6)
    }

    pub fn set_ube(&mut self, b: bool)
        ensures
            final(self).0 == with_flag(old(self).0, 6, b),
    {
        self.0 = set_flag(self.0, 6, b);
    }

    pub fn with_ube(self, b: bool) -> (r: Self)
        ensures
            r.0 == with_flag(self.0, 6, b),
    {
        XstatusIn(set_flag(self.0, 6, b))
    }

    #[verifier::allow_in_spec]
    pub fn mpie(&self) -> bool
        returns
            flag(self.0, 7),
    {
        get_flag(self.0, 7)
    }

    pub fn set_mpie(&mut self, b: bool)
        ensures
            final(self).0 == with_flag(old(self).0, 7, b),
    {
        self.0 = set_flag(self.0, 7, b);
    }

    pub fn with_mpie(self, b: bool) -> (r: Self)
        ensures
            r.0 == with_flag(self.0, 7, b),
    {
        XstatusIn(set_flag(self.0, 7, b))
    }

    #[verifier::allow_in_spec]
    pub fn spp(&self) -> bool
        returns
            flag(self.0, 8),
    {
        get_flag(self.0, 8)
    }

    pub fn set_spp(&mut self, b: bool)
        ensures
            final(self).0 == with_flag(old(self).0, 8, b),
    {
        self.0 = set_flag(self.0, 8, b);
    }

    pub fn with_spp(self, b: bool) -> (r: Self)
        ensures
            r.0 == with_flag(self.0, 8, b),
    {
        XstatusIn(set_flag(self.0, 8, b))
    }

    #[verifier::allow_in_spec]
    pub fn vs(&self) -> u8
        returns
            field(self.0, 9, 2) as u8,
    {
        get_field(self.0, 9, 2) as u8
    }

    pub fn set_vs(&mut self, v: u8)
        ensures
            final(self).0 == with_field(old(self).0, 9, 2, v as u64),
    {
        self.0 = set_field(self.0, 9, 2, v as u64);
    }

    pub fn with_vs(self, v: u8) -> (r: Self)
        ensures
            r.0 == with_field(self.0, 9, 2, v as u64),
    {
        XstatusIn(set_field(self.0, 9, 2, v as u64))
    }

    #[verifier::allow_in_spec]
    pub fn mpp(&self) -> u8
        returns
            field(self.0, 11, 2) as u8,
    {
        get_field(self.0, 11, 2) as u8
    }

    pub fn set_mpp(&mut self, v: u8)
        ensures
            final(self).0 == with_field(old(self).0, 11, 2, v as u64),
    {
        self.0 = set_field(self.0, 11, 2, v as u64);
    }

    pub fn with_mpp(self, v: u8) -> (r: Self)
        ensures
            r.0 == with_field(self.0, 11, 2, v as u64),
    {
        XstatusIn(set_field(self.0, 11, 2, v as u64))
    }

    #[verifier::allow_in_spec]
    pub fn fs(&self) -> u8
        returns
            field(self.0, 13, 2) as u8,
    {
        get_field(self.0, 13, 2) as u8
    }

    pub fn set_fs(&mut self, v: u8)
        ensures
            final(self).0 == with_field(old(self).0, 13, 2, v as u64),
    {
        self.0 = set_field(self.0, 13, 2, v as u64);
    }

    pub fn with_fs(self, v: u8) -> (r: Self)
        ensures
            r.0 == with_field(self.0, 13, 2, v as u64),
    {
        XstatusIn(set_field(self.0, 13, 2, v as u64))
    }

    #[verifier::allow_in_spec]
    pub fn xs(&self) -> u8
        returns
            field(self.0, 15, 2) as u8,
    {
        get_field(self.0, 15, 2) as u8
    }

    pub fn set_xs(&mut self, v: u8)
        ensures
            final(self).0 == with_field(old(self).0, 15, 2, v as u64),
    {
        self.0 = set_field(self.0, 15, 2, v as u64);
    }

    pub fn with_xs(self, v: u8) -> (r: Self)
        ensures
            r.0 == with_field(self.0, 15, 2, v as u64),
    {
        XstatusIn(set_field(self.0, 15, 2, v as u64))
    }

    #[verifier::allow_in_spec]
    pub fn mprv(&self) -> bool
        returns
            flag(self.0, 17),
    {
        get_flag(self.0, 17)
    }

    pub fn set_mprv(&mut self, b: bool)
        ensures
            final(self).0 == with_flag(old(self).0, 17, b),
    {
        self.0 = set_flag(self.0, 17, b);
    }

    #[verifier::allow_in_spec]
    pub fn sum(&self) -> bool
        returns
            flag(self.0, 18),
    {
        get_flag(self.0, 18)
    }

    pub fn set_sum(&mut self, b: bool)
        ensures
            final(self).0 == with_flag(old(self).0, 18, b),
    {
        self.0 = set_flag(self.0, 18, b);
    }

    pub fn with_sum(self, b: bool) -> (r: Self)
        ensures
            r.0 == with_flag(self.0, 18, b),
    {
        XstatusIn(set_flag(self.0, 18, b))
    }

    #[verifier::allow_in_spec]
    pub fn mxr(&self) -> bool
        returns
            flag(self.0, 19),
    {
        get_flag(self.0, 19)
    }

    pub fn set_mxr(&mut self, b: bool)
        ensures
            final(self).0 == with_flag(old(self).0, 19, b),
    {
        self.0 = set_flag(self.0, 19, b);
    }

    pub fn with_mxr(self, b: bool) -> (r: Self)
        ensures
            r.0 == with_flag(self.0, 19, b),
    {
        XstatusIn(set_flag(self.0, 19, b))
    }

    #[verifier::allow_in_spec]
    pub fn tvm(&self) -> bool
        returns
            flag(self.0, 20),
    {
        get_flag(self.0, 20)
    }

    pub fn set_tvm(&mut self, b: bool)
        ensures
            final(self).0 == with_flag(old(self).0, 20, b),
    {
        self.0 = set_flag(self.0, 20, b);
    }

    #[verifier::allow_in_spec]
    pub fn tw(&self) -> bool
        returns
            flag(self.0, 21),
    {
        get_flag(self.0, 21)
    }

    pub fn set_tw(&mut self, b: bool)
        ensures
            final(self).0 == with_flag(old(self).0, 21, b),
    {
        self.0 = set_flag(self.0, 21, b);
    }

    #[verifier::allow_in_spec]
    pub fn tsr(&self) -> bool
        returns
            flag(self.0, 22),
    {
        get_flag(self.0, 22)
    }

    pub fn set_tsr(&mut self, b: bool)
        ensures
            final(self).0 == with_flag(old(self).0, 22, b),
    {
        self.0 = set_flag(self.0, 22, b);
    }

    #[verifier::allow_in_spec]
    pub fn uxl(&self) -> u8
        returns
            field(self.0, 32, 2) as u8,
    {
        get_field(self.0, 32, 2) as u8
    }

    pub fn set_uxl(&mut self, v: u8)
        ensures
            final(self).0 == with_field(old(self).0, 32, 2, v as u64),
    {
        self.0 = set_field(self.0, 32, 2, v as u64);
    }

    pub fn with_uxl(self, v: u8) -> (r: Self)
        ensures
            r.0 == with_field(self.0, 32, 2, v as u64),
    {
        XstatusIn(set_field(self.0, 32, 2, v as u64))
    }

    #[verifier::allow_in_spec]
    pub fn sxl(&self) -> u8
        returns
            field(self.0, 34, 2) as u8,
    {
        get_field(self.0, 34, 2) as u8
    }

    pub fn set_sxl(&mut self, v: u8)
        ensures
            final(self).0 == with_field(old(self).0, 34, 2, v as u64),
    {
        self.0 = set_field(self.0, 34, 2, v as u64);
    }

    pub fn with_sxl(self, v: u8) -> (r: Self)
        ensures
            r.0 == with_field(self.0, 34, 2, v as u64),
    {
        XstatusIn(set_field(self.0, 34, 2, v as u64))
    }

    #[verifier::allow_in_spec]
    pub fn sbe(&self) -> bool
        returns
            flag(self.0, 36),
    {
        get_flag(self.0, 36)
    }

    pub fn set_sbe(&mut self, b: bool)
        ensures
            final(self).0 == with_flag(old(self).0, 36, b),
    {
        self.0 = set_flag(self.0, 36, b);
    }

    #[verifier::allow_in_spec]
    pub fn mbe(&self) -> bool
        returns
            flag(self.0, 37),
    {
        get_flag(self.0, 37)
    }

    pub fn set_mbe(&mut self, b: bool)
        ensures
            final(self).0 == with_flag(old(self).0, 37, b),
    {
        self.0 = set_flag(self.0, 37, b);
    }

    #[verifier::allow_in_spec]
    pub fn sd(&self) -> bool
        returns
            flag(self.0, 63),
    {
        get_flag(self.0, 63)
    }

    pub fn set_sd(&mut self, b: bool)
        ensures
            final(self).0 == with_flag(old(self).0, 63, b),
    {
        self.0 = set_flag(self.0, 63, b);
    }

    pub fn with_sd(self, b: bool) -> (r: Self)
        ensures
            r.0 == with_flag(self.0, 63, b),
    {
        XstatusIn(set_flag(self.0, 63, b))
    }

}

/// The `mtvec`/`stvec` registers: trap vector base and mode.
#[derive(Clone, Copy, PartialEq, Eq, Debug, Structural)]
pub struct XtvecIn(pub u64);

impl XtvecIn {
    pub fn new() -> (r: Self)
        ensures
            r.0 == 0,
    {
        XtvecIn(0)
    }

    #[verifier::allow_in_spec]
    pub fn mode_bits(&self) -> u8
        returns
            field(self.0, 0, 2) as u8,
    {
        get_field(self.0, 0, 2) as u8
    }

    pub fn set_mode_bits(&mut self, v: u8)
        ensures
            final(self).0 == with_field(old(self).0, 0, 2, v as u64),
    {
        self.0 = set_field(self.0, 0, 2, v as u64);
    }

    #[verifier::allow_in_spec]
    pub fn base(&self) -> u64
        returns
            field(self.0, 2, 62),
    {
        get_field(self.0, 2, 62)
    }

    pub fn set_base(&mut self, v: u64)
        ensures
            final(self).0 == with_field(old(self).0, 2, 62, v as u64),
    {
        self.0 = set_field(self.0, 2, 62, v as u64);
    }

}

/// The `mie`/`sie` interrupt-enable bits.
#[derive(Clone, Copy, PartialEq, Eq, Debug, Structural)]
pub struct XieIn(pub u64);

impl XieIn {
    pub fn new() -> (r: Self)
        ensures
            r.0 == 0,
    {
        XieIn(0)
    }

    #[verifier::allow_in_spec]
    pub fn ssie(&self) -> bool
        returns
            flag(self.0, 1),
    {
        get_flag(self.0, 1)
    }

    pub fn set_ssie(&mut self, b: bool)
        ensures
            final(self).0 == with_flag(old(self).0, 1, b),
    {
        self.0 = set_flag(self.0, 1, b);
    }

    pub fn with_ssie(self, b: bool) -> (r: Self)
        ensures
            r.0 == with_flag(self.0, 1, b),
    {
        XieIn(set_flag(self.0, 1, b))
    }

    #[verifier::allow_in_spec]
    pub fn msie(&self) -> bool
        returns
            flag(self.0, 3),
    {
        get_flag(self.0, 3)
    }

    pub fn set_msie(&mut self, b: bool)
        ensures
            final(self).0 == with_flag(old(self).0, 3, b),
    {
        self.0 = set_flag(self.0, 3, b);
    }

    pub fn with_msie(self, b: bool) -> (r: Self)
        ensures
            r.0 == with_flag(self.0, 3, b),
    {
        XieIn(set_flag(self.0, 3, b))
    }

    #[verifier::allow_in_spec]
    pub fn stie(&self) -> bool
        returns
            flag(self.0, 5),
    {
        get_flag(self.0, 5)
    }

    pub fn set_stie(&mut self, b: bool)
        ensures
            final(self).0 == with_flag(old(self).0, 5, b),
    {
        self.0 = set_flag(self.0, 5, b);
    }

    pub fn with_stie(self, b: bool) -> (r: Self)
        ensures
            r.0 == with_flag(self.0, 5, b),
    {
        XieIn(set_flag(self.0, 5, b))
    }

    #[verifier::allow_in_spec]
    pub fn mtie(&self) -> bool
        returns
            flag(self.0, 7),
    {
        get_flag(self.0, 7)
    }

    pub fn set_mtie(&mut self, b: bool)
        ensures
            final(self).0 == with_flag(old(self).0, 7, b),
    {
        self.0 = set_flag(self.0, 7, b);
    }

    pub fn with_mtie(self, b: bool) -> (r: Self)
        ensures
            r.0 == with_flag(self.0, 7, b),
    {
        XieIn(set_flag(self.0, 7, b))
    }

    #[verifier::allow_in_spec]
    pub fn seie(&self) -> bool
        returns
            flag(self.0, 9),
    {
        get_flag(self.0, 9)
    }

    pub fn set_seie(&mut self, b: bool)
        ensures
            final(self).0 == with_flag(old(self).0, 9, b),
    {
        self.0 = set_flag(self.0, 9, b);
    }

    pub fn with_seie(self, b: bool) -> (r: Self)
        ensures
            r.0 == with_flag(self.0, 9, b),
    {
        XieIn(set_flag(self.0, 9, b))
    }

    #[verifier::allow_in_spec]
    pub fn meie(&self) -> bool
        returns
            flag(self.0, 11),
    {
        get_flag(self.0, 11)
    }

    pub fn set_meie(&mut self, b: bool)
        ensures
            final(self).0 == with_flag(old(self).0, 11, b),
    {
        self.0 = set_flag(self.0, 11, b);
    }

    pub fn with_meie(self, b: bool) -> (r: Self)
        ensures
            r.0 == with_flag(self.0, 11, b),
    {
        XieIn(set_flag(self.0, 11, b))
    }

}

/// The `mip`/`sip` interrupt-pending bits.
#[derive(Clone, Copy, PartialEq, Eq, Debug, Structural)]
pub struct XipIn(pub u64);

impl XipIn {
    pub fn new() -> (r: Self)
        ensures
            r.0 == 0,
    {
        XipIn(0)
    }

    #[verifier::allow_in_spec]
    pub fn ssip(&self) -> bool
        returns
            flag(self.0, 1),
    {
        get_flag(self.0, 1)
    }

    pub fn set_ssip(&mut self, b: bool)
        ensures
            final(self).0 == with_flag(old(self).0, 1, b),
    {
        self.0 = set_flag(self.0, 1, b);
    }

    pub fn with_ssip(self, b: bool) -> (r: Self)
        ensures
            r.0 == with_flag(self.0, 1, b),
    {
        XipIn(set_flag(self.0, 1, b))
    }

    #[verifier::allow_in_spec]
    pub fn msip(&self) -> bool
        returns
            flag(self.0, 3),
    {
        get_flag(self.0, 3)
    }

    pub fn set_msip(&mut self, b: bool)
        ensures
            final(self).0 == with_flag(old(self).0, 3, b),
    {
        self.0 = set_flag(self.0, 3, b);
    }

    pub fn with_msip(self, b: bool) -> (r: Self)
        ensures
            r.0 == with_flag(self.0, 3, b),
    {
        XipIn(set_flag(self.0, 3, b))
    }

    #[verifier::allow_in_spec]
    pub fn stip(&self) -> bool
        returns
            flag(self.0, 5),
    {
        get_flag(self.0, 5)
    }

    pub fn set_stip(&mut self, b: bool)
        ensures
            final(self).0 == with_flag(old(self).0, 5, b),
    {
        self.0 = set_flag(self.0, 5, b);
    }

    pub fn with_stip(self, b: bool) -> (r: Self)
        ensures
            r.0 == with_flag(self.0, 5, b),
    {
        XipIn(set_flag(self.0, 5, b))
    }

    #[verifier::allow_in_spec]
    pub fn mtip(&self) -> bool
        returns
            flag(self.0, 7),
    {
        get_flag(self.0, 7)
    }

    pub fn set_mtip(&mut self, b: bool)
        ensures
            final(self).0 == with_flag(old(self).0, 7, b),
    {
        self.0 = set_flag(self.0, 7, b);
    }

    pub fn with_mtip(self, b: bool) -> (r: Self)
        ensures
            r.0 == with_flag(self.0, 7, b),
    {
        XipIn(set_flag(self.0, 7, b))
    }

    #[verifier::allow_in_spec]
    pub fn seip(&self) -> bool
        returns
            flag(self.0, 9),
    {
        get_flag(self.0, 9)
    }

    pub fn set_seip(&mut self, b: bool)
        ensures
            final(self).0 == with_flag(old(self).0, 9, b),
    {
        self.0 = set_flag(self.0, 9, b);
    }

    pub fn with_seip(self, b: bool) -> (r: Self)
        ensures
            r.0 == with_flag(self.0, 9, b),
    {
        XipIn(set_flag(self.0, 9, b))
    }

    #[verifier::allow_in_spec]
    pub fn meip(&self) -> bool
        returns
            flag(self.0, 11),
    {
        get_flag(self.0, 11)
    }

    pub fn set_meip(&mut self, b: bool)
        ensures
            final(self).0 == with_flag(old(self).0, 11, b),
    {
        self.0 = set_flag(self.0, 11, b);
    }

    pub fn with_meip(self, b: bool) -> (r: Self)
        ensures
            r.0 == with_flag(self.0, 11, b),
    {
        XipIn(set_flag(self.0, 11, b))
    }

}

/// The `mcause`/`scause` registers.
#[derive(Clone, Copy, PartialEq, Eq, Debug, Structural)]
pub struct XcauseIn(pub u64);

impl XcauseIn {
    pub fn new() -> (r: Self)
        ensures
            r.0 == 0,
    {
        XcauseIn(0)
    }

    #[verifier::allow_in_spec]
    pub fn exception_code(&self) -> u64
        returns
            field(self.0, 0, 63),
    {
        get_field(self.0, 0, 63)
    }

    pub fn set_exception_code(&mut self, v: u64)
        ensures
            final(self).0 == with_field(old(self).0, 0, 63, v as u64),
    {
        self.0 = set_field(self.0, 0, 63, v as u64);
    }

    #[verifier::allow_in_spec]
    pub fn interrupt(&self) -> bool
        returns
            flag(self.0, 63),
    {
        get_flag(self.0, 63)
    }

    pub fn set_interrupt(&mut self, b: bool)
        ensures
            final(self).0 == with_flag(old(self).0, 63, b),
    {
        self.0 = set_flag(self.0, 63, b);
    }

}

/// The `medeleg` register: exceptions delegated to S-mode.
#[derive(Clone, Copy, PartialEq, Eq, Debug, Structural)]
pub struct MedelegIn(pub u64);

impl MedelegIn {
    pub fn new() -> (r: Self)
        ensures
            r.0 == 0,
    {
        MedelegIn(0)
    }

    #[verifier::allow_in_spec]
    pub fn inst_addr_misalign(&self) -> bool
        returns
            flag(self.0, 0),
    {
        get_flag(self.0, 0)
    }

    pub fn set_inst_addr_misalign(&mut self, b: bool)
        ensures
            final(self).0 == with_flag(old(self).0, 0, b),
    {
        self.0 = set_flag(self.0, 0, b);
    }

    #[verifier::allow_in_spec]
    pub fn inst_access_fault(&self) -> bool
        returns
            flag(self.0, 1),
    {
        get_flag(self.0, 1)
    }

    pub fn set_inst_access_fault(&mut self, b: bool)
        ensures
            final(self).0 == with_flag(old(self).0, 1, b),
    {
        self.0 = set_flag(self.0, 1, b);
    }

    #[verifier::allow_in_spec]
    pub fn illegal_inst(&self) -> bool
        returns
            flag(self.0, 2),
    {
        get_flag(self.0, 2)
    }

    pub fn set_illegal_inst(&mut self, b: bool)
        ensures
            final(self).0 == with_flag(old(self).0, 2, b),
    {
        self.0 = set_flag(self.0, 2, b);
    }

    #[verifier::allow_in_spec]
    pub fn breakpoint(&self) -> bool
        returns
            flag(self.0, 3),
    {
        get_flag(self.0, 3)
    }

    pub fn set_breakpoint(&mut self, b: bool)
        ensures
            final(self).0 == with_flag(old(self).0, 3, b),
    {
        self.0 = set_flag(self.0, 3, b);
    }

    #[verifier::allow_in_spec]
    pub fn load_addr_misalign(&self) -> bool
        returns
            flag(self.0, 4),
    {
        get_flag(self.0, 4)
    }

    pub fn set_load_addr_misalign(&mut self, b: bool)
        ensures
            final(self).0 == with_flag(old(self).0, 4, b),
    {
        self.0 = set_flag(self.0, 4, b);
    }

    #[verifier::allow_in_spec]
    pub fn load_access_fault(&self) -> bool
        returns
            flag(self.0, 5),
    {
        get_flag(self.0, 5)
    }

    pub fn set_load_access_fault(&mut self, b: bool)
        ensures
            final(self).0 == with_flag(old(self).0, 5, b),
    {
        self.0 = set_flag(self.0, 5, b);
    }

    #[verifier::allow_in_spec]
    pub fn store_addr_misalign(&self) -> bool
        returns
            flag(self.0, 6),
    {
        get_flag(self.0, 6)
    }

    pub fn set_store_addr_misalign(&mut self, b: bool)
        ensures
            final(self).0 == with_flag(old(self).0, 6, b),
    {
        self.0 = set_flag(self.0, 6, b);
    }

    #[verifier::allow_in_spec]
    pub fn store_access_fault(&self) -> bool
        returns
            flag(self.0, 7),
    {
        get_flag(self.0, 7)
    }

    pub fn set_store_access_fault(&mut self, b: bool)
        ensures
            final(self).0 == with_flag(old(self).0, 7, b),
    {
        self.0 = set_flag(self.0, 7, b);
    }

    #[verifier::allow_in_spec]
    pub fn ecall_from_u(&self) -> bool
        returns
            flag(self.0, 8),
    {
        get_flag(self.0, 8)
    }

    pub fn set_ecall_from_u(&mut self, b: bool)
        ensures
            final(self).0 == with_flag(old(self).0, 8, b),
    {
        self.0 = set_flag(self.0, 8, b);
    }

    #[verifier::allow_in_spec]
    pub fn ecall_from_s(&self) -> bool
        returns
            flag(self.0, 9),
    {
        get_flag(self.0, 9)
    }

    pub fn set_ecall_from_s(&mut self, b: bool)
        ensures
            final(self).0 == with_flag(old(self).0, 9, b),
    {
        self.0 = set_flag(self.0, 9, b);
    }

    #[verifier::allow_in_spec]
    pub fn ecall_from_m(&self) -> bool
        returns
            flag(self.0, 11),
    {
        get_flag(self.0, 11)
    }

    pub fn set_ecall_from_m(&mut self, b: bool)
        ensures
            final(self).0 == with_flag(old(self).0, 11, b),
    {
        self.0 = set_flag(self.0, 11, b);
    }

    #[verifier::allow_in_spec]
    pub fn inst_page_fault(&self) -> bool
        returns
            flag(self.0, 12),
    {
        get_flag(self.0, 12)
    }

    pub fn set_inst_page_fault(&mut self, b: bool)
        ensures
            final(self).0 == with_flag(old(self).0, 12, b),
    {
        self.0 = set_flag(self.0, 12, b);
    }

    #[verifier::allow_in_spec]
    pub fn load_page_fault(&self) -> bool
        returns
            flag(self.0, 13),
    {
        get_flag(self.0, 13)
    }

    pub fn set_load_page_fault(&mut self, b: bool)
        ensures
            final(self).0 == with_flag(old(self).0, 13, b),
    {
        self.0 = set_flag(self.0, 13, b);
    }

    #[verifier::allow_in_spec]
    pub fn store_page_fault(&self) -> bool
        returns
            flag(self.0, 15),
    {
        get_flag(self.0, 15)
    }

    pub fn set_store_page_fault(&mut self, b: bool)
        ensures
            final(self).0 == with_flag(old(self).0, 15, b),
    {
        self.0 = set_flag(self.0, 15, b);
    }

}

/// The `mcounteren` register.
#[derive(Clone, Copy, PartialEq, Eq, Debug, Structural)]
pub struct Mcounteren(pub u64);

impl Mcounteren {
    pub fn new() -> (r: Self)
        ensures
            r.0 == 0,
    {
        Mcounteren(0)
    }

    #[verifier::allow_in_spec]
    pub fn cy(&self) -> bool
        returns
            flag(self.0, 0),
    {
        get_flag(self.0, 0)
    }

    pub fn set_cy(&mut self, b: bool)
        ensures
            final(self).0 == with_flag(old(self).0, 0, b),
    {
        self.0 = set_flag(self.0, 0, b);
    }

    #[verifier::allow_in_spec]
    pub fn tm(&self) -> bool
        returns
            flag(self.0, 1),
    {
        get_flag(self.0, 1)
    }

    pub fn set_tm(&mut self, b: bool)
        ensures
            final(self).0 == with_flag(old(self).0, 1, b),
    {
        self.0 = set_flag(self.0, 1, b);
    }

    #[verifier::allow_in_spec]
    pub fn ir(&self) -> bool
        returns
            flag(self.0, 2),
    {
        get_flag(self.0, 2)
    }

    pub fn set_ir(&mut self, b: bool)
        ensures
            final(self).0 == with_flag(old(self).0, 2, b),
    {
        self.0 = set_flag(self.0, 2, b);
    }

    #[verifier::allow_in_spec]
    pub fn hmp3_31(&self) -> u32
        returns
            field(self.0, 3, 29) as u32,
    {
        get_field(self.0, 3, 29) as u32
    }

    pub fn set_hmp3_31(&mut self, v: u32)
        ensures
            final(self).0 == with_field(old(self).0, 3, 29, v as u64),
    {
        self.0 = set_field(self.0, 3, 29, v as u64);
    }

}

/// The `menvcfg` register.
#[derive(Clone, Copy, PartialEq, Eq, Debug, Structural)]
pub struct Menvcfg(pub u64);

impl Menvcfg {
    pub fn new() -> (r: Self)
        ensures
            r.0 == 0,
    {
        Menvcfg(0)
    }

    #[verifier::allow_in_spec]
    pub fn fiom(&self) -> bool
        returns
            flag(self.0, 0),
    {
        get_flag(self.0, 0)
    }

    pub fn set_fiom(&mut self, b: bool)
        ensures
            final(self).0 == with_flag(old(self).0, 0, b),
    {
        self.0 = set_flag(self.0, 0, b);
    }

    #[verifier::allow_in_spec]
    pub fn cbie(&self) -> u8
        returns
            field(self.0, 4, 2) as u8,
    {
        get_field(self.0, 4, 2) as u8
    }

    pub fn set_cbie(&mut self, v: u8)
        ensures
            final(self).0 == with_field(old(self).0, 4, 2, v as u64),
    {
        self.0 = set_field(self.0, 4, 2, v as u64);
    }

    #[verifier::allow_in_spec]
    pub fn cbcfe(&self) -> bool
        returns
            flag(self.0, 6),
    {
        get_flag(self.0, 6)
    }

    pub fn set_cbcfe(&mut self, b: bool)
        ensures
            final(self).0 == with_flag(old(self).0, 6, b),
    {
        self.0 = set_flag(self.0, 6, b);
    }

    #[verifier::allow_in_spec]
    pub fn cbze(&self) -> bool
        returns
            flag(self.0, 7),
    {
        get_flag(self.0, 7)
    }

    pub fn set_cbze(&mut self, b: bool)
        ensures
            final(self).0 == with_flag(old(self).0, 7, b),
    {
        self.0 = set_flag(self.0, 7, b);
    }

    #[verifier::allow_in_spec]
    pub fn pbmte(&self) -> bool
        returns
            flag(self.0, 62),
    {
        get_flag(self.0, 62)
    }

    pub fn set_pbmte(&mut self, b: bool)
        ensures
            final(self).0 == with_flag(old(self).0, 62, b),
    {
        self.0 = set_flag(self.0, 62, b);
    }

    #[verifier::allow_in_spec]
    pub fn stce(&self) -> bool
        returns
            flag(self.0, 63),
    {
        get_flag(self.0, 63)
    }

    pub fn set_stce(&mut self, b: bool)
        ensures
            final(self).0 == with_flag(old(self).0, 63, b),
    {
        self.0 = set_flag(self.0, 63, b);
    }

}

/// The `mseccfg` register.
#[derive(Clone, Copy, PartialEq, Eq, Debug, Structural)]
pub struct Mseccfg(pub u64);

impl Mseccfg {
    pub fn new() -> (r: Self)
        ensures
            r.0 == 0,
    {
        Mseccfg(0)
    }

    #[verifier::allow_in_spec]
    pub fn mml(&self) -> bool
        returns
            flag(self.0, 0),
    {
        get_flag(self.0, 0)
    }

    pub fn set_mml(&mut self, b: bool)
        ensures
            final(self).0 == with_flag(old(self).0, 0, b),
    {
        self.0 = set_flag(self.0, 0, b);
    }

    #[verifier::allow_in_spec]
    pub fn mmwp(&self) -> bool
        returns
            flag(self.0, 1),
    {
        get_flag(self.0, 1)
    }

    pub fn set_mmwp(&mut self, b: bool)
        ensures
            final(self).0 == with_flag(old(self).0, 1, b),
    {
        self.0 = set_flag(self.0, 1, b);
    }

    #[verifier::allow_in_spec]
    pub fn rlb(&self) -> bool
        returns
            flag(self.0, 2),
    {
        get_flag(self.0, 2)
    }

    pub fn set_rlb(&mut self, b: bool)
        ensures
            final(self).0 == with_flag(old(self).0, 2, b),
    {
        self.0 = set_flag(self.0, 2, b);
    }

    #[verifier::allow_in_spec]
    pub fn useed(&self) -> bool
        returns
            flag(self.0, 8),
    {
        get_flag(self.0, 8)
    }

    pub fn set_useed(&mut self, b: bool)
        ensures
            final(self).0 == with_flag(old(self).0, 8, b),
    {
        self.0 = set_flag(self.0, 8, b);
    }

    #[verifier::allow_in_spec]
    pub fn sseed(&self) -> bool
        returns
            flag(self.0, 9),
    {
        get_flag(self.0, 9)
    }

    pub fn set_sseed(&mut self, b: bool)
        ensures
            final(self).0 == with_flag(old(self).0, 9, b),
    {
        self.0 = set_flag(self.0, 9, b);
    }

}

/// One PMP entry configuration byte.
#[derive(Clone, Copy, PartialEq, Eq, Debug, Structural)]
pub struct PMPcfgIn(pub u8);

impl PMPcfgIn {
    pub fn new() -> (r: Self)
        ensures
            r.0 == 0,
    {
        PMPcfgIn(0)
    }

    #[verifier::allow_in_spec]
    pub fn r(&self) -> bool
        returns
            flag(self.0 as u64, 0),
    {
        get_flag(self.0 as u64, 0)
    }

    pub fn set_r(&mut self, b: bool)
        ensures
            final(self).0 as u64 == with_flag(old(self).0 as u64, 0, b),
    {
        self.0 = set_flag8(self.0, 0, b);
    }

    #[verifier::allow_in_spec]
    pub fn w(&self) -> bool
        returns
            flag(self.0 as u64, 1),
    {
        get_flag(self.0 as u64, 1)
    }

    pub fn set_w(&mut self, b: bool)
        ensures
            final(self).0 as u64 == with_flag(old(self).0 as u64, 1, b),
    {
        self.0 = set_flag8(self.0, 1, b);
    }

    #[verifier::allow_in_spec]
    pub fn x(&self) -> bool
        returns
            flag(self.0 as u64, 2),
    {
        get_flag(self.0 as u64, 2)
    }

    pub fn set_x(&mut self, b: bool)
        ensures
            final(self).0 as u64 == with_flag(old(self).0 as u64, 2, b),
    {
        self.0 = set_flag8(self.0, 2, b);
    }

    #[verifier::allow_in_spec]
    pub fn a(&self) -> u8
        returns
            field(self.0 as u64, 3, 2) as u8,
    {
        get_field(self.0 as u64, 3, 2) as u8
    }

    pub fn set_a(&mut self, v: u8)
        ensures
            final(self).0 as u64 == with_field(old(self).0 as u64, 3, 2, v as u64),
    {
        self.0 = set_field8(self.0, 3, 2, v as u64);
    }

    #[verifier::allow_in_spec]
    pub fn l(&self) -> bool
        returns
            flag(self.0 as u64, 7),
    {
        get_flag(self.0 as u64, 7)
    }

    pub fn set_l(&mut self, b: bool)
        ensures
            final(self).0 as u64 == with_flag(old(self).0 as u64, 7, b),
    {
        self.0 = set_flag8(self.0, 7, b);
    }

}

/// A `pmpaddr` register.
#[derive(Clone, Copy, PartialEq, Eq, Debug, Structural)]
pub struct PMPaddr(pub u64);

impl PMPaddr {
    pub fn new() -> (r: Self)
        ensures
            r.0 == 0,
    {
        PMPaddr(0)
    }

    #[verifier::allow_in_spec]
    pub fn address_55_2(&self) -> u64
        returns
            field(self.0, 0, 54),
    {
        get_field(self.0, 0, 54)
    }

    pub fn set_address_55_2(&mut self, v: u64)
        ensures
            final(self).0 == with_field(old(self).0, 0, 54, v as u64),
    {
        self.0 = set_field(self.0, 0, 54, v as u64);
    }

}

/// The `satp` register: root page table, address space and translation mode.
#[derive(Clone, Copy, PartialEq, Eq, Debug, Structural)]
pub struct SatpIn(pub u64);

impl SatpIn {
    pub fn new() -> (r: Self)
        ensures
            r.0 == 0,
    {
        SatpIn(0)
    }

    #[verifier::allow_in_spec]
    pub fn ppn(&self) -> u64
        returns
            field(self.0, 0, 44),
    {
        get_field(self.0, 0, 44)
    }

    pub fn set_ppn(&mut self, v: u64)
        ensures
            final(self).0 == with_field(old(self).0, 0, 44, v as u64),
    {
        self.0 = set_field(self.0, 0, 44, v as u64);
    }

    #[verifier::allow_in_spec]
    pub fn asid(&self) -> u64
        returns
            field(self.0, 44, 16),
    {
        get_field(self.0, 44, 16)
    }

    pub fn set_asid(&mut self, v: u64)
        ensures
            final(self).0 == with_field(old(self).0, 44, 16, v as u64),
    {
        self.0 = set_field(self.0, 44, 16, v as u64);
    }

    #[verifier::allow_in_spec]
    pub fn mode_bits(&self) -> u8
        returns
            field(self.0, 60, 4) as u8,
    {
        get_field(self.0, 60, 4) as u8
    }

    pub fn set_mode_bits(&mut self, v: u8)
        ensures
            final(self).0 == with_field(old(self).0, 60, 4, v as u64),
    {
        self.0 = set_field(self.0, 60, 4, v as u64);
    }

}


impl CsrAddr {
    /// Whether `privi` may make an access of kind `access_type` to this CSR.
    pub fn check_privilege(&self, privi: PrivilegeLevels, access_type: AccessType) -> (r: bool)
        ensures
            r == csr_addr_permits(self.0 as u64, privi, access_type),
    {
        let has_privilege = privi.level() >= self.privilege();
        match access_type {
            AccessType::Store(_) => self.not_read_only() && has_privilege,
            _ => has_privilege,
        }
    }

    fn not_read_only(&self) -> (r: bool)
        ensures
            r == (field(self.0 as u64, 10, 2) != 3),
    {
        self.read_write() != 3
    }
}

impl XstatusIn {
    /// The privilege a trap into S-mode came from: `SPP` is set for S-mode, clear for U-mode.
    pub fn get_spp_priv(&self) -> (r: PrivilegeLevels)
        ensures
            r == (if flag(self.0, 8) { PrivilegeLevels::Supervisor } else { PrivilegeLevels::User }),
    {
        if self.spp() {
            PrivilegeLevels::Supervisor
        } else {
            PrivilegeLevels::User
        }
    }

    /// The privilege a trap into M-mode came from, as `MPP` encodes it
    /// (the hypervisor encoding is not supported).
    pub fn get_mpp_priv(&self) -> (r: PrivilegeLevels)
        requires
            field(self.0, 11, 2) != 2,
        ensures
            priv_level(r) == field(self.0, 11, 2),
    {
        let mpp = self.mpp();
        if mpp == 0 {
            PrivilegeLevels::User
        } else if mpp == 1 {
            PrivilegeLevels::Supervisor
        } else {
            PrivilegeLevels::Machine
        }
    }
}

/// The `MODE` field of `xtvec`.
#[derive(Clone, Copy, PartialEq, Eq, Debug, Structural)]
pub enum TvecMode {
    Direct,
    Vectored,
    Reserved,
}

/// The trap vector mode encoded by `v`.
pub open spec fn tvec_mode_of(v: u64) -> TvecMode {
    if v == 0 {
        TvecMode::Direct
    } else if v == 1 {
        TvecMode::Vectored
    } else {
        TvecMode::Reserved
    }
}

impl TvecMode {
    pub fn from_u64(val: u64) -> (r: Self)
        ensures
            r == tvec_mode_of(val),
    {
        if val == 0 {
            TvecMode::Direct
        } else if val == 1 {
            TvecMode::Vectored
        } else {
            TvecMode::Reserved
        }
    }

    /// The encoding of a defined mode.
    pub fn to_u64(&self) -> (r: u64)
        requires
            *self != TvecMode::Reserved,
        ensures
            tvec_mode_of(r) == *self,
    {
        match self {
            TvecMode::Direct => 0,
            _ => 1,
        }
    }
}

/// The trap vector base held by `xtvec` value `v`.
pub open spec fn tvec_base(v: u64) -> u64 {
    (field(v, 2, 62) << 2u64) as u64
}

/// The pc a trap of kind `trap` enters at, by `xtvec` value `v`: the base,
/// plus four times the interrupt number for an interrupt in vectored mode.
pub open spec fn trap_pc(v: u64, trap: TrapType) -> int {
    if field(v, 0, 2) == 1 && is_interrupt_trap(trap) {
        tvec_base(v) + 4 * trap_code(trap)
    } else {
        tvec_base(v) as int
    }
}

impl XtvecIn {
    pub fn mode(&self) -> (r: TvecMode)
        ensures
            r == tvec_mode_of(field(self.0, 0, 2)),
    {
        TvecMode::from_u64(self.mode_bits() as u64)
    }

    /// The pc a trap enters at. The reserved modes are not supported.
    pub fn get_trap_pc(&self, trap: TrapType) -> (r: u64)
        requires
            field(self.0, 0, 2) < 2,
            trap_pc(self.0, trap) <= u64::MAX,
        ensures
            r == trap_pc(self.0, trap),
    {
        let base = self.base() << 2;
        match self.mode() {
            TvecMode::Vectored => {
                if trap.is_interupt() {
                    base + 4 * trap.get_irq_num()
                } else {
                    base
                }
            },
            _ => base,
        }
    }

    /// The bits of `xtvec` a write of `val` may change: all of them when
    /// `val` names a reserved mode, all but the mode bits otherwise.
    pub fn get_write_mask(val: u64) -> (r: u64)
        ensures
            r == (if field(val, 0, 2) >= 2 { 0xFFFF_FFFF_FFFF_FFFFu64 } else { 0xFFFF_FFFF_FFFF_FFFCu64 }),
    {
        let tvec = XtvecIn(val);
        if tvec.mode() == TvecMode::Reserved {
            0xFFFF_FFFF_FFFF_FFFF
        } else {
            0xFFFF_FFFF_FFFF_FFFC
        }
    }
}

/// Some interrupt is pending in `mip` value `v`.
pub open spec fn some_interrupt_pending(v: u64) -> bool {
    flag(v, 11) || flag(v, 3) || flag(v, 7) || flag(v, 9) || flag(v, 1) || flag(v, 5)
}

/// The pending interrupt taken first: MEI, MSI, MTI, SEI, SSI, STI in that order.
pub open spec fn priority_interrupt(v: u64) -> TrapType {
    if flag(v, 11) {
        TrapType::MachineExternalInterrupt
    } else if flag(v, 3) {
        TrapType::MachineSoftwareInterrupt
    } else if flag(v, 7) {
        TrapType::MachineTimerInterrupt
    } else if flag(v, 9) {
        TrapType::SupervisorExternalInterrupt
    } else if flag(v, 1) {
        TrapType::SupervisorSoftwareInterrupt
    } else {
        TrapType::SupervisorTimerInterrupt
    }
}

impl XipIn {
    /// The pending interrupt of highest priority; some interrupt must be pending.
    pub fn get_priority_interupt(&self) -> (r: TrapType)
        requires
            some_interrupt_pending(self.0),
        ensures
            r == priority_interrupt(self.0),
    {
        if self.meip() {
            TrapType::MachineExternalInterrupt
        } else if self.msip() {
            TrapType::MachineSoftwareInterrupt
        } else if self.mtip() {
            TrapType::MachineTimerInterrupt
        } else if self.seip() {
            TrapType::SupervisorExternalInterrupt
        } else if self.ssip() {
            TrapType::SupervisorSoftwareInterrupt
        } else {
            TrapType::SupervisorTimerInterrupt
        }
    }
}

/// Storing a privilege level (user, supervisor or machine) in `MPP` and
/// reading it back as a level gives that level: `r` is what
/// `get_mpp_priv` answers for the stored value.
pub proof fn lemma_mpp_priv_round_trip(v: u64, p: PrivilegeLevels, r: PrivilegeLevels)
    requires
        p != PrivilegeLevels::Hypervisor,
        priv_level(r) == field(with_field(v, 11, 2, priv_level(p) as u64), 11, 2),
    ensures
        r == p,
        field(with_field(v, 11, 2, priv_level(p) as u64), 11, 2) != 2,
{
    lemma_field_of_with_field(v, 11, 2, priv_level(p) as u64);
    lemma_low_mask_values();
}

/// `mcounteren` after enabling counter `idx`.
pub open spec fn hmp_enabled(v: u64, idx: u64) -> u64 {
    with_field(v, 3, 29, (field(v, 3, 29) | (1u64 << ((idx - 3) as u64))) as u64)
}

/// Enabling counter `idx` sets its bit and leaves every other bit of
/// `mcounteren` (the other counters, `cy`, `tm`, `ir` and the upper half)
/// as it was; enabling it again changes nothing.
pub proof fn lemma_set_hmp_bits(v: u64, idx: u64, j: u64)
    requires
        3 <= idx < 32,
        j < 64,
    ensures
        (hmp_enabled(v, idx) >> j) & 1 == (if j == idx { 1 } else { (v >> j) & 1 }),
        hmp_enabled(hmp_enabled(v, idx), idx) == hmp_enabled(v, idx),
{
    lemma_low_mask_values();
    let k = (idx - 3) as u64;
    let f = (v >> 3u64) & 0x1fffffffu64;
    let n = (v & !(0x1fffffffu64 << 3u64)) | (((f | (1u64 << k)) & 0x1fffffffu64) << 3u64);
    assert(hmp_enabled(v, idx) == n);
    assert((n >> j) & 1 == (if j == idx { 1 } else { (v >> j) & 1 })) by (bit_vector)
        requires
            3 <= idx < 32, j < 64, k == idx - 3, f == (v >> 3u64) & 0x1fffffffu64,
            n == (v & !(0x1fffffffu64 << 3u64)) | (((f | (1u64 << k)) & 0x1fffffffu64) << 3u64);
    let f2 = (n >> 3u64) & 0x1fffffffu64;
    let n2 = (n & !(0x1fffffffu64 << 3u64)) | (((f2 | (1u64 << k)) & 0x1fffffffu64) << 3u64);
    assert(hmp_enabled(n, idx) == n2);
    assert(n2 == n) by (bit_vector)
        requires
            k < 29, f == (v >> 3u64) & 0x1fffffffu64,
            n == (v & !(0x1fffffffu64 << 3u64)) | (((f | (1u64 << k)) & 0x1fffffffu64) << 3u64),
            f2 == (n >> 3u64) & 0x1fffffffu64,
            n2 == (n & !(0x1fffffffu64 << 3u64)) | (((f2 | (1u64 << k)) & 0x1fffffffu64) << 3u64);
}

impl Mcounteren {
    /// Whether the counter `hpmcounter{idx}` is enabled.
    pub fn hmp(&self, idx: usize) -> (r: bool)
        requires
            3 <= idx < 35,
        ensures
            r == (((field(self.0, 3, 29) as u32) >> ((idx - 3) as u32)) & 1u32 == 1u32),
    {
        let idx_offset = (idx - 3) as u32;
        ((self.hmp3_31() >> idx_offset) & 1) == 1
    }

    /// Enables the counter `hpmcounter{idx}`.
    pub fn set_hmp(&mut self, idx: usize)
        requires
            3 <= idx < 32,
        ensures
            final(self).0 == hmp_enabled(old(self).0, idx as u64),
    {
        let idx_offset = (idx - 3) as u32;
        let pre_hmp_n = self.hmp3_31();
        let next_hmp_n = pre_hmp_n | (1u32 << idx_offset);
        assert((pre_hmp_n | (1u32 << idx_offset)) as u64 == (pre_hmp_n as u64 | (1u64 << idx_offset as u64))) by (bit_vector)
            requires idx_offset < 32;
        self.set_hmp3_31(next_hmp_n);
    }
}

/// The `MODE` field of `satp`.
#[derive(Clone, Copy, PartialEq, Eq, Debug, Structural)]
pub enum StapMode {
    Bare,
    Sv39,
    Sv48,
    Sv57,
    Sv64,
}

/// The `satp` mode encodings that name a mode.
pub open spec fn stap_mode_valid(v: u64) -> bool {
    v == 0 || v == 8 || v == 9 || v == 10 || v == 11
}

/// The encoding of a `satp` mode.
pub open spec fn stap_mode_code(m: StapMode) -> u64 {
    match m {
        StapMode::Bare => 0,
        StapMode::Sv39 => 8,
        StapMode::Sv48 => 9,
        StapMode::Sv57 => 10,
        StapMode::Sv64 => 11,
    }
}

impl StapMode {
    /// The mode with encoding `value`, which must name one.
    pub fn from_u64(value: u64) -> (r: Self)
        requires
            stap_mode_valid(value),
        ensures
            stap_mode_code(r) == value,
    {
        if value == 0 {
            StapMode::Bare
        } else if value == 8 {
            StapMode::Sv39
        } else if value == 9 {
            StapMode::Sv48
        } else if value == 10 {
            StapMode::Sv57
        } else {
            StapMode::Sv64
        }
    }

    pub fn to_u64(&self) -> (r: u64)
        ensures
            r == stap_mode_code(*self),
    {
        match self {
            StapMode::Bare => 0,
            StapMode::Sv39 => 8,
            StapMode::Sv48 => 9,
            StapMode::Sv57 => 10,
            StapMode::Sv64 => 11,
        }
    }
}

/// The number of page table levels of a translation mode.
pub open spec fn stap_levels(m: StapMode) -> u8 {
    match m {
        StapMode::Sv39 => 3,
        StapMode::Sv48 => 4,
        _ => 5,
    }
}

impl StapMode {
    /// The number of page table levels of Sv39, Sv48 or Sv57.
    pub fn get_levels(&self) -> (r: u8)
        requires
            *self == StapMode::Sv39 || *self == StapMode::Sv48 || *self == StapMode::Sv57,
        ensures
            r == stap_levels(*self),
    {
        match self {
            StapMode::Sv39 => 3,
            StapMode::Sv48 => 4,
            _ => 5,
        }
    }

    /// The size of a page table entry in bytes.
    pub fn get_ptesize(&self) -> (r: u8)
        ensures
            r == 8,
    {
        8
    }
}

/// The `satp` modes this hart does not translate with.
pub open spec fn stap_mode_unsupported(v: u64) -> bool {
    v == 9 || v == 10 || v == 11
}

/// `satp` after a write of `data` over `old`: a write naming an unsupported
/// mode keeps the old mode and takes the rest from `data`.
pub open spec fn satp_written(old: u64, data: u64) -> u64 {
    if stap_mode_unsupported(field(data, 60, 4)) {
        (old & 0xF000_0000_0000_0000u64) | (data & 0x0FFF_FFFF_FFFF_FFFFu64)
    } else {
        data
    }
}

proof fn lemma_satp_written(old: u64, data: u64)
    ensures
        with_field(with_field(with_field(old, 60, 4, field(data, 60, 4)), 44, 16, field(data, 44, 16)), 0, 44, field(data, 0, 44)) == data,
        with_field(with_field(old, 44, 16, field(data, 44, 16)), 0, 44, field(data, 0, 44))
            == (old & 0xF000_0000_0000_0000u64) | (data & 0x0FFF_FFFF_FFFF_FFFFu64),
{
    assert(with_field(with_field(with_field(old, 60, 4, field(data, 60, 4)), 44, 16, field(data, 44, 16)), 0, 44, field(data, 0, 44)) == data
        && with_field(with_field(old, 44, 16, field(data, 44, 16)), 0, 44, field(data, 0, 44))
            == (old & 0xF000_0000_0000_0000u64) | (data & 0x0FFF_FFFF_FFFF_FFFFu64)) by (bit_vector);
}

impl SatpIn {
    pub fn mode(&self) -> (r: StapMode)
        requires
            stap_mode_valid(field(self.0, 60, 4)),
        ensures
            stap_mode_code(r) == field(self.0, 60, 4),
    {
        StapMode::from_u64(self.mode_bits() as u64)
    }

    pub fn set_mode(&mut self, m: StapMode)
        ensures
            final(self).0 == with_field(old(self).0, 60, 4, stap_mode_code(m)),
    {
        let v = m.to_u64();
        self.0 = set_field(self.0, 60, 4, v);
    }

    /// Whether the mode is one this hart does not translate with (Sv48, Sv57, Sv64).
    pub fn unsupport_mod(&self) -> (r: bool)
        requires
            stap_mode_valid(field(self.0, 60, 4)),
        ensures
            r == stap_mode_unsupported(field(self.0, 60, 4)),
    {
        match self.mode() {
            StapMode::Sv48 | StapMode::Sv57 | StapMode::Sv64 => true,
            _ => false,
        }
    }
}

/// The eight PMP configuration bytes of a `pmpcfg` register.
#[derive(Clone, Copy, PartialEq, Eq, Debug, Structural)]
pub struct PMPcfg(pub u64);

impl PMPcfg {
    pub fn new() -> (r: Self)
        ensures
            r.0 == 0,
    {
        PMPcfg(0)
    }

    /// The configuration byte of entry `i`.
    pub fn pmpcfg(&self, i: u64) -> (r: PMPcfgIn)
        requires
            i < 8,
        ensures
            r.0 as u64 == field(self.0, (8 * i) as u64, 8),
    {
        PMPcfgIn(get_field(self.0, (8 * i) as u64, 8) as u8)
    }

    /// Replaces the configuration byte of entry `i`.
    pub fn set_pmpcfg(&mut self, i: u64, c: PMPcfgIn)
        requires
            i < 8,
        ensures
            final(self).0 == with_field(old(self).0, (8 * i) as u64, 8, c.0 as u64),
    {
        self.0 = set_field(self.0, 8 * i, 8, c.0 as u64);
    }
}

/// A CSR that always reads one value and ignores writes.
pub struct ReadOnlyCSR(pub u64);

/// A plain read/write CSR.
pub struct CommonCSR {
    pub inner: CsrShare,
}

impl CommonCSR {
    /// A view of register `share`.
    pub fn new(share: CsrShare) -> (r: Self)
        ensures
            r.inner == share,
    {
        Self { inner: share }
    }

    /// A view of a register of its own, added to `file` and holding `data`.
    pub fn new_noshare(file: &mut CsrFile, data: u64) -> (r: Self)
        requires
            old(file)@.len() < usize::MAX,
        ensures
            r.inner == old(file)@.len(),
            final(file)@ == old(file)@.push(data),
    {
        Self { inner: file.add_register(data) }
    }
}

/// `mstatus` or `sstatus`: reads through `rmask`, writes the bits of `wmask`.
pub struct Xstatus {
    pub inner: CsrShare,
    pub rmask: u64,
    pub wmask: u64,
}

impl Xstatus {
    pub fn new(share: CsrShare, rmask: u64, wmask: u64) -> (r: Self)
        ensures
            r.inner == share,
            r.rmask == rmask,
            r.wmask == wmask,
    {
        Self { inner: share, rmask, wmask }
    }
}

/// `mtvec` or `stvec`.
pub struct Xtvec {
    pub inner: CsrShare,
}

impl Xtvec {
    pub fn new(share: CsrShare) -> (r: Self)
        ensures
            r.inner == share,
    {
        Self { inner: share }
    }
}

/// `mie` or `sie`: reads and writes the bits of `mask`.
pub struct Xie {
    pub inner: CsrShare,
    pub mask: u64,
}

impl Xie {
    pub fn new(share: CsrShare, mask: u64) -> (r: Self)
        ensures
            r.inner == share,
            r.mask == mask,
    {
        Self { inner: share, mask }
    }
}

/// `mip`, `sip` or `mideleg`: reads and writes the bits of `mask`.
pub struct Xip {
    pub inner: CsrShare,
    pub mask: u64,
}

impl Xip {
    pub fn new(share: CsrShare, mask: u64) -> (r: Self)
        ensures
            r.inner == share,
            r.mask == mask,
    {
        Self { inner: share, mask }
    }
}

/// `mcause` or `scause`.
pub struct Xcause {
    pub inner: CsrShare,
}

impl Xcause {
    pub fn new(share: CsrShare) -> (r: Self)
        ensures
            r.inner == share,
    {
        Self { inner: share }
    }
}

/// `medeleg`.
pub struct Medeleg {
    pub inner: CsrShare,
}

impl Medeleg {
    pub fn new(share: CsrShare) -> (r: Self)
        ensures
            r.inner == share,
    {
        Self { inner: share }
    }
}

/// `satp`; whether S-mode may access it depends on `mstatus.TVM`.
pub struct Satp {
    pub inner: CsrShare,
    pub xstatus: CsrShare,
}

impl Satp {
    pub fn new(share: CsrShare, xstatus_share: CsrShare) -> (r: Self)
        ensures
            r.inner == share,
            r.xstatus == xstatus_share,
    {
        Satp { inner: share, xstatus: xstatus_share }
    }
}

/// A read-only view of a counter.
pub struct Counter {
    pub inner: CsrShare,
}

impl Counter {
    pub fn new(share: CsrShare) -> (r: Self)
        ensures
            r.inner == share,
    {
        Counter { inner: share }
    }
}

impl Csr for ReadOnlyCSR {
    open spec fn fits(&self, n: nat) -> bool {
        true
    }

    open spec fn raw_of(&self, f: Seq<u64>) -> u64 {
        self.0
    }

    open spec fn read_of(&self, f: Seq<u64>) -> u64 {
        self.0
    }

    open spec fn write_ok(&self, data: u64) -> bool {
        true
    }

    open spec fn write_of(&self, f: Seq<u64>, data: u64) -> Seq<u64> {
        f
    }

    open spec fn permitted(&self, f: Seq<u64>, addr: u64, privi: PrivilegeLevels, access: AccessType) -> bool {
        csr_addr_permits(addr, privi, access)
    }

    fn read(&self, file: &CsrFile) -> (r: u64) {
        self.0
    }

    fn write(&self, file: &mut CsrFile, data: u64) {
        
    }

    fn read_raw(&self, file: &CsrFile) -> (r: u64) {
        self.0
    }

    fn check_permission(&self, file: &CsrFile, addr: u64, privi: PrivilegeLevels, access_type: AccessType) -> (r: Result<(), ()>) {
        default_check_permission(addr, privi, access_type)
    }
}

impl Csr for Misa {
    open spec fn fits(&self, n: nat) -> bool {
        true
    }

    open spec fn raw_of(&self, f: Seq<u64>) -> u64 {
        self.0
    }

    open spec fn read_of(&self, f: Seq<u64>) -> u64 {
        self.0
    }

    open spec fn write_ok(&self, data: u64) -> bool {
        true
    }

    open spec fn write_of(&self, f: Seq<u64>, data: u64) -> Seq<u64> {
        f
    }

    open spec fn permitted(&self, f: Seq<u64>, addr: u64, privi: PrivilegeLevels, access: AccessType) -> bool {
        csr_addr_permits(addr, privi, access)
    }

    fn read(&self, file: &CsrFile) -> (r: u64) {
        self.0
    }

    fn write(&self, file: &mut CsrFile, data: u64) {
        
    }

    fn read_raw(&self, file: &CsrFile) -> (r: u64) {
        self.0
    }

    fn check_permission(&self, file: &CsrFile, addr: u64, privi: PrivilegeLevels, access_type: AccessType) -> (r: Result<(), ()>) {
        default_check_permission(addr, privi, access_type)
    }
}

impl Csr for Mcounteren {
    open spec fn fits(&self, n: nat) -> bool {
        true
    }

    open spec fn raw_of(&self, f: Seq<u64>) -> u64 {
        self.0
    }

    open spec fn read_of(&self, f: Seq<u64>) -> u64 {
        self.0
    }

    open spec fn write_ok(&self, data: u64) -> bool {
        true
    }

    open spec fn write_of(&self, f: Seq<u64>, data: u64) -> Seq<u64> {
        f
    }

    open spec fn permitted(&self, f: Seq<u64>, addr: u64, privi: PrivilegeLevels, access: AccessType) -> bool {
        csr_addr_permits(addr, privi, access)
    }

    fn read(&self, file: &CsrFile) -> (r: u64) {
        self.0
    }

    fn write(&self, file: &mut CsrFile, data: u64) {
        
    }

    fn read_raw(&self, file: &CsrFile) -> (r: u64) {
        self.0
    }

    fn check_permission(&self, file: &CsrFile, addr: u64, privi: PrivilegeLevels, access_type: AccessType) -> (r: Result<(), ()>) {
        default_check_permission(addr, privi, access_type)
    }
}

impl Csr for Menvcfg {
    open spec fn fits(&self, n: nat) -> bool {
        true
    }

    open spec fn raw_of(&self, f: Seq<u64>) -> u64 {
        self.0
    }

    open spec fn read_of(&self, f: Seq<u64>) -> u64 {
        self.0
    }

    open spec fn write_ok(&self, data: u64) -> bool {
        true
    }

    open spec fn write_of(&self, f: Seq<u64>, data: u64) -> Seq<u64> {
        f
    }

    open spec fn permitted(&self, f: Seq<u64>, addr: u64, privi: PrivilegeLevels, access: AccessType) -> bool {
        csr_addr_permits(addr, privi, access)
    }

    fn read(&self, file: &CsrFile) -> (r: u64) {
        self.0
    }

    fn write(&self, file: &mut CsrFile, data: u64) {
        
    }

    fn read_raw(&self, file: &CsrFile) -> (r: u64) {
        self.0
    }

    fn check_permission(&self, file: &CsrFile, addr: u64, privi: PrivilegeLevels, access_type: AccessType) -> (r: Result<(), ()>) {
        default_check_permission(addr, privi, access_type)
    }
}

impl Csr for Mseccfg {
    open spec fn fits(&self, n: nat) -> bool {
        true
    }

    open spec fn raw_of(&self, f: Seq<u64>) -> u64 {
        self.0
    }

    open spec fn read_of(&self, f: Seq<u64>) -> u64 {
        self.0
    }

    open spec fn write_ok(&self, data: u64) -> bool {
        true
    }

    open spec fn write_of(&self, f: Seq<u64>, data: u64) -> Seq<u64> {
        f
    }

    open spec fn permitted(&self, f: Seq<u64>, addr: u64, privi: PrivilegeLevels, access: AccessType) -> bool {
        csr_addr_permits(addr, privi, access)
    }

    fn read(&self, file: &CsrFile) -> (r: u64) {
        self.0
    }

    fn write(&self, file: &mut CsrFile, data: u64) {
        
    }

    fn read_raw(&self, file: &CsrFile) -> (r: u64) {
        self.0
    }

    fn check_permission(&self, file: &CsrFile, addr: u64, privi: PrivilegeLevels, access_type: AccessType) -> (r: Result<(), ()>) {
        default_check_permission(addr, privi, access_type)
    }
}

impl Csr for PMPcfg {
    open spec fn fits(&self, n: nat) -> bool {
        true
    }

    open spec fn raw_of(&self, f: Seq<u64>) -> u64 {
        self.0
    }

    open spec fn read_of(&self, f: Seq<u64>) -> u64 {
        self.0
    }

    open spec fn write_ok(&self, data: u64) -> bool {
        true
    }

    open spec fn write_of(&self, f: Seq<u64>, data: u64) -> Seq<u64> {
        f
    }

    open spec fn permitted(&self, f: Seq<u64>, addr: u64, privi: PrivilegeLevels, access: AccessType) -> bool {
        csr_addr_permits(addr, privi, access)
    }

    fn read(&self, file: &CsrFile) -> (r: u64) {
        self.0
    }

    fn write(&self, file: &mut CsrFile, data: u64) {
        
    }

    fn read_raw(&self, file: &CsrFile) -> (r: u64) {
        self.0
    }

    fn check_permission(&self, file: &CsrFile, addr: u64, privi: PrivilegeLevels, access_type: AccessType) -> (r: Result<(), ()>) {
        default_check_permission(addr, privi, access_type)
    }
}

impl Csr for PMPaddr {
    open spec fn fits(&self, n: nat) -> bool {
        true
    }

    open spec fn raw_of(&self, f: Seq<u64>) -> u64 {
        self.0
    }

    open spec fn read_of(&self, f: Seq<u64>) -> u64 {
        self.0
    }

    open spec fn write_ok(&self, data: u64) -> bool {
        true
    }

    open spec fn write_of(&self, f: Seq<u64>, data: u64) -> Seq<u64> {
        f
    }

    open spec fn permitted(&self, f: Seq<u64>, addr: u64, privi: PrivilegeLevels, access: AccessType) -> bool {
        csr_addr_permits(addr, privi, access)
    }

    fn read(&self, file: &CsrFile) -> (r: u64) {
        self.0
    }

    fn write(&self, file: &mut CsrFile, data: u64) {
        
    }

    fn read_raw(&self, file: &CsrFile) -> (r: u64) {
        self.0
    }

    fn check_permission(&self, file: &CsrFile, addr: u64, privi: PrivilegeLevels, access_type: AccessType) -> (r: Result<(), ()>) {
        default_check_permission(addr, privi, access_type)
    }
}

impl Csr for CommonCSR {
    open spec fn fits(&self, n: nat) -> bool {
        self.inner < n
    }

    open spec fn raw_of(&self, f: Seq<u64>) -> u64 {
        f[self.inner as int]
    }

    open spec fn read_of(&self, f: Seq<u64>) -> u64 {
        f[self.inner as int]
    }

    open spec fn write_ok(&self, data: u64) -> bool {
        true
    }

    open spec fn write_of(&self, f: Seq<u64>, data: u64) -> Seq<u64> {
        f.update(self.inner as int, data)
    }

    open spec fn permitted(&self, f: Seq<u64>, addr: u64, privi: PrivilegeLevels, access: AccessType) -> bool {
        csr_addr_permits(addr, privi, access)
    }

    fn read(&self, file: &CsrFile) -> (r: u64) {
        file.get(self.inner)
    }

    fn write(&self, file: &mut CsrFile, data: u64) {
        file.set(self.inner, data);
    }

    fn read_raw(&self, file: &CsrFile) -> (r: u64) {
        file.get(self.inner)
    }

    fn check_permission(&self, file: &CsrFile, addr: u64, privi: PrivilegeLevels, access_type: AccessType) -> (r: Result<(), ()>) {
        default_check_permission(addr, privi, access_type)
    }
}

impl Csr for Xtvec {
    open spec fn fits(&self, n: nat) -> bool {
        self.inner < n
    }

    open spec fn raw_of(&self, f: Seq<u64>) -> u64 {
        f[self.inner as int]
    }

    open spec fn read_of(&self, f: Seq<u64>) -> u64 {
        f[self.inner as int]
    }

    open spec fn write_ok(&self, data: u64) -> bool {
        true
    }

    open spec fn write_of(&self, f: Seq<u64>, data: u64) -> Seq<u64> {
        f.update(self.inner as int, data)
    }

    open spec fn permitted(&self, f: Seq<u64>, addr: u64, privi: PrivilegeLevels, access: AccessType) -> bool {
        csr_addr_permits(addr, privi, access)
    }

    fn read(&self, file: &CsrFile) -> (r: u64) {
        file.get(self.inner)
    }

    fn write(&self, file: &mut CsrFile, data: u64) {
        file.set(self.inner, data);
    }

    fn read_raw(&self, file: &CsrFile) -> (r: u64) {
        file.get(self.inner)
    }

    fn check_permission(&self, file: &CsrFile, addr: u64, privi: PrivilegeLevels, access_type: AccessType) -> (r: Result<(), ()>) {
        default_check_permission(addr, privi, access_type)
    }
}

impl Csr for Xcause {
    open spec fn fits(&self, n: nat) -> bool {
        self.inner < n
    }

    open spec fn raw_of(&self, f: Seq<u64>) -> u64 {
        f[self.inner as int]
    }

    open spec fn read_of(&self, f: Seq<u64>) -> u64 {
        f[self.inner as int]
    }

    open spec fn write_ok(&self, data: u64) -> bool {
        true
    }

    open spec fn write_of(&self, f: Seq<u64>, data: u64) -> Seq<u64> {
        f.update(self.inner as int, data)
    }

    open spec fn permitted(&self, f: Seq<u64>, addr: u64, privi: PrivilegeLevels, access: AccessType) -> bool {
        csr_addr_permits(addr, privi, access)
    }

    fn read(&self, file: &CsrFile) -> (r: u64) {
        file.get(self.inner)
    }

    fn write(&self, file: &mut CsrFile, data: u64) {
        file.set(self.inner, data);
    }

    fn read_raw(&self, file: &CsrFile) -> (r: u64) {
        file.get(self.inner)
    }

    fn check_permission(&self, file: &CsrFile, addr: u64, privi: PrivilegeLevels, access_type: AccessType) -> (r: Result<(), ()>) {
        default_check_permission(addr, privi, access_type)
    }
}

impl Csr for Medeleg {
    open spec fn fits(&self, n: nat) -> bool {
        self.inner < n
    }

    open spec fn raw_of(&self, f: Seq<u64>) -> u64 {
        f[self.inner as int]
    }

    open spec fn read_of(&self, f: Seq<u64>) -> u64 {
        f[self.inner as int]
    }

    open spec fn write_ok(&self, data: u64) -> bool {
        true
    }

    open spec fn write_of(&self, f: Seq<u64>, data: u64) -> Seq<u64> {
        f.update(self.inner as int, data)
    }

    open spec fn permitted(&self, f: Seq<u64>, addr: u64, privi: PrivilegeLevels, access: AccessType) -> bool {
        csr_addr_permits(addr, privi, access)
    }

    fn read(&self, file: &CsrFile) -> (r: u64) {
        file.get(self.inner)
    }

    fn write(&self, file: &mut CsrFile, data: u64) {
        file.set(self.inner, data);
    }

    fn read_raw(&self, file: &CsrFile) -> (r: u64) {
        file.get(self.inner)
    }

    fn check_permission(&self, file: &CsrFile, addr: u64, privi: PrivilegeLevels, access_type: AccessType) -> (r: Result<(), ()>) {
        default_check_permission(addr, privi, access_type)
    }
}

impl Csr for Counter {
    open spec fn fits(&self, n: nat) -> bool {
        self.inner < n
    }

    open spec fn raw_of(&self, f: Seq<u64>) -> u64 {
        f[self.inner as int]
    }

    open spec fn read_of(&self, f: Seq<u64>) -> u64 {
        f[self.inner as int]
    }

    open spec fn write_ok(&self, data: u64) -> bool {
        true
    }

    open spec fn write_of(&self, f: Seq<u64>, data: u64) -> Seq<u64> {
        f
    }

    open spec fn permitted(&self, f: Seq<u64>, addr: u64, privi: PrivilegeLevels, access: AccessType) -> bool {
        csr_addr_permits(addr, privi, access)
    }

    fn read(&self, file: &CsrFile) -> (r: u64) {
        file.get(self.inner)
    }

    fn write(&self, file: &mut CsrFile, data: u64) {
        
    }

    fn read_raw(&self, file: &CsrFile) -> (r: u64) {
        file.get(self.inner)
    }

    fn check_permission(&self, file: &CsrFile, addr: u64, privi: PrivilegeLevels, access_type: AccessType) -> (r: Result<(), ()>) {
        default_check_permission(addr, privi, access_type)
    }
}

impl Csr for Xstatus {
    open spec fn fits(&self, n: nat) -> bool {
        self.inner < n
    }

    open spec fn raw_of(&self, f: Seq<u64>) -> u64 {
        f[self.inner as int]
    }

    open spec fn read_of(&self, f: Seq<u64>) -> u64 {
        f[self.inner as int] & self.rmask
    }

    open spec fn write_ok(&self, data: u64) -> bool {
        true
    }

    open spec fn write_of(&self, f: Seq<u64>, data: u64) -> Seq<u64> {
        f.update(self.inner as int, masked_write(f[self.inner as int], data, self.wmask))
    }

    open spec fn permitted(&self, f: Seq<u64>, addr: u64, privi: PrivilegeLevels, access: AccessType) -> bool {
        csr_addr_permits(addr, privi, access)
    }

    fn read(&self, file: &CsrFile) -> (r: u64) {
        file.get(self.inner) & self.rmask
    }

    fn write(&self, file: &mut CsrFile, data: u64) {
        let old_val = file.get(self.inner);
        file.set(self.inner, write_with_mask(old_val, data, self.wmask));
    }

    fn read_raw(&self, file: &CsrFile) -> (r: u64) {
        file.get(self.inner)
    }

    fn check_permission(&self, file: &CsrFile, addr: u64, privi: PrivilegeLevels, access_type: AccessType) -> (r: Result<(), ()>) {
        default_check_permission(addr, privi, access_type)
    }
}

impl Csr for Xie {
    open spec fn fits(&self, n: nat) -> bool {
        self.inner < n
    }

    open spec fn raw_of(&self, f: Seq<u64>) -> u64 {
        f[self.inner as int] & self.mask
    }

    open spec fn read_of(&self, f: Seq<u64>) -> u64 {
        f[self.inner as int] & self.mask
    }

    open spec fn write_ok(&self, data: u64) -> bool {
        true
    }

    open spec fn write_of(&self, f: Seq<u64>, data: u64) -> Seq<u64> {
        f.update(self.inner as int, masked_write(f[self.inner as int], data, self.mask))
    }

    open spec fn permitted(&self, f: Seq<u64>, addr: u64, privi: PrivilegeLevels, access: AccessType) -> bool {
        csr_addr_permits(addr, privi, access)
    }

    fn read(&self, file: &CsrFile) -> (r: u64) {
        file.get(self.inner) & self.mask
    }

    fn write(&self, file: &mut CsrFile, data: u64) {
        let old_val = file.get(self.inner);
        file.set(self.inner, write_with_mask(old_val, data, self.mask));
    }

    fn read_raw(&self, file: &CsrFile) -> (r: u64) {
        file.get(self.inner) & self.mask
    }

    fn check_permission(&self, file: &CsrFile, addr: u64, privi: PrivilegeLevels, access_type: AccessType) -> (r: Result<(), ()>) {
        default_check_permission(addr, privi, access_type)
    }
}

impl Csr for Xip {
    open spec fn fits(&self, n: nat) -> bool {
        self.inner < n
    }

    open spec fn raw_of(&self, f: Seq<u64>) -> u64 {
        f[self.inner as int] & self.mask
    }

    open spec fn read_of(&self, f: Seq<u64>) -> u64 {
        f[self.inner as int] & self.mask
    }

    open spec fn write_ok(&self, data: u64) -> bool {
        true
    }

    open spec fn write_of(&self, f: Seq<u64>, data: u64) -> Seq<u64> {
        f.update(self.inner as int, masked_write(f[self.inner as int], data, self.mask))
    }

    open spec fn permitted(&self, f: Seq<u64>, addr: u64, privi: PrivilegeLevels, access: AccessType) -> bool {
        csr_addr_permits(addr, privi, access)
    }

    fn read(&self, file: &CsrFile) -> (r: u64) {
        file.get(self.inner) & self.mask
    }

    fn write(&self, file: &mut CsrFile, data: u64) {
        let old_val = file.get(self.inner);
        file.set(self.inner, write_with_mask(old_val, data, self.mask));
    }

    fn read_raw(&self, file: &CsrFile) -> (r: u64) {
        file.get(self.inner) & self.mask
    }

    fn check_permission(&self, file: &CsrFile, addr: u64, privi: PrivilegeLevels, access_type: AccessType) -> (r: Result<(), ()>) {
        default_check_permission(addr, privi, access_type)
    }
}

impl Csr for Satp {
    open spec fn fits(&self, n: nat) -> bool {
        self.inner < n && self.xstatus < n
    }

    open spec fn raw_of(&self, f: Seq<u64>) -> u64 {
        f[self.inner as int]
    }

    open spec fn read_of(&self, f: Seq<u64>) -> u64 {
        f[self.inner as int]
    }

    open spec fn write_ok(&self, data: u64) -> bool {
        stap_mode_valid(field(data, 60, 4))
    }

    open spec fn write_of(&self, f: Seq<u64>, data: u64) -> Seq<u64> {
        f.update(self.inner as int, satp_written(f[self.inner as int], data))
    }

    open spec fn permitted(&self, f: Seq<u64>, addr: u64, privi: PrivilegeLevels, access: AccessType) -> bool {
        priv_level(privi) >= (if flag(f[self.xstatus as int], 20) { 3u8 } else { 1u8 })
    }

    fn read(&self, file: &CsrFile) -> (r: u64) {
        file.get(self.inner)
    }

    fn write(&self, file: &mut CsrFile, data: u64) {
        let new_val = SatpIn(data);
        let mut stap = SatpIn(file.get(self.inner));
        proof { lemma_satp_written(stap.0, data); }
        if !new_val.unsupport_mod() {
            stap.set_mode(new_val.mode());
        }
        stap.set_asid(new_val.asid());
        stap.set_ppn(new_val.ppn());
        file.set(self.inner, stap.0);
    }

    fn read_raw(&self, file: &CsrFile) -> (r: u64) {
        file.get(self.inner)
    }

    fn check_permission(&self, file: &CsrFile, addr: u64, privi: PrivilegeLevels, access_type: AccessType) -> (r: Result<(), ()>) {
        let tvm = XstatusIn(file.get(self.xstatus)).tvm();
        let require_priv = if tvm { PrivilegeLevels::Machine } else { PrivilegeLevels::Supervisor };
        if require_priv.check_priv(privi) { Ok(()) } else { Err(()) }
    }
}

/// Every kind of CSR view, for a table of CSRs by address.
pub enum CsrEnum {
    ReadOnlyCSR(ReadOnlyCSR),
    Misa(Misa),
    Mcounteren(Mcounteren),
    Menvcfg(Menvcfg),
    Mseccfg(Mseccfg),
    PMPcfg(PMPcfg),
    PMPaddr(PMPaddr),
    CommonCSR(CommonCSR),
    Xtvec(Xtvec),
    Xcause(Xcause),
    Medeleg(Medeleg),
    Counter(Counter),
    Xstatus(Xstatus),
    Xie(Xie),
    Xip(Xip),
    Satp(Satp),
}

impl Csr for CsrEnum {
    open spec fn fits(&self, n: nat) -> bool {
        match self {
            CsrEnum::ReadOnlyCSR(c) => c.fits(n),
            CsrEnum::Misa(c) => c.fits(n),
            CsrEnum::Mcounteren(c) => c.fits(n),
            CsrEnum::Menvcfg(c) => c.fits(n),
            CsrEnum::Mseccfg(c) => c.fits(n),
            CsrEnum::PMPcfg(c) => c.fits(n),
            CsrEnum::PMPaddr(c) => c.fits(n),
            CsrEnum::CommonCSR(c) => c.fits(n),
            CsrEnum::Xtvec(c) => c.fits(n),
            CsrEnum::Xcause(c) => c.fits(n),
            CsrEnum::Medeleg(c) => c.fits(n),
            CsrEnum::Counter(c) => c.fits(n),
            CsrEnum::Xstatus(c) => c.fits(n),
            CsrEnum::Xie(c) => c.fits(n),
            CsrEnum::Xip(c) => c.fits(n),
            CsrEnum::Satp(c) => c.fits(n),
        }
    }

    open spec fn raw_of(&self, f: Seq<u64>) -> u64 {
        match self {
            CsrEnum::ReadOnlyCSR(c) => c.raw_of(f),
            CsrEnum::Misa(c) => c.raw_of(f),
            CsrEnum::Mcounteren(c) => c.raw_of(f),
            CsrEnum::Menvcfg(c) => c.raw_of(f),
            CsrEnum::Mseccfg(c) => c.raw_of(f),
            CsrEnum::PMPcfg(c) => c.raw_of(f),
            CsrEnum::PMPaddr(c) => c.raw_of(f),
            CsrEnum::CommonCSR(c) => c.raw_of(f),
            CsrEnum::Xtvec(c) => c.raw_of(f),
            CsrEnum::Xcause(c) => c.raw_of(f),
            CsrEnum::Medeleg(c) => c.raw_of(f),
            CsrEnum::Counter(c) => c.raw_of(f),
            CsrEnum::Xstatus(c) => c.raw_of(f),
            CsrEnum::Xie(c) => c.raw_of(f),
            CsrEnum::Xip(c) => c.raw_of(f),
            CsrEnum::Satp(c) => c.raw_of(f),
        }
    }

    open spec fn read_of(&self, f: Seq<u64>) -> u64 {
        match self {
            CsrEnum::ReadOnlyCSR(c) => c.read_of(f),
            CsrEnum::Misa(c) => c.read_of(f),
            CsrEnum::Mcounteren(c) => c.read_of(f),
            CsrEnum::Menvcfg(c) => c.read_of(f),
            CsrEnum::Mseccfg(c) => c.read_of(f),
            CsrEnum::PMPcfg(c) => c.read_of(f),
            CsrEnum::PMPaddr(c) => c.read_of(f),
            CsrEnum::CommonCSR(c) => c.read_of(f),
            CsrEnum::Xtvec(c) => c.read_of(f),
            CsrEnum::Xcause(c) => c.read_of(f),
            CsrEnum::Medeleg(c) => c.read_of(f),
            CsrEnum::Counter(c) => c.read_of(f),
            CsrEnum::Xstatus(c) => c.read_of(f),
            CsrEnum::Xie(c) => c.read_of(f),
            CsrEnum::Xip(c) => c.read_of(f),
            CsrEnum::Satp(c) => c.read_of(f),
        }
    }

    open spec fn write_ok(&self, data: u64) -> bool {
        match self {
            CsrEnum::ReadOnlyCSR(c) => c.write_ok(data),
            CsrEnum::Misa(c) => c.write_ok(data),
            CsrEnum::Mcounteren(c) => c.write_ok(data),
            CsrEnum::Menvcfg(c) => c.write_ok(data),
            CsrEnum::Mseccfg(c) => c.write_ok(data),
            CsrEnum::PMPcfg(c) => c.write_ok(data),
            CsrEnum::PMPaddr(c) => c.write_ok(data),
            CsrEnum::CommonCSR(c) => c.write_ok(data),
            CsrEnum::Xtvec(c) => c.write_ok(data),
            CsrEnum::Xcause(c) => c.write_ok(data),
            CsrEnum::Medeleg(c) => c.write_ok(data),
            CsrEnum::Counter(c) => c.write_ok(data),
            CsrEnum::Xstatus(c) => c.write_ok(data),
            CsrEnum::Xie(c) => c.write_ok(data),
            CsrEnum::Xip(c) => c.write_ok(data),
            CsrEnum::Satp(c) => c.write_ok(data),
        }
    }

    open spec fn write_of(&self, f: Seq<u64>, data: u64) -> Seq<u64> {
        match self {
            CsrEnum::ReadOnlyCSR(c) => c.write_of(f, data),
            CsrEnum::Misa(c) => c.write_of(f, data),
            CsrEnum::Mcounteren(c) => c.write_of(f, data),
            CsrEnum::Menvcfg(c) => c.write_of(f, data),
            CsrEnum::Mseccfg(c) => c.write_of(f, data),
            CsrEnum::PMPcfg(c) => c.write_of(f, data),
            CsrEnum::PMPaddr(c) => c.write_of(f, data),
            CsrEnum::CommonCSR(c) => c.write_of(f, data),
            CsrEnum::Xtvec(c) => c.write_of(f, data),
            CsrEnum::Xcause(c) => c.write_of(f, data),
            CsrEnum::Medeleg(c) => c.write_of(f, data),
            CsrEnum::Counter(c) => c.write_of(f, data),
            CsrEnum::Xstatus(c) => c.write_of(f, data),
            CsrEnum::Xie(c) => c.write_of(f, data),
            CsrEnum::Xip(c) => c.write_of(f, data),
            CsrEnum::Satp(c) => c.write_of(f, data),
        }
    }

    open spec fn permitted(&self, f: Seq<u64>, addr: u64, privi: PrivilegeLevels, access: AccessType) -> bool {
        match self {
            CsrEnum::ReadOnlyCSR(c) => c.permitted(f, addr, privi, access),
            CsrEnum::Misa(c) => c.permitted(f, addr, privi, access),
            CsrEnum::Mcounteren(c) => c.permitted(f, addr, privi, access),
            CsrEnum::Menvcfg(c) => c.permitted(f, addr, privi, access),
            CsrEnum::Mseccfg(c) => c.permitted(f, addr, privi, access),
            CsrEnum::PMPcfg(c) => c.permitted(f, addr, privi, access),
            CsrEnum::PMPaddr(c) => c.permitted(f, addr, privi, access),
            CsrEnum::CommonCSR(c) => c.permitted(f, addr, privi, access),
            CsrEnum::Xtvec(c) => c.permitted(f, addr, privi, access),
            CsrEnum::Xcause(c) => c.permitted(f, addr, privi, access),
            CsrEnum::Medeleg(c) => c.permitted(f, addr, privi, access),
            CsrEnum::Counter(c) => c.permitted(f, addr, privi, access),
            CsrEnum::Xstatus(c) => c.permitted(f, addr, privi, access),
            CsrEnum::Xie(c) => c.permitted(f, addr, privi, access),
            CsrEnum::Xip(c) => c.permitted(f, addr, privi, access),
            CsrEnum::Satp(c) => c.permitted(f, addr, privi, access),
        }
    }

    fn read(&self, file: &CsrFile) -> (r: u64) {
        match self {
            CsrEnum::ReadOnlyCSR(c) => c.read(file),
            CsrEnum::Misa(c) => c.read(file),
            CsrEnum::Mcounteren(c) => c.read(file),
            CsrEnum::Menvcfg(c) => c.read(file),
            CsrEnum::Mseccfg(c) => c.read(file),
            CsrEnum::PMPcfg(c) => c.read(file),
            CsrEnum::PMPaddr(c) => c.read(file),
            CsrEnum::CommonCSR(c) => c.read(file),
            CsrEnum::Xtvec(c) => c.read(file),
            CsrEnum::Xcause(c) => c.read(file),
            CsrEnum::Medeleg(c) => c.read(file),
            CsrEnum::Counter(c) => c.read(file),
            CsrEnum::Xstatus(c) => c.read(file),
            CsrEnum::Xie(c) => c.read(file),
            CsrEnum::Xip(c) => c.read(file),
            CsrEnum::Satp(c) => c.read(file),
        }
    }

    fn write(&self, file: &mut CsrFile, data: u64) {
        match self {
            CsrEnum::ReadOnlyCSR(c) => c.write(file, data),
            CsrEnum::Misa(c) => c.write(file, data),
            CsrEnum::Mcounteren(c) => c.write(file, data),
            CsrEnum::Menvcfg(c) => c.write(file, data),
            CsrEnum::Mseccfg(c) => c.write(file, data),
            CsrEnum::PMPcfg(c) => c.write(file, data),
            CsrEnum::PMPaddr(c) => c.write(file, data),
            CsrEnum::CommonCSR(c) => c.write(file, data),
            CsrEnum::Xtvec(c) => c.write(file, data),
            CsrEnum::Xcause(c) => c.write(file, data),
            CsrEnum::Medeleg(c) => c.write(file, data),
            CsrEnum::Counter(c) => c.write(file, data),
            CsrEnum::Xstatus(c) => c.write(file, data),
            CsrEnum::Xie(c) => c.write(file, data),
            CsrEnum::Xip(c) => c.write(file, data),
            CsrEnum::Satp(c) => c.write(file, data),
        }
    }

    fn read_raw(&self, file: &CsrFile) -> (r: u64) {
        match self {
            CsrEnum::ReadOnlyCSR(c) => c.read_raw(file),
            CsrEnum::Misa(c) => c.read_raw(file),
            CsrEnum::Mcounteren(c) => c.read_raw(file),
            CsrEnum::Menvcfg(c) => c.read_raw(file),
            CsrEnum::Mseccfg(c) => c.read_raw(file),
            CsrEnum::PMPcfg(c) => c.read_raw(file),
            CsrEnum::PMPaddr(c) => c.read_raw(file),
            CsrEnum::CommonCSR(c) => c.read_raw(file),
            CsrEnum::Xtvec(c) => c.read_raw(file),
            CsrEnum::Xcause(c) => c.read_raw(file),
            CsrEnum::Medeleg(c) => c.read_raw(file),
            CsrEnum::Counter(c) => c.read_raw(file),
            CsrEnum::Xstatus(c) => c.read_raw(file),
            CsrEnum::Xie(c) => c.read_raw(file),
            CsrEnum::Xip(c) => c.read_raw(file),
            CsrEnum::Satp(c) => c.read_raw(file),
        }
    }

    fn check_permission(&self, file: &CsrFile, addr: u64, privi: PrivilegeLevels, access_type: AccessType) -> (r: Result<(), ()>) {
        match self {
            CsrEnum::ReadOnlyCSR(c) => c.check_permission(file, addr, privi, access_type),
            CsrEnum::Misa(c) => c.check_permission(file, addr, privi, access_type),
            CsrEnum::Mcounteren(c) => c.check_permission(file, addr, privi, access_type),
            CsrEnum::Menvcfg(c) => c.check_permission(file, addr, privi, access_type),
            CsrEnum::Mseccfg(c) => c.check_permission(file, addr, privi, access_type),
            CsrEnum::PMPcfg(c) => c.check_permission(file, addr, privi, access_type),
            CsrEnum::PMPaddr(c) => c.check_permission(file, addr, privi, access_type),
            CsrEnum::CommonCSR(c) => c.check_permission(file, addr, privi, access_type),
            CsrEnum::Xtvec(c) => c.check_permission(file, addr, privi, access_type),
            CsrEnum::Xcause(c) => c.check_permission(file, addr, privi, access_type),
            CsrEnum::Medeleg(c) => c.check_permission(file, addr, privi, access_type),
            CsrEnum::Counter(c) => c.check_permission(file, addr, privi, access_type),
            CsrEnum::Xstatus(c) => c.check_permission(file, addr, privi, access_type),
            CsrEnum::Xie(c) => c.check_permission(file, addr, privi, access_type),
            CsrEnum::Xip(c) => c.check_permission(file, addr, privi, access_type),
            CsrEnum::Satp(c) => c.check_permission(file, addr, privi, access_type),
        }
    }
}

} // verus!
