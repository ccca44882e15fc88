//! Page sizes, TLB entries, and the operations shared by the Sv39, Sv48 and
//! Sv57 address and page table entry layouts.
use vstd::prelude::*;
use crate::bits::{field, flag, with_field};
use super::sv39::{Sv39PA, Sv39PTE, Sv39VA};
use super::sv48::{Sv48PA, Sv48PTE, Sv48VA};
use super::sv57::{Sv57PA, Sv57PTE, Sv57VA};

verus! {

#[derive(Clone, Copy, PartialEq, Eq, Debug, Structural)]
pub enum PageSize {
    P4K,
    P2M,
    P1G,
    P512G,
    P256T,
    InValid,
}

/// The page size at level `val` of a walk: 4 KiB pages at level 0, then 2 MiB, 1 GiB, 512 GiB, 256 TiB.
pub open spec fn page_size_of(val: usize) -> PageSize {
    if val == 0 {
        PageSize::P4K
    } else if val == 1 {
        PageSize::P2M
    } else if val == 2 {
        PageSize::P1G
    } else if val == 3 {
        PageSize::P512G
    } else {
        PageSize::P256T
    }
}

/// All ones but the `num` low bits (no ones for 64).
pub open spec fn spec_zero_mask(num: usize) -> u64 {
    if num == 64 { 0 } else { u64::MAX << (num as u64) }
}

/// All ones but the `num` low bits; `num` is at most 64.
pub fn zero_mask(num: usize) -> (r: u64)
    requires
        num <= 64,
    ensures
        r == spec_zero_mask(num),
{
    if num == 64 {
        return 0;
    }
    u64::MAX << (num as u64)
}

impl PageSize {
    /// The page size at walk level `val`, which is below 5.
    pub fn from_i(val: usize) -> (r: Self)
        requires
            val < 5,
        ensures
            r == page_size_of(val),
    {
        match val {
            0 => PageSize::P4K,
            1 => PageSize::P2M,
            2 => PageSize::P1G,
            3 => PageSize::P512G,
            _ => PageSize::P256T,
        }
    }

    /// The mask of the page number bits of an address: for 4 KiB, 2 MiB
    /// and 1 GiB pages.
    pub fn get_mask(&self) -> (r: u64)
        requires
            *self == PageSize::P4K || *self == PageSize::P2M || *self == PageSize::P1G,
        ensures
            r == spec_zero_mask(if *self == PageSize::P4K { 12 } else if *self == PageSize::P2M { 21 } else { 30 }),
    {
        match self {
            PageSize::P4K => zero_mask(12),
            PageSize::P2M => zero_mask(21),
            _ => zero_mask(30),
        }
    }
}

/// The operations of a page table entry.
pub trait PTEops {
    spec fn raw_bits(&self) -> u64;

    /// The number of physical page number fields.
    spec fn ppn_levels(&self) -> u8;

    /// Physical page number field `idx`.
    spec fn spec_ppn(&self, idx: u8) -> u64;

    fn raw(&self) -> (r: u64)
        ensures
            r == self.raw_bits(),
    ;

    fn get_ppn_by_idx(&self, idx: u8) -> (r: u64)
        requires
            idx < self.ppn_levels(),
        ensures
            r == self.spec_ppn(idx),
    ;

    /// The whole physical page number (bits 10..54).
    fn ppn_all(&self) -> (r: u64)
        ensures
            r == (self.raw_bits() >> 10u64) & 0xfff_ffff_ffffu64,
    ;

    /// Whether the entry points to the next level: none of R, W, X is set.
    fn point_next_level(&self) -> (r: bool)
        ensures
            r == !(flag(self.raw_bits(), 3) || flag(self.raw_bits(), 2) || flag(self.raw_bits(), 1)),
    ;

    fn v(&self) -> (r: bool)
        ensures
            r == flag(self.raw_bits(), 0),
    ;

    fn r(&self) -> (r: bool)
        ensures
            r == flag(self.raw_bits(), 1),
    ;

    fn w(&self) -> (r: bool)
        ensures
            r == flag(self.raw_bits(), 2),
    ;

    fn x(&self) -> (r: bool)
        ensures
            r == flag(self.raw_bits(), 3),
    ;

    fn u(&self) -> (r: bool)
        ensures
            r == flag(self.raw_bits(), 4),
    ;

    fn g(&self) -> (r: bool)
        ensures
            r == flag(self.raw_bits(), 5),
    ;

    fn a(&self) -> (r: bool)
        ensures
            r == flag(self.raw_bits(), 6),
    ;

    fn d(&self) -> (r: bool)
        ensures
            r == flag(self.raw_bits(), 7),
    ;

    fn rsw(&self) -> (r: u8)
        ensures
            r == field(self.raw_bits(), 8, 2),
    ;

    fn pbmt(&self) -> (r: u8)
        ensures
            r == field(self.raw_bits(), 61, 2),
    ;

    fn n(&self) -> (r: bool)
        ensures
            r == flag(self.raw_bits(), 63),
    ;
}

/// The operations of a physical address.
pub trait PAops {
    spec fn raw_bits(&self) -> u64;

    spec fn ppn_levels(&self) -> u8;

    /// The position and width of physical page number field `idx`.
    spec fn ppn_pos(&self, idx: u8) -> (u64, u64);

    fn set_ppn_by_idx(&mut self, val: u64, idx: u8)
        requires
            idx < old(self).ppn_levels(),
            val < (1u64 << old(self).ppn_pos(idx).1),
        ensures
            final(self).ppn_levels() == old(self).ppn_levels(),
            final(self).raw_bits() == with_field(old(self).raw_bits(), old(self).ppn_pos(idx).0, old(self).ppn_pos(idx).1, val),
    ;

    fn offset(&self) -> (r: usize)
        ensures
            r == field(self.raw_bits(), 0, 12),
    ;

    fn set_offset(&mut self, val: usize)
        requires
            val < 4096,
        ensures
            final(self).ppn_levels() == old(self).ppn_levels(),
            final(self).raw_bits() == with_field(old(self).raw_bits(), 0, 12, val as u64),
    ;

    fn raw(&self) -> (r: u64)
        ensures
            r == self.raw_bits(),
    ;
}

/// The operations of a virtual address.
pub trait VAops {
    spec fn raw_bits(&self) -> u64;

    spec fn ppn_levels(&self) -> u8;

    /// Virtual page number field `idx`.
    spec fn spec_ppn(&self, idx: u8) -> u64;

    fn get_ppn_by_idx(&self, idx: u8) -> (r: u64)
        requires
            idx < self.ppn_levels(),
        ensures
            r == self.spec_ppn(idx),
    ;

    fn offset(&self) -> (r: usize)
        ensures
            r == field(self.raw_bits(), 0, 12),
    ;

    fn set_offset(&mut self, val: usize)
        requires
            val < 4096,
        ensures
            final(self).ppn_levels() == old(self).ppn_levels(),
            final(self).raw_bits() == with_field(old(self).raw_bits(), 0, 12, val as u64),
    ;

    fn raw(&self) -> (r: u64)
        ensures
            r == self.raw_bits(),
    ;
}

/// A page table entry of any of the layouts.
#[derive(Clone, Copy, PartialEq, Eq, Debug, Structural)]
pub enum PTEenume {
    Sv39PTE(Sv39PTE),
    Sv48PTE(Sv48PTE),
    Sv57PTE(Sv57PTE),
}

impl PTEops for PTEenume {
    open spec fn raw_bits(&self) -> u64 {
        match self {
            PTEenume::Sv39PTE(p) => p.raw_bits(),
            PTEenume::Sv48PTE(p) => p.raw_bits(),
            PTEenume::Sv57PTE(p) => p.raw_bits(),
        }
    }

    open spec fn ppn_levels(&self) -> u8 {
        match self {
            PTEenume::Sv39PTE(p) => p.ppn_levels(),
            PTEenume::Sv48PTE(p) => p.ppn_levels(),
            PTEenume::Sv57PTE(p) => p.ppn_levels(),
        }
    }

    open spec fn spec_ppn(&self, idx: u8) -> u64 {
        match self {
            PTEenume::Sv39PTE(p) => p.spec_ppn(idx),
            PTEenume::Sv48PTE(p) => p.spec_ppn(idx),
            PTEenume::Sv57PTE(p) => p.spec_ppn(idx),
        }
    }


    fn raw(&self) -> (r: u64) {
        match self {
            PTEenume::Sv39PTE(p) => PTEops::raw(p),
            PTEenume::Sv48PTE(p) => PTEops::raw(p),
            PTEenume::Sv57PTE(p) => PTEops::raw(p),
        }
    }


    fn ppn_all(&self) -> (r: u64) {
        match self {
            PTEenume::Sv39PTE(p) => PTEops::ppn_all(p),
            PTEenume::Sv48PTE(p) => PTEops::ppn_all(p),
            PTEenume::Sv57PTE(p) => PTEops::ppn_all(p),
        }
    }


    fn point_next_level(&self) -> (r: bool) {
        match self {
            PTEenume::Sv39PTE(p) => PTEops::point_next_level(p),
            PTEenume::Sv48PTE(p) => PTEops::point_next_level(p),
            PTEenume::Sv57PTE(p) => PTEops::point_next_level(p),
        }
    }


    fn v(&self) -> (r: bool) {
        match self {
            PTEenume::Sv39PTE(p) => PTEops::v(p),
            PTEenume::Sv48PTE(p) => PTEops::v(p),
            PTEenume::Sv57PTE(p) => PTEops::v(p),
        }
    }


    fn r(&self) -> (r: bool) {
        match self {
            PTEenume::Sv39PTE(p) => PTEops::r(p),
            PTEenume::Sv48PTE(p) => PTEops::r(p),
            PTEenume::Sv57PTE(p) => PTEops::r(p),
        }
    }


    fn w(&self) -> (r: bool) {
        match self {
            PTEenume::Sv39PTE(p) => PTEops::w(p),
            PTEenume::Sv48PTE(p) => PTEops::w(p),
            PTEenume::Sv57PTE(p) => PTEops::w(p),
        }
    }


    fn x(&self) -> (r: bool) {
        match self {
            PTEenume::Sv39PTE(p) => PTEops::x(p),
            PTEenume::Sv48PTE(p) => PTEops::x(p),
            PTEenume::Sv57PTE(p) => PTEops::x(p),
        }
    }


    fn u(&self) -> (r: bool) {
        match self {
            PTEenume::Sv39PTE(p) => PTEops::u(p),
            PTEenume::Sv48PTE(p) => PTEops::u(p),
            PTEenume::Sv57PTE(p) => PTEops::u(p),
        }
    }


    fn g(&self) -> (r: bool) {
        match self {
            PTEenume::Sv39PTE(p) => PTEops::g(p),
            PTEenume::Sv48PTE(p) => PTEops::g(p),
            PTEenume::Sv57PTE(p) => PTEops::g(p),
        }
    }


    fn a(&self) -> (r: bool) {
        match self {
            PTEenume::Sv39PTE(p) => PTEops::a(p),
            PTEenume::Sv48PTE(p) => PTEops::a(p),
            PTEenume::Sv57PTE(p) => PTEops::a(p),
        }
    }


    fn d(&self) -> (r: bool) {
        match self {
            PTEenume::Sv39PTE(p) => PTEops::d(p),
            PTEenume::Sv48PTE(p) => PTEops::d(p),
            PTEenume::Sv57PTE(p) => PTEops::d(p),
        }
    }


    fn rsw(&self) -> (r: u8) {
        match self {
            PTEenume::Sv39PTE(p) => PTEops::rsw(p),
            PTEenume::Sv48PTE(p) => PTEops::rsw(p),
            PTEenume::Sv57PTE(p) => PTEops::rsw(p),
        }
    }


    fn pbmt(&self) -> (r: u8) {
        match self {
            PTEenume::Sv39PTE(p) => PTEops::pbmt(p),
            PTEenume::Sv48PTE(p) => PTEops::pbmt(p),
            PTEenume::Sv57PTE(p) => PTEops::pbmt(p),
        }
    }


    fn n(&self) -> (r: bool) {
        match self {
            PTEenume::Sv39PTE(p) => PTEops::n(p),
            PTEenume::Sv48PTE(p) => PTEops::n(p),
            PTEenume::Sv57PTE(p) => PTEops::n(p),
        }
    }


    fn get_ppn_by_idx(&self, idx: u8) -> (r: u64) {
        match self {
            PTEenume::Sv39PTE(p) => PTEops::get_ppn_by_idx(p, idx),
            PTEenume::Sv48PTE(p) => PTEops::get_ppn_by_idx(p, idx),
            PTEenume::Sv57PTE(p) => PTEops::get_ppn_by_idx(p, idx),
        }
    }
}

/// A physical address of any of the layouts.
#[derive(Clone, Copy, PartialEq, Eq, Debug, Structural)]
pub enum PAenume {
    Sv39PA(Sv39PA),
    Sv48PA(Sv48PA),
    Sv57PA(Sv57PA),
}

impl PAops for PAenume {
    open spec fn raw_bits(&self) -> u64 {
        match self {
            PAenume::Sv39PA(p) => p.raw_bits(),
            PAenume::Sv48PA(p) => p.raw_bits(),
            PAenume::Sv57PA(p) => p.raw_bits(),
        }
    }

    open spec fn ppn_levels(&self) -> u8 {
        match self {
            PAenume::Sv39PA(p) => p.ppn_levels(),
            PAenume::Sv48PA(p) => p.ppn_levels(),
            PAenume::Sv57PA(p) => p.ppn_levels(),
        }
    }

    open spec fn ppn_pos(&self, idx: u8) -> (u64, u64) {
        match self {
            PAenume::Sv39PA(p) => p.ppn_pos(idx),
            PAenume::Sv48PA(p) => p.ppn_pos(idx),
            PAenume::Sv57PA(p) => p.ppn_pos(idx),
        }
    }

    fn set_ppn_by_idx(&mut self, val: u64, idx: u8) {
        match self {
            PAenume::Sv39PA(p) => p.set_ppn_by_idx(val, idx),
            PAenume::Sv48PA(p) => p.set_ppn_by_idx(val, idx),
            PAenume::Sv57PA(p) => p.set_ppn_by_idx(val, idx),
        }
    }

    fn offset(&self) -> (r: usize) {
        match self {
            PAenume::Sv39PA(p) => PAops::offset(p),
            PAenume::Sv48PA(p) => PAops::offset(p),
            PAenume::Sv57PA(p) => PAops::offset(p),
        }
    }

    fn set_offset(&mut self, val: usize) {
        match self {
            PAenume::Sv39PA(p) => PAops::set_offset(p, val),
            PAenume::Sv48PA(p) => PAops::set_offset(p, val),
            PAenume::Sv57PA(p) => PAops::set_offset(p, val),
        }
    }

    fn raw(&self) -> (r: u64) {
        match self {
            PAenume::Sv39PA(p) => PAops::raw(p),
            PAenume::Sv48PA(p) => PAops::raw(p),
            PAenume::Sv57PA(p) => PAops::raw(p),
        }
    }
}

/// A virtual address of any of the layouts.
#[derive(Clone, Copy, PartialEq, Eq, Debug, Structural)]
pub enum VAenume {
    Sv39VA(Sv39VA),
    Sv48VA(Sv48VA),
    Sv57VA(Sv57VA),
}

impl VAops for VAenume {
    open spec fn raw_bits(&self) -> u64 {
        match self {
            VAenume::Sv39VA(p) => p.raw_bits(),
            VAenume::Sv48VA(p) => p.raw_bits(),
            VAenume::Sv57VA(p) => p.raw_bits(),
        }
    }

    open spec fn ppn_levels(&self) -> u8 {
        match self {
            VAenume::Sv39VA(p) => p.ppn_levels(),
            VAenume::Sv48VA(p) => p.ppn_levels(),
            VAenume::Sv57VA(p) => p.ppn_levels(),
        }
    }

    open spec fn spec_ppn(&self, idx: u8) -> u64 {
        match self {
            VAenume::Sv39VA(p) => p.spec_ppn(idx),
            VAenume::Sv48VA(p) => p.spec_ppn(idx),
            VAenume::Sv57VA(p) => p.spec_ppn(idx),
        }
    }

    fn get_ppn_by_idx(&self, idx: u8) -> (r: u64) {
        match self {
            VAenume::Sv39VA(p) => VAops::get_ppn_by_idx(p, idx),
            VAenume::Sv48VA(p) => VAops::get_ppn_by_idx(p, idx),
            VAenume::Sv57VA(p) => VAops::get_ppn_by_idx(p, idx),
        }
    }

    fn offset(&self) -> (r: usize) {
        match self {
            VAenume::Sv39VA(p) => VAops::offset(p),
            VAenume::Sv48VA(p) => VAops::offset(p),
            VAenume::Sv57VA(p) => VAops::offset(p),
        }
    }

    fn set_offset(&mut self, val: usize) {
        match self {
            VAenume::Sv39VA(p) => VAops::set_offset(p, val),
            VAenume::Sv48VA(p) => VAops::set_offset(p, val),
            VAenume::Sv57VA(p) => VAops::set_offset(p, val),
        }
    }

    fn raw(&self) -> (r: u64) {
        match self {
            VAenume::Sv39VA(p) => VAops::raw(p),
            VAenume::Sv48VA(p) => VAops::raw(p),
            VAenume::Sv57VA(p) => VAops::raw(p),
        }
    }
}

/// A cached translation: the leaf entry, the size of its page, the address space.
#[derive(Clone, Copy, PartialEq, Eq, Debug, Structural)]
pub struct TLBEntry {
    pub pte: PTEenume,
    pub page_size: PageSize,
    pub asid: u16,
}

/// The key of a cached translation: the virtual page and the address space.
#[derive(Clone, Copy, PartialEq, Eq, Debug, Hash, Structural)]
pub struct TLBKey {
    pub va: u64,
    pub asid: u16,
}

/// The physical address of `va` through a leaf entry with physical page
/// number `ppn` of a page of size `s`: the page number bits above the page
/// come from the entry, those inside the page and the offset from `va`.
pub open spec fn translated_pa(ppn: u64, s: PageSize, va: VAenume) -> u64 {
    let off = field(va.raw_bits(), 0, 12);
    match s {
        PageSize::P4K => (ppn << 12u64) | off,
        PageSize::P2M => ((ppn & spec_zero_mask(9)) << 12u64) | (va.spec_ppn(0) << 12u64) | off,
        PageSize::P1G => ((ppn & spec_zero_mask(18)) << 12u64) | (va.spec_ppn(1) << 21u64) | (va.spec_ppn(0) << 12u64) | off,
        PageSize::P512G => ((ppn & spec_zero_mask(27)) << 12u64) | (va.spec_ppn(2) << 30u64) | (va.spec_ppn(1) << 21u64)
            | (va.spec_ppn(0) << 12u64) | off,
        _ => ((ppn & spec_zero_mask(36)) << 12u64) | (va.spec_ppn(3) << 39u64) | (va.spec_ppn(2) << 30u64)
            | (va.spec_ppn(1) << 21u64) | (va.spec_ppn(0) << 12u64) | off,
    }
}

/// The page sizes whose translation needs `n` virtual page number fields of the address.
pub open spec fn levels_needed(s: PageSize) -> u8 {
    match s {
        PageSize::P4K => 0,
        PageSize::P2M => 1,
        PageSize::P1G => 2,
        PageSize::P512G => 3,
        _ => 4,
    }
}

impl TLBEntry {
    pub fn new(pte: PTEenume, page_size: PageSize, asid: u16) -> (r: Self)
        ensures
            r == (TLBEntry { pte, page_size, asid }),
    {
        Self { pte, page_size, asid }
    }

    /// The physical address of `va` through this entry; the page size is
    /// a defined one and `va` has the page number fields it needs.
    pub fn get_pa(&self, va: &VAenume) -> (r: u64)
        requires
            self.page_size != PageSize::InValid,
            levels_needed(self.page_size) <= va.ppn_levels(),
        ensures
            r == translated_pa((self.pte.raw_bits() >> 10u64) & 0xfff_ffff_ffffu64, self.page_size, *va),
    {
        let ppn = self.pte.ppn_all();
        let off = va.offset() as u64;
        match self.page_size {
            PageSize::P4K => (ppn << 12) | off,
            PageSize::P2M => ((ppn & zero_mask(9)) << 12) | (va.get_ppn_by_idx(0) << 12) | off,
            PageSize::P1G => ((ppn & zero_mask(18)) << 12) | (va.get_ppn_by_idx(1) << 21) | (va.get_ppn_by_idx(0) << 12) | off,
            PageSize::P512G => ((ppn & zero_mask(27)) << 12) | (va.get_ppn_by_idx(2) << 30) | (va.get_ppn_by_idx(1) << 21)
                | (va.get_ppn_by_idx(0) << 12) | off,
            _ => ((ppn & zero_mask(36)) << 12) | (va.get_ppn_by_idx(3) << 39) | (va.get_ppn_by_idx(2) << 30)
                | (va.get_ppn_by_idx(1) << 21) | (va.get_ppn_by_idx(0) << 12) | off,
        }
    }
}

} // verus!
