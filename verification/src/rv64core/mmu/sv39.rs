//! The Sv39 virtual address, physical address and page table entry layouts.
use vstd::prelude::*;
use crate::bits::{lemma_field_bound, field, flag, get_field, get_flag, set_field, set_flag, with_field, with_flag};
use super::vm_info::{PAops, PTEops, VAops};

verus! {

broadcast use lemma_field_bound;


/// An Sv39 virtual address.
#[derive(Clone, Copy, PartialEq, Eq, Debug, Structural)]
pub struct Sv39VA(pub u64);

impl Sv39VA {
    pub fn new() -> (r: Self)
        ensures
            r.0 == 0,
    {
        Sv39VA(0)
    }

    #[verifier::allow_in_spec]
    pub fn offset(&self) -> u64
        returns
            field(self.0, 0, 12),
    {
        get_field(self.0, 0, 12)
    }

    pub fn set_offset(&mut self, v: u64)
        ensures
            final(self).0 == with_field(old(self).0, 0, 12, v as u64),
    {
        self.0 = set_field(self.0, 0, 12, v as u64);
    }

    #[verifier::allow_in_spec]
    pub fn ppn0(&self) -> u64
        returns
            field(self.0, 12, 9),
    {
        get_field(self.0, 12, 9)
    }

    pub fn set_ppn0(&mut self, v: u64)
        ensures
            final(self).0 == with_field(old(self).0, 12, 9, v as u64),
    {
        self.0 = set_field(self.0, 12, 9, v as u64);
    }

    #[verifier::allow_in_spec]
    pub fn ppn1(&self) -> u64
        returns
            field(self.0, 21, 9),
    {
        get_field(self.0, 21, 9)
    }

    pub fn set_ppn1(&mut self, v: u64)
        ensures
            final(self).0 == with_field(old(self).0, 21, 9, v as u64),
    {
        self.0 = set_field(self.0, 21, 9, v as u64);
    }

    #[verifier::allow_in_spec]
    pub fn ppn2(&self) -> u64
        returns
            field(self.0, 30, 9),
    {
        get_field(self.0, 30, 9)
    }

    pub fn set_ppn2(&mut self, v: u64)
        ensures
            final(self).0 == with_field(old(self).0, 30, 9, v as u64),
    {
        self.0 = set_field(self.0, 30, 9, v as u64);
    }

}

/// An Sv39 physical address.
#[derive(Clone, Copy, PartialEq, Eq, Debug, Structural)]
pub struct Sv39PA(pub u64);

impl Sv39PA {
    pub fn new() -> (r: Self)
        ensures
            r.0 == 0,
    {
        Sv39PA(0)
    }

    #[verifier::allow_in_spec]
    pub fn offset(&self) -> u64
        returns
            field(self.0, 0, 12),
    {
        get_field(self.0, 0, 12)
    }

    pub fn set_offset(&mut self, v: u64)
        ensures
            final(self).0 == with_field(old(self).0, 0, 12, v as u64),
    {
        self.0 = set_field(self.0, 0, 12, v as u64);
    }

    #[verifier::allow_in_spec]
    pub fn ppn0(&self) -> u64
        returns
            field(self.0, 12, 9),
    {
        get_field(self.0, 12, 9)
    }

    pub fn set_ppn0(&mut self, v: u64)
        ensures
            final(self).0 == with_field(old(self).0, 12, 9, v as u64),
    {
        self.0 = set_field(self.0, 12, 9, v as u64);
    }

    #[verifier::allow_in_spec]
    pub fn ppn1(&self) -> u64
        returns
            field(self.0, 21, 9),
    {
        get_field(self.0, 21, 9)
    }

    pub fn set_ppn1(&mut self, v: u64)
        ensures
            final(self).0 == with_field(old(self).0, 21, 9, v as u64),
    {
        self.0 = set_field(self.0, 21, 9, v as u64);
    }

    #[verifier::allow_in_spec]
    pub fn ppn2(&self) -> u64
        returns
            field(self.0, 30, 26),
    {
        get_field(self.0, 30, 26)
    }

    pub fn set_ppn2(&mut self, v: u64)
        ensures
            final(self).0 == with_field(old(self).0, 30, 26, v as u64),
    {
        self.0 = set_field(self.0, 30, 26, v as u64);
    }

}

/// An Sv39 page table entry.
#[derive(Clone, Copy, PartialEq, Eq, Debug, Structural)]
pub struct Sv39PTE(pub u64);

impl Sv39PTE {
    pub fn new() -> (r: Self)
        ensures
            r.0 == 0,
    {
        Sv39PTE(0)
    }

    #[verifier::allow_in_spec]
    pub fn v(&self) -> bool
        returns
            flag(self.0, 0),
    {
        get_flag(self.0, 0)
    }

    pub fn set_v(&mut self, b: bool)
        ensures
            final(self).0 == with_flag(old(self).0, 0, b),
    {
        self.0 = set_flag(self.0, 0, b);
    }

    #[verifier::allow_in_spec]
    pub fn r(&self) -> bool
        returns
            flag(self.0, 1),
    {
        get_flag(self.0, 1)
    }

    pub fn set_r(&mut self, b: bool)
        ensures
            final(self).0 == with_flag(old(self).0, 1, b),
    {
        self.0 = set_flag(self.0, 1, b);
    }

    #[verifier::allow_in_spec]
    pub fn w(&self) -> bool
        returns
            flag(self.0, 2),
    {
        get_flag(self.0, 2)
    }

    pub fn set_w(&mut self, b: bool)
        ensures
            final(self).0 == with_flag(old(self).0, 2, b),
    {
        self.0 = set_flag(self.0, 2, b);
    }

    #[verifier::allow_in_spec]
    pub fn x(&self) -> bool
        returns
            flag(self.0, 3),
    {
        get_flag(self.0, 3)
    }

    pub fn set_x(&mut self, b: bool)
        ensures
            final(self).0 == with_flag(old(self).0, 3, b),
    {
        self.0 = set_flag(self.0, 3, b);
    }

    #[verifier::allow_in_spec]
    pub fn u(&self) -> bool
        returns
            flag(self.0, 4),
    {
        get_flag(self.0, 4)
    }

    pub fn set_u(&mut self, b: bool)
        ensures
            final(self).0 == with_flag(old(self).0, 4, b),
    {
        self.0 = set_flag(self.0, 4, b);
    }

    #[verifier::allow_in_spec]
    pub fn g(&self) -> bool
        returns
            flag(self.0, 5),
    {
        get_flag(self.0, 5)
    }

    pub fn set_g(&mut self, b: bool)
        ensures
            final(self).0 == with_flag(old(self).0, 5, b),
    {
        self.0 = set_flag(self.0, 5, b);
    }

    #[verifier::allow_in_spec]
    pub fn a(&self) -> bool
        returns
            flag(self.0, 6),
    {
        get_flag(self.0, 6)
    }

    pub fn set_a(&mut self, b: bool)
        ensures
            final(self).0 == with_flag(old(self).0, 6, b),
    {
        self.0 = set_flag(self.0, 6, b);
    }

    #[verifier::allow_in_spec]
    pub fn d(&self) -> bool
        returns
            flag(self.0, 7),
    {
        get_flag(self.0, 7)
    }

    pub fn set_d(&mut self, b: bool)
        ensures
            final(self).0 == with_flag(old(self).0, 7, b),
    {
        self.0 = set_flag(self.0, 7, b);
    }

    #[verifier::allow_in_spec]
    pub fn rsw(&self) -> u8
        returns
            field(self.0, 8, 2) as u8,
    {
        get_field(self.0, 8, 2) as u8
    }

    pub fn set_rsw(&mut self, v: u8)
        ensures
            final(self).0 == with_field(old(self).0, 8, 2, v as u64),
    {
        self.0 = set_field(self.0, 8, 2, v as u64);
    }

    #[verifier::allow_in_spec]
    pub fn ppn0(&self) -> u64
        returns
            field(self.0, 10, 9),
    {
        get_field(self.0, 10, 9)
    }

    pub fn set_ppn0(&mut self, v: u64)
        ensures
            final(self).0 == with_field(old(self).0, 10, 9, v as u64),
    {
        self.0 = set_field(self.0, 10, 9, v as u64);
    }

    #[verifier::allow_in_spec]
    pub fn ppn1(&self) -> u64
        returns
            field(self.0, 19, 9),
    {
        get_field(self.0, 19, 9)
    }

    pub fn set_ppn1(&mut self, v: u64)
        ensures
            final(self).0 == with_field(old(self).0, 19, 9, v as u64),
    {
        self.0 = set_field(self.0, 19, 9, v as u64);
    }

    #[verifier::allow_in_spec]
    pub fn ppn2(&self) -> u64
        returns
            field(self.0, 28, 26),
    {
        get_field(self.0, 28, 26)
    }

    pub fn set_ppn2(&mut self, v: u64)
        ensures
            final(self).0 == with_field(old(self).0, 28, 26, v as u64),
    {
        self.0 = set_field(self.0, 28, 26, v as u64);
    }

    #[verifier::allow_in_spec]
    pub fn reserved(&self) -> u64
        returns
            field(self.0, 54, 7),
    {
        get_field(self.0, 54, 7)
    }

    pub fn set_reserved(&mut self, v: u64)
        ensures
            final(self).0 == with_field(old(self).0, 54, 7, v as u64),
    {
        self.0 = set_field(self.0, 54, 7, v as u64);
    }

    #[verifier::allow_in_spec]
    pub fn pbmt(&self) -> u8
        returns
            field(self.0, 61, 2) as u8,
    {
        get_field(self.0, 61, 2) as u8
    }

    pub fn set_pbmt(&mut self, v: u8)
        ensures
            final(self).0 == with_field(old(self).0, 61, 2, v as u64),
    {
        self.0 = set_field(self.0, 61, 2, v as u64);
    }

    #[verifier::allow_in_spec]
    pub fn n(&self) -> bool
        returns
            flag(self.0, 63),
    {
        get_flag(self.0, 63)
    }

    pub fn set_n(&mut self, b: bool)
        ensures
            final(self).0 == with_flag(old(self).0, 63, b),
    {
        self.0 = set_flag(self.0, 63, b);
    }

}

impl VAops for Sv39VA {
    open spec fn raw_bits(&self) -> u64 {
        self.0
    }

    open spec fn ppn_levels(&self) -> u8 {
        3
    }

    open spec fn spec_ppn(&self, idx: u8) -> u64 {
        if idx == 0 {
            field(self.0, 12, 9)
        } else if idx == 1 {
            field(self.0, 21, 9)
        } else if idx == 2 {
            field(self.0, 30, 9)
        } else {
            0
        }
    }

    fn get_ppn_by_idx(&self, idx: u8) -> (r: u64) {
        match idx {
            0 => self.ppn0(),
            1 => self.ppn1(),
            _ => self.ppn2(),
        }
    }

    fn offset(&self) -> (r: usize) {
        get_field(self.0, 0, 12) as usize
    }

    fn set_offset(&mut self, val: usize) {
        self.0 = set_field(self.0, 0, 12, val as u64);
    }

    fn raw(&self) -> (r: u64) {
        self.0
    }
}

impl PAops for Sv39PA {
    open spec fn raw_bits(&self) -> u64 {
        self.0
    }

    open spec fn ppn_levels(&self) -> u8 {
        3
    }

    open spec fn ppn_pos(&self, idx: u8) -> (u64, u64) {

        if idx == 0 {
            (12, 9)
        } else if idx == 1 {
            (21, 9)
        } else if idx == 2 {
            (30, 26)
        } else {
            (0, 1)
        }
    }


    fn set_ppn_by_idx(&mut self, val: u64, idx: u8) {
        match idx {
            0 => self.0 = set_field(self.0, 12, 9, val),
            1 => self.0 = set_field(self.0, 21, 9, val),
            _ => self.0 = set_field(self.0, 30, 26, val),
        }
    }


    fn offset(&self) -> (r: usize) {
        get_field(self.0, 0, 12) as usize
    }

    fn set_offset(&mut self, val: usize) {
        self.0 = set_field(self.0, 0, 12, val as u64);
    }

    fn raw(&self) -> (r: u64) {
        self.0
    }
}

impl PTEops for Sv39PTE {
    open spec fn raw_bits(&self) -> u64 {
        self.0
    }

    open spec fn ppn_levels(&self) -> u8 {
        3
    }

    open spec fn spec_ppn(&self, idx: u8) -> u64 {
        if idx == 0 {
            field(self.0, 10, 9)
        } else if idx == 1 {
            field(self.0, 19, 9)
        } else if idx == 2 {
            field(self.0, 28, 26)
        } else {
            0
        }
    }

    fn raw(&self) -> (r: u64) {
        self.0
    }

    fn get_ppn_by_idx(&self, idx: u8) -> (r: u64) {
        match idx {
            0 => self.ppn0(),
            1 => self.ppn1(),
            _ => self.ppn2(),
        }
    }

    fn ppn_all(&self) -> (r: u64) {
        (self.0 >> 10) & 0xfff_ffff_ffff
    }

    fn point_next_level(&self) -> (r: bool) {
        !(self.x() || self.w() || self.r())
    }


    fn v(&self) -> (r: bool) {
        get_flag(self.0, 0)
    }


    fn r(&self) -> (r: bool) {
        get_flag(self.0, 1)
    }


    fn w(&self) -> (r: bool) {
        get_flag(self.0, 2)
    }


    fn x(&self) -> (r: bool) {
        get_flag(self.0, 3)
    }


    fn u(&self) -> (r: bool) {
        get_flag(self.0, 4)
    }


    fn g(&self) -> (r: bool) {
        get_flag(self.0, 5)
    }


    fn a(&self) -> (r: bool) {
        get_flag(self.0, 6)
    }


    fn d(&self) -> (r: bool) {
        get_flag(self.0, 7)
    }


    fn n(&self) -> (r: bool) {
        get_flag(self.0, 63)
    }


    fn rsw(&self) -> (r: u8) {
        get_field(self.0, 8, 2) as u8
    }


    fn pbmt(&self) -> (r: u8) {
        get_field(self.0, 61, 2) as u8
    }
}

} // verus!
