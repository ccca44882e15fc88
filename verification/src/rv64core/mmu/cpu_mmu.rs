//! Address translation of the hart: the Sv39/Sv48/Sv57 page table walk, the
//! permission checks on the leaf entry, and the TLB.
use vstd::prelude::*;
use hashlink::LruCache;
use crate::bits::{field, flag, get_field, get_flag, lemma_field_bound, lemma_field_lt};
use crate::config::Config;
use crate::device::device_trait::DeviceBase;
use crate::rv64core::bus::{Bus, bus_read_ok, bus_read_post};
use crate::rv64core::inst_base::RVerr;
use crate::rv64core::csr_regs_define::{SatpIn, StapMode, XstatusIn, stap_levels, stap_mode_code, stap_mode_valid};
use crate::rv64core::inst_base::{AccessType, PrivilegeLevels, priv_level, page_fault_of, access_fault_of, misaligned_of};
use crate::rv64core::traptype::TrapType;
use crate::tools::{aligned, check_aligned};
use super::sv39::{Sv39PA, Sv39PTE, Sv39VA};
use super::sv48::{Sv48PA, Sv48PTE, Sv48VA};
use super::sv57::{Sv57PA, Sv57PTE, Sv57VA};
use super::tlb::{tlb_capacity, tlb_capacity_of, tlb_clear, tlb_entries, tlb_get, tlb_insert, tlb_items, tlb_new, tlb_remove};
use super::vm_info::{PAenume, PAops, PTEenume, PTEops, PageSize, TLBEntry, TLBKey, VAenume, VAops, page_size_of,
    spec_zero_mask, translated_pa, levels_needed};

verus! {

broadcast use lemma_field_bound;

pub const PAGESIZE: u64 = 4096;

/// Virtual page number field `i` of virtual address `va`.
pub open spec fn vpn_of(va: u64, i: u8) -> u64 {
    field(va, (12 + 9 * i) as u64, 9)
}

/// The physical page number of a page table entry.
pub open spec fn pte_ppn_all(p: u64) -> u64 {
    (p >> 10u64) & 0xfff_ffff_ffffu64
}

/// How a walk ends: at a leaf entry at a level, with a page fault, or with
/// an access fault (an entry outside memory).
#[derive(Clone, Copy, PartialEq, Eq, Debug, Structural)]
pub enum WalkEnd {
    Leaf(u64, u8),
    PageFault,
    AccessFault,
}

/// The page table walk for `va` from the table at physical address `a` at
/// level `i`, reading the entries through the bus: it went from `ob` to
/// `nb` and ended at `end`. The entry at `a + vpn[i] * 8` must be read (an
/// entry the bus cannot give is an access fault), be valid and not
/// writable-only; one with R or X set is the leaf, else the walk goes down
/// a level to the table it points to.
pub open spec fn walk_bus<D: DeviceBase>(ob: Bus<D>, nb: Bus<D>, va: u64, a: u64, i: u8, end: WalkEnd) -> bool
    decreases i,
{
    let addr = (a + vpn_of(va, i) * 8) as u64;
    if !bus_read_ok(ob, addr, 8) {
        nb == ob && end == WalkEnd::AccessFault
    } else {
        exists|mb: Bus<D>, r: Result<u64, RVerr>| #[trigger] bus_read_post(ob, mb, addr, 8, r) && match r {
            Err(_) => nb == mb && end == WalkEnd::AccessFault,
            Ok(p) => if !flag(p, 0) || (!flag(p, 1) && flag(p, 2)) {
                nb == mb && end == WalkEnd::PageFault
            } else if flag(p, 1) || flag(p, 3) {
                nb == mb && end == WalkEnd::Leaf(p, i)
            } else if i == 0 {
                nb == mb && end == WalkEnd::PageFault
            } else {
                walk_bus(mb, nb, va, (pte_ppn_all(p) * PAGESIZE) as u64, (i - 1) as u8, end)
            },
        }
    }
}

/// A supervisor access to a user page needs `mstatus.SUM`.
pub open spec fn sum_ok(eff: PrivilegeLevels, mstatus: u64, p: u64) -> bool {
    eff != PrivilegeLevels::Supervisor || flag(mstatus, 18) || !flag(p, 4)
}

/// The leaf entry `p` allows the access: X for a fetch; R, or X with
/// `mstatus.MXR`, for a load; W for a store; and SUM for S-mode on user pages.
pub open spec fn leaf_permits(p: u64, access: AccessType, eff: PrivilegeLevels, mstatus: u64) -> bool {
    match access {
        AccessType::Fetch(_) => flag(p, 3),
        AccessType::Load(_) => (flag(p, 1) || (flag(p, 3) && flag(mstatus, 19))) && sum_ok(eff, mstatus, p),
        _ => flag(p, 2) && sum_ok(eff, mstatus, p),
    }
}

/// A leaf at level `i` whose low page number fields are not zero is a misaligned superpage.
pub open spec fn misaligned_superpage(p: u64, i: u8) -> bool {
    exists|j: u8| j < i && #[trigger] field(p, (10 + 9 * j) as u64, 9) != 0
}

/// The accessed bit is set, and the dirty bit for a store.
pub open spec fn ad_ok(p: u64, access: AccessType) -> bool {
    flag(p, 6) && !(!flag(p, 7) && (access is Store || access is Amo))
}

/// Virtual address `va` in the layout of mode `m`.
pub open spec fn va_of(m: StapMode, va: u64) -> VAenume {
    match m {
        StapMode::Sv48 => VAenume::Sv48VA(Sv48VA(va)),
        StapMode::Sv57 => VAenume::Sv57VA(Sv57VA(va)),
        _ => VAenume::Sv39VA(Sv39VA(va)),
    }
}

/// The leaf-entry checks and the physical address of a translation that
/// reached leaf `p` at level `i`.
pub open spec fn leaf_result(p: u64, i: u8, access: AccessType, eff: PrivilegeLevels, mstatus: u64, m: StapMode, va: u64) -> Result<u64, TrapType> {
    if !leaf_permits(p, access, eff, mstatus) || misaligned_superpage(p, i) || !ad_ok(p, access) {
        Err(page_fault_of(access))
    } else {
        Ok(translated_pa(pte_ppn_all(p), page_size_of(i as usize), va_of(m, va)))
    }
}

/// The result of a page table walk for `va` that ended at `end`. A leaf
/// above level 2 (a 512 GiB or larger page) is not supported and faults.
pub open spec fn walk_end_result(end: WalkEnd, access: AccessType, eff: PrivilegeLevels, mstatus: u64, m: StapMode, va: u64) -> Result<u64, TrapType> {
    match end {
        WalkEnd::AccessFault => Err(access_fault_of(access)),
        WalkEnd::PageFault => Err(page_fault_of(access)),
        WalkEnd::Leaf(p, i) => if i >= 3 { Err(page_fault_of(access)) } else { leaf_result(p, i, access, eff, mstatus, m, va) },
    }
}

/// The table the walk starts from: `satp.PPN` as an address.
pub open spec fn walk_root(satp: u64) -> u64 {
    (field(satp, 0, 44) * PAGESIZE) as u64
}

/// The TLB lookup for `va` in address space `asid`: a 2 MiB entry, then a 4
/// KiB one, then a 1 GiB one.
pub open spec fn fast_path_of(t: Map<TLBKey, TLBEntry>, va: u64, asid: u16) -> Option<TLBEntry> {
    let k2m = TLBKey { va: va & spec_zero_mask(21), asid };
    let k4k = TLBKey { va: va & spec_zero_mask(12), asid };
    let k1g = TLBKey { va: va & spec_zero_mask(30), asid };
    if t.dom().contains(k2m) && t[k2m].page_size == PageSize::P2M {
        Some(t[k2m])
    } else if t.dom().contains(k4k) && t[k4k].page_size == PageSize::P4K {
        Some(t[k4k])
    } else if t.dom().contains(k1g) && t[k1g].page_size == PageSize::P1G {
        Some(t[k1g])
    } else {
        None
    }
}

/// The result of a translation through TLB entry `e`.
pub open spec fn tlb_hit_result(e: TLBEntry, access: AccessType, eff: PrivilegeLevels, mstatus: u64, m: StapMode, va: u64) -> Result<u64, TrapType> {
    let p = e.pte.raw_bits();
    if !flag(p, 0) || (!flag(p, 1) && flag(p, 2)) || !leaf_permits(p, access, eff, mstatus) || !ad_ok(p, access) {
        Err(page_fault_of(access))
    } else {
        Ok(translated_pa(pte_ppn_all(p), e.page_size, va_of(m, va)))
    }
}

/// Walks the page tables for `va` from the table at `a` at level `i`,
/// reading the entries through the bus.
fn walk_level<D: DeviceBase>(bus: &mut Bus<D>, va: u64, a: u64, i: u8) -> (r: WalkEnd)
    requires
        a <= 0xfff_ffff_ffffu64 * 4096,
        i < 5,
    ensures
        walk_bus(*old(bus), *final(bus), va, a, i, r),
        r matches WalkEnd::Leaf(_, l) ==> l <= i,
    decreases i,
{
    let vpn = get_field(va, (12 + 9 * i) as u64, 9);
    assert(vpn == vpn_of(va, i));
    let addr = a + vpn * 8;
    if !bus.can_read(addr, 8) {
        return WalkEnd::AccessFault;
    }
    let ghost ob = *bus;
    let res = bus.read(addr, 8);
    let ghost mb = *bus;
    assert(bus_read_post(ob, mb, addr, 8, res));
    match res {
        Err(_) => WalkEnd::AccessFault,
        Ok(p) => {
            if !get_flag(p, 0) || (!get_flag(p, 1) && get_flag(p, 2)) {
                WalkEnd::PageFault
            } else if get_flag(p, 1) || get_flag(p, 3) {
                WalkEnd::Leaf(p, i)
            } else if i == 0 {
                WalkEnd::PageFault
            } else {
                let next = (p >> 10u64) & 0xfff_ffff_ffffu64;
                assert((p >> 10u64) & 0xfff_ffff_ffffu64 <= 0xfff_ffff_ffffu64) by (bit_vector);
                let r = walk_level(bus, va, next * PAGESIZE, i - 1);
                assert(walk_bus(mb, *bus, va, (pte_ppn_all(p) * PAGESIZE) as u64, (i - 1) as u8, r));
                r
            }
        },
    }
}

/// `t1` is the TLB `t0` (of capacity `cap`) after caching entry `e` at
/// key `k`: nothing with no TLB; else `k` maps to `e`, and when that is one
/// entry too many, some entry leaves.
pub open spec fn tlb_cached(t0: Map<TLBKey, TLBEntry>, t1: Map<TLBKey, TLBEntry>, k: TLBKey, e: TLBEntry, cap: nat) -> bool {
    if cap == 0 {
        t1 == t0
    } else if t0.insert(k, e).len() <= cap {
        t1 == t0.insert(k, e)
    } else {
        exists|x: TLBKey| t1 == t0.insert(k, e).remove(x)
    }
}

/// `t1` is the TLB of `o` after a walk for `va` that ended at `end`
/// cached the leaf it reached.
pub open spec fn leaf_cached(o: Mmu, t1: Map<TLBKey, TLBEntry>, end: WalkEnd, va: u64) -> bool {
    match end {
        WalkEnd::Leaf(p, i) => tlb_cached(tlb_entries(o.tlb), t1, walk_tlb_key(va, i, satp_asid(o.satp.0)),
            TLBEntry { pte: o.get_pteops_spec(p), page_size: page_size_of(i as usize), asid: satp_asid(o.satp.0) },
            tlb_capacity(o.tlb)),
        _ => false,
    }
}

/// The TLB key and entry a walk for `va` that reached leaf `p` at level
/// `i` (below 3) caches, in address space `asid`.
pub open spec fn walk_tlb_key(va: u64, i: u8, asid: u16) -> TLBKey {
    TLBKey { va: va & spec_zero_mask(if i == 0 { 12 } else if i == 1 { 21 } else { 30 }), asid }
}

/// Entry `k` goes with a fence of address space `asid` (and no address):
/// it belongs to `asid` and is not global.
pub open spec fn fence_by_asid(t: Map<TLBKey, TLBEntry>, k: TLBKey, asid: u16) -> bool {
    t.dom().contains(k) && t[k].asid == asid && !flag(t[k].pte.raw_bits(), 5)
}

/// Entry `k` goes with a fence of address `va`: it maps the page holding
/// `va`, and, when `asid` is not 0, belongs to `asid` and is not global.
pub open spec fn fence_by_va(t: Map<TLBKey, TLBEntry>, k: TLBKey, va: u64, asid: u16) -> bool {
    let e = t[k];
    let page = spec_zero_mask(if e.page_size == PageSize::P4K { 12 } else if e.page_size == PageSize::P2M { 21 } else { 30 }) & va;
    &&& t.dom().contains(k)
    &&& (e.page_size == PageSize::P4K || e.page_size == PageSize::P2M || e.page_size == PageSize::P1G)
    &&& k.va == page
    &&& asid != 0 ==> k.asid == asid && !flag(e.pte.raw_bits(), 5)
}

/// The address space of `satp` value `s`, as the TLB keys it.
pub open spec fn satp_asid(s: u64) -> u16 {
    field(s, 44, 16) as u16
}

pub struct Mmu {
    pub access_type: AccessType,
    /// The hart's `mstatus`, as the MMU sees it.
    pub mstatus: XstatusIn,
    /// The hart's `satp`, as the MMU sees it.
    pub satp: SatpIn,
    /// The hart's privilege level.
    pub cur_priv: PrivilegeLevels,
    pub mmu_effective_priv: PrivilegeLevels,
    pub satp_mode: StapMode,
    pub tlb: LruCache<TLBKey, TLBEntry>,
    pub tlb_hit: u64,
    pub tlb_miss: u64,
}

/// The privilege translation happens at: with `mstatus.MPRV` set, accesses
/// other than `Fetch(0)` use `mstatus.MPP`.
pub open spec fn effective_priv(access: AccessType, mstatus: u64, cur: PrivilegeLevels) -> PrivilegeLevels {
    if access != AccessType::Fetch(0) && flag(mstatus, 17) {
        if field(mstatus, 11, 2) == 0 {
            PrivilegeLevels::User
        } else if field(mstatus, 11, 2) == 1 {
            PrivilegeLevels::Supervisor
        } else {
            PrivilegeLevels::Machine
        }
    } else {
        cur
    }
}

/// The MPP field is read where MPRV makes it matter, and it names a supported level.
pub open spec fn mpp_defined(access: AccessType, mstatus: u64) -> bool {
    access != AccessType::Fetch(0) && flag(mstatus, 17) ==> field(mstatus, 11, 2) != 2
}

impl Mmu {
    /// An MMU for a hart in M-mode with a TLB of the configured size (none by default).
    pub fn new(privilege: PrivilegeLevels, mstatus: XstatusIn, satp: SatpIn, config: &Config) -> (r: Self)
        ensures
            r.cur_priv == privilege && r.mstatus == mstatus && r.satp == satp,
            r.access_type == AccessType::Load(0),
            r.mmu_effective_priv == PrivilegeLevels::Machine,
            r.satp_mode == StapMode::Bare,
            tlb_entries(r.tlb) == Map::<TLBKey, TLBEntry>::empty(),
            tlb_capacity(r.tlb) == (match config.tlb_size { Some(n) => n, None => 0 }),
    {
        let size = match config.tlb_size() {
            Some(n) => n,
            None => 0,
        };
        Mmu {
            access_type: AccessType::Load(0),
            mstatus,
            satp,
            cur_priv: privilege,
            mmu_effective_priv: PrivilegeLevels::Machine,
            satp_mode: StapMode::Bare,
            tlb: tlb_new(size),
            tlb_hit: 0,
            tlb_miss: 0,
        }
    }

    /// Records the kind of the next access and the translation mode of `satp`.
    pub fn update_access_type(&mut self, access_type: &AccessType)
        requires
            stap_mode_valid(field(old(self).satp.0, 60, 4)),
        ensures
            *final(self) == (Mmu { access_type: *access_type, satp_mode: final(self).satp_mode, ..*old(self) }),
            stap_mode_code(final(self).satp_mode) == field(old(self).satp.0, 60, 4),
            final(self).mstatus == old(self).mstatus && final(self).satp == old(self).satp,
            final(self).cur_priv == old(self).cur_priv,
            final(self).mmu_effective_priv == old(self).mmu_effective_priv,
            final(self).tlb == old(self).tlb,
    {
        self.access_type = *access_type;
        self.satp_mode = self.satp.mode();
    }

    fn no_tlb(&self) -> (r: bool)
        ensures
            r == (tlb_capacity(self.tlb) == 0),
    {
        tlb_capacity_of(&self.tlb) == 0
    }

    /// Whether translation is off: for accesses in M-mode (after MPRV) or
    /// with `satp` in Bare mode. Records the effective privilege.
    fn no_mmu(&mut self) -> (r: bool)
        requires
            mpp_defined(old(self).access_type, old(self).mstatus.0),
        ensures
            final(self).mmu_effective_priv == effective_priv(old(self).access_type, old(self).mstatus.0, old(self).cur_priv),
            r == (final(self).mmu_effective_priv == PrivilegeLevels::Machine || old(self).satp_mode == StapMode::Bare),
            final(self).access_type == old(self).access_type,
            final(self).mstatus == old(self).mstatus && final(self).satp == old(self).satp,
            final(self).cur_priv == old(self).cur_priv && final(self).satp_mode == old(self).satp_mode,
            final(self).tlb == old(self).tlb,
    {
        let satp_bare_mode = self.satp_mode == StapMode::Bare;
        self.mmu_effective_priv = self.cur_priv;
        if self.access_type != AccessType::Fetch(0) && self.mstatus.mprv() {
            self.mmu_effective_priv = self.mstatus.get_mpp_priv();
        }
        self.mmu_effective_priv == PrivilegeLevels::Machine || satp_bare_mode
    }

    /// `mstatus.SUM` allows an S-mode access to page table entry `pte`.
    fn check_sum_bit(&self, pte: &PTEenume) -> (r: bool)
        ensures
            r == sum_ok(self.mmu_effective_priv, self.mstatus.0, pte.raw_bits()),
    {
        if self.mmu_effective_priv != PrivilegeLevels::Supervisor {
            return true;
        }
        self.mstatus.sum() || !pte.u()
    }

    pub open spec fn get_pteops_spec(&self, pte_data: u64) -> PTEenume {
        match self.satp_mode {
            StapMode::Sv48 => PTEenume::Sv48PTE(Sv48PTE(pte_data)),
            StapMode::Sv57 => PTEenume::Sv57PTE(Sv57PTE(pte_data)),
            _ => PTEenume::Sv39PTE(Sv39PTE(pte_data)),
        }
    }

    /// The page table entry `pte_data` in the layout of the current mode.
    pub fn get_pteops(&self, pte_data: u64) -> (r: PTEenume)
        ensures
            r.raw_bits() == pte_data,
            r == self.get_pteops_spec(pte_data),
    {
        match self.satp_mode {
            StapMode::Sv48 => PTEenume::Sv48PTE(Sv48PTE(pte_data)),
            StapMode::Sv57 => PTEenume::Sv57PTE(Sv57PTE(pte_data)),
            _ => PTEenume::Sv39PTE(Sv39PTE(pte_data)),
        }
    }

    /// The physical address `pa_data` in the layout of the current mode.
    pub fn get_paops(&self, pa_data: u64) -> (r: PAenume)
        ensures
            r.raw_bits() == pa_data,
    {
        match self.satp_mode {
            StapMode::Sv48 => PAenume::Sv48PA(Sv48PA(pa_data)),
            StapMode::Sv57 => PAenume::Sv57PA(Sv57PA(pa_data)),
            _ => PAenume::Sv39PA(Sv39PA(pa_data)),
        }
    }

    /// The virtual address `va_data` in the layout of the current mode.
    pub fn get_vaops(&self, va_data: u64) -> (r: VAenume)
        ensures
            r == va_of(self.satp_mode, va_data),
    {
        match self.satp_mode {
            StapMode::Sv48 => VAenume::Sv48VA(Sv48VA(va_data)),
            StapMode::Sv57 => VAenume::Sv57VA(Sv57VA(va_data)),
            _ => VAenume::Sv39VA(Sv39VA(va_data)),
        }
    }

    /// The TLB lookup for `va` in the current address space.
    pub fn fast_path(&mut self, va: u64) -> (r: Option<TLBEntry>)
        ensures
            r == fast_path_of(tlb_entries(old(self).tlb), va, satp_asid(old(self).satp.0)),
            tlb_entries(final(self).tlb) == tlb_entries(old(self).tlb),
            tlb_capacity(final(self).tlb) == tlb_capacity(old(self).tlb),
            final(self).access_type == old(self).access_type,
            final(self).mstatus == old(self).mstatus && final(self).satp == old(self).satp,
            final(self).cur_priv == old(self).cur_priv && final(self).satp_mode == old(self).satp_mode,
            final(self).mmu_effective_priv == old(self).mmu_effective_priv,
    {
        let asid = self.satp.asid() as u16;
        let va_p2m = va & PageSize::P2M.get_mask();
        if let Some(entry) = tlb_get(&mut self.tlb, &TLBKey { va: va_p2m, asid }) {
            if entry.page_size == PageSize::P2M {
                self.tlb_hit = self.tlb_hit.wrapping_add(1);
                return Some(entry);
            }
        }
        let va_p4k = va & PageSize::P4K.get_mask();
        if let Some(entry) = tlb_get(&mut self.tlb, &TLBKey { va: va_p4k, asid }) {
            if entry.page_size == PageSize::P4K {
                self.tlb_hit = self.tlb_hit.wrapping_add(1);
                return Some(entry);
            }
        }
        let va_p1g = va & PageSize::P1G.get_mask();
        if let Some(entry) = tlb_get(&mut self.tlb, &TLBKey { va: va_p1g, asid }) {
            if entry.page_size == PageSize::P1G {
                self.tlb_hit = self.tlb_hit.wrapping_add(1);
                return Some(entry);
            }
        }
        self.tlb_miss = self.tlb_miss.wrapping_add(1);
        None
    }

    pub fn clear_tlb(&mut self)
        ensures
            tlb_entries(final(self).tlb) == Map::<TLBKey, TLBEntry>::empty(),
            tlb_capacity(final(self).tlb) == tlb_capacity(old(self).tlb),
            final(self).satp == old(self).satp && final(self).mstatus == old(self).mstatus,
            final(self).cur_priv == old(self).cur_priv && final(self).satp_mode == old(self).satp_mode,
            final(self).access_type == old(self).access_type,
            final(self).mmu_effective_priv == old(self).mmu_effective_priv,
    {
        tlb_clear(&mut self.tlb);
    }

    /// Walks the page tables for `va`, reading them through the bus, checks
    /// the leaf, and caches the translation when the TLB has room for any.
    pub fn page_table_walk<D: DeviceBase>(&mut self, va: u64, bus: &mut Bus<D>) -> (r: Result<u64, TrapType>)
        requires
            old(self).satp_mode == StapMode::Sv39 || old(self).satp_mode == StapMode::Sv48 || old(self).satp_mode == StapMode::Sv57,
        ensures
            exists|end: WalkEnd| #[trigger] walk_bus(*old(bus), *final(bus), va, walk_root(old(self).satp.0),
                (stap_levels(old(self).satp_mode) - 1) as u8, end)
                && r == walk_end_result(end, old(self).access_type, old(self).mmu_effective_priv, old(self).mstatus.0,
                    old(self).satp_mode, va)
                && (r is Ok ==> leaf_cached(*old(self), tlb_entries(final(self).tlb), end, va)),
            tlb_capacity(final(self).tlb) == tlb_capacity(old(self).tlb),
            forall|k: TLBKey| #[trigger] tlb_entries(final(self).tlb).dom().contains(k) && tlb_entries(old(self).tlb).dom().contains(k)
                && tlb_entries(final(self).tlb)[k] != tlb_entries(old(self).tlb)[k] ==> r is Ok,
            r is Err ==> tlb_entries(final(self).tlb) == tlb_entries(old(self).tlb),
            final(self).access_type == old(self).access_type,
            final(self).mstatus == old(self).mstatus && final(self).satp == old(self).satp,
            final(self).cur_priv == old(self).cur_priv && final(self).satp_mode == old(self).satp_mode,
            final(self).mmu_effective_priv == old(self).mmu_effective_priv,
    {
        let levels = self.satp_mode.get_levels();
        let ppn = self.satp.ppn();
        proof {
            lemma_field_lt(self.satp.0, 0, 44);
            assert((1u64 << 44u64) == 0x1000_0000_0000u64) by (bit_vector);
        }
        let a: u64 = ppn * PAGESIZE;
        let ghost ob = *bus;
        let end = walk_level(bus, va, a, levels - 1);
        assert(a == walk_root(self.satp.0));
        assert(walk_bus(ob, *bus, va, walk_root(self.satp.0), (stap_levels(self.satp_mode) - 1) as u8, end));
        let ghost eff = self.mmu_effective_priv;
        let (pte_raw, i) = match end {
            WalkEnd::AccessFault => {
                return Err(self.access_type.throw_access_exception());
            },
            WalkEnd::PageFault => {
                return Err(self.access_type.throw_exception());
            },
            WalkEnd::Leaf(p, l) => (p, l),
        };
        if i >= 3 {
            return Err(self.access_type.throw_exception());
        }
        let pte = self.get_pteops(pte_raw);
        let sum_bit = self.check_sum_bit(&pte);
        match self.access_type {
            AccessType::Fetch(_) => {
                if !pte.x() {
                    return Err(self.access_type.throw_exception());
                }
            },
            AccessType::Load(_) => {
                if !(pte.r() || (pte.x() && self.mstatus.mxr())) || !sum_bit {
                    return Err(self.access_type.throw_exception());
                }
            },
            _ => {
                if !pte.w() || !sum_bit {
                    return Err(self.access_type.throw_exception());
                }
            },
        }
        let mut j: u8 = 0;
        while j < i
            invariant
                0 <= j <= i,
                i < 3,
                i < levels,
                levels == stap_levels(self.satp_mode),
                self.satp_mode == StapMode::Sv39 || self.satp_mode == StapMode::Sv48 || self.satp_mode == StapMode::Sv57,
                pte.raw_bits() == pte_raw,
                pte == self.get_pteops_spec(pte_raw),
                forall|k: u8| k < j ==> #[trigger] field(pte_raw, (10 + 9 * k) as u64, 9) == 0,
                *self == *old(self),
                    ob == *old(bus),
                walk_bus(ob, *bus, va, walk_root(old(self).satp.0), (stap_levels(old(self).satp_mode) - 1) as u8, WalkEnd::Leaf(pte_raw, i)),
            decreases i - j,
        {
            if pte.get_ppn_by_idx(j) != 0 {
                assert(field(pte_raw, (10 + 9 * j) as u64, 9) != 0);
                return Err(self.access_type.throw_exception());
            }
            j = j + 1;
        }
        if !pte.a() || (!pte.d() && self.access_type.is_store()) {
            return Err(self.access_type.throw_exception());
        }
        let asid = self.satp.asid() as u16;
        let page_size = PageSize::from_i(i as usize);
        let va_ops = self.get_vaops(va);
        let tlb_key = TLBKey { va: va_ops.raw() & page_size.get_mask(), asid };
        let entry = TLBEntry::new(pte, page_size, asid);
        let pa = entry.get_pa(&va_ops);
        let pa_ops = self.get_paops(pa);
        let ghost t0 = tlb_entries(self.tlb);
        assert(asid == satp_asid(self.satp.0));
        assert(tlb_key == walk_tlb_key(va, i, asid));
        if !self.no_tlb() {
            tlb_insert(&mut self.tlb, tlb_key, entry);
            let _ = self.fast_path(va);
        }
        assert(tlb_cached(t0, tlb_entries(self.tlb), tlb_key, entry, tlb_capacity(old(self).tlb)));
        Ok(pa_ops.raw())
    }

    /// What translating an access of `len` bytes at virtual address `addr`
    /// of the kind recorded in `o` does: a misaligned access faults; with
    /// translation off the address is physical; a TLB hit is checked and
    /// used; a miss walks the page tables through the bus (Sv64 is not
    /// supported and faults). `n` and `nb` are the MMU and bus after.
    pub open spec fn translate_post<D: DeviceBase>(o: Self, n: Self, ob: Bus<D>, nb: Bus<D>, addr: u64, len: usize, r: Result<u64, TrapType>) -> bool {
        let eff = effective_priv(o.access_type, o.mstatus.0, o.cur_priv);
        let off = eff == PrivilegeLevels::Machine || o.satp_mode == StapMode::Bare;
        let hit = fast_path_of(tlb_entries(o.tlb), addr, satp_asid(o.satp.0));
        &&& tlb_capacity(n.tlb) == tlb_capacity(o.tlb)
        &&& n.access_type == o.access_type
        &&& n.mstatus == o.mstatus && n.satp == o.satp
        &&& n.cur_priv == o.cur_priv && n.satp_mode == o.satp_mode
        &&& r is Err ==> tlb_entries(n.tlb) == tlb_entries(o.tlb)
        &&& if !aligned(addr, len as int) {
            r == Err::<u64, TrapType>(misaligned_of(o.access_type)) && nb == ob
        } else if off {
            r == Ok::<u64, TrapType>(addr) && nb == ob
        } else if o.satp_mode == StapMode::Sv64 {
            r == Err::<u64, TrapType>(page_fault_of(o.access_type)) && nb == ob
        } else if tlb_capacity(o.tlb) > 0 && hit is Some {
            r == tlb_hit_result(hit->0, o.access_type, eff, o.mstatus.0, o.satp_mode, addr) && nb == ob
        } else {
            exists|end: WalkEnd| #[trigger] walk_bus(ob, nb, addr, walk_root(o.satp.0), (stap_levels(o.satp_mode) - 1) as u8, end)
                && r == walk_end_result(end, o.access_type, eff, o.mstatus.0, o.satp_mode, addr)
                && (r is Ok ==> leaf_cached(o, tlb_entries(n.tlb), end, addr))
        }
        &&& (off || !aligned(addr, len as int) || o.satp_mode == StapMode::Sv64 || (tlb_capacity(o.tlb) > 0 && hit is Some))
            ==> tlb_entries(n.tlb) == tlb_entries(o.tlb)
    }

    /// Translates an access of `len` bytes at virtual address `addr` of the
    /// kind last recorded (see `translate_post`).
    pub fn translate<D: DeviceBase>(&mut self, addr: u64, len: usize, bus: &mut Bus<D>) -> (r: Result<u64, TrapType>)
        requires
            mpp_defined(old(self).access_type, old(self).mstatus.0),
        ensures
            Self::translate_post(*old(self), *final(self), *old(bus), *final(bus), addr, len, r),
    {
        if !check_aligned(addr, len) {
            return Err(self.access_type.throw_addr_misaligned_exception());
        }
        if self.no_mmu() {
            return Ok(addr);
        }
        if self.satp_mode == StapMode::Sv64 {
            return Err(self.access_type.throw_exception());
        }
        if !self.no_tlb() {
            if let Some(tlb_entry) = self.fast_path(addr) {
                let pte = tlb_entry.pte;
                if !pte.v() || (!pte.r() && pte.w()) {
                    return Err(self.access_type.throw_exception());
                }
                let sum_bit = self.check_sum_bit(&pte);
                match self.access_type {
                    AccessType::Fetch(_) => {
                        if !pte.x() {
                            return Err(self.access_type.throw_exception());
                        }
                    },
                    AccessType::Load(_) => {
                        if !(pte.r() || (pte.x() && self.mstatus.mxr())) || !sum_bit {
                            return Err(self.access_type.throw_exception());
                        }
                    },
                    _ => {
                        if !pte.w() || !sum_bit {
                            return Err(self.access_type.throw_exception());
                        }
                    },
                }
                if !pte.a() || (!pte.d() && self.access_type.is_store()) {
                    return Err(self.access_type.throw_exception());
                }
                let va = self.get_vaops(addr);
                return Ok(tlb_entry.get_pa(&va));
            }
        }
        self.page_table_walk(addr, bus)
    }

    /// What a fence of address `va` in address space `asid` does to the MMU
    /// `o` (see `fence_vma`); only the TLB changes.
    pub open spec fn fence_post(o: Self, n: Self, va: u64, asid: u16) -> bool {
        let t0 = tlb_entries(o.tlb);
        let t1 = tlb_entries(n.tlb);
        &&& tlb_capacity(n.tlb) == tlb_capacity(o.tlb)
        &&& n.satp == o.satp && n.mstatus == o.mstatus
        &&& n.cur_priv == o.cur_priv && n.satp_mode == o.satp_mode
        &&& n.access_type == o.access_type && n.mmu_effective_priv == o.mmu_effective_priv
        &&& if va == 0 && asid == 0 {
            t1 == Map::<TLBKey, TLBEntry>::empty()
        } else if va == 0 {
            t1 == t0.restrict(Set::new(|k: TLBKey| !fence_by_asid(t0, k, asid)))
        } else if exists|k: TLBKey| fence_by_va(t0, k, va, asid) {
            exists|k: TLBKey| fence_by_va(t0, k, va, asid) && t1 == t0.remove(k)
        } else {
            t1 == t0
        }
    }

    /// `sfence.vma`: with no address and no address space the TLB is
    /// emptied; with only an address space its non-global translations go;
    /// with an address, one translation of the page holding it goes (in that
    /// address space and not global, when one is named).
    pub fn fence_vma(&mut self, va: u64, asid: u16)
        ensures
            Self::fence_post(*old(self), *final(self), va, asid),
    {
        if va == 0 && asid == 0 {
            self.clear_tlb();
            return;
        }
        let items = tlb_items(&self.tlb);
        let ghost t0 = tlb_entries(self.tlb);
        if va == 0 {
            let mut i: usize = 0;
            while i < items.len()
                invariant
                    0 <= i <= items@.len(),
                    items@.len() == t0.len(),
                    forall|n: int| 0 <= n < items@.len() ==> t0.dom().contains(#[trigger] items@[n].0) && t0[items@[n].0] == items@[n].1,
                    forall|n: int, m: int| 0 <= n < m < items@.len() ==> #[trigger] items@[n].0 != #[trigger] items@[m].0,
                    forall|k: TLBKey| #[trigger] t0.dom().contains(k) ==> exists|n: int| 0 <= n < items@.len() && items@[n].0 == k,
                    tlb_entries(self.tlb) == t0.restrict(Set::new(|k: TLBKey|
                        !(exists|n: int| 0 <= n < i && items@[n].0 == k && fence_by_asid(t0, k, asid)))),
                    tlb_capacity(self.tlb) == tlb_capacity(old(self).tlb),
                    self.satp == old(self).satp && self.mstatus == old(self).mstatus,
                    self.cur_priv == old(self).cur_priv && self.satp_mode == old(self).satp_mode,
                    self.access_type == old(self).access_type,
                    self.mmu_effective_priv == old(self).mmu_effective_priv,
                            t0 == tlb_entries(old(self).tlb),
                decreases items@.len() - i,
            {
                let (k, e) = items[i];
                if e.asid == asid && !e.pte.g() {
                    tlb_remove(&mut self.tlb, &k);
                }
                proof {
                    let s_new = Set::new(|kk: TLBKey| !(exists|n: int| 0 <= n < i + 1 && items@[n].0 == kk && fence_by_asid(t0, kk, asid)));
                    assert(tlb_entries(self.tlb) =~= t0.restrict(s_new));
                }
                i = i + 1;
            }
            proof {
                assert(tlb_entries(self.tlb) =~= t0.restrict(Set::new(|k: TLBKey| !fence_by_asid(t0, k, asid))));
            }
        } else {
            let mut i: usize = 0;
            let mut found = false;
            while i < items.len() && !found
                invariant
                    0 <= i <= items@.len(),
                    forall|n: int| 0 <= n < items@.len() ==> t0.dom().contains(#[trigger] items@[n].0) && t0[items@[n].0] == items@[n].1,
                    forall|k: TLBKey| #[trigger] t0.dom().contains(k) ==> exists|n: int| 0 <= n < items@.len() && items@[n].0 == k,
                    !found ==> forall|n: int| 0 <= n < i ==> !fence_by_va(t0, #[trigger] items@[n].0, va, asid),
                    !found ==> tlb_entries(self.tlb) == t0,
                    found ==> exists|k: TLBKey| fence_by_va(t0, k, va, asid) && tlb_entries(self.tlb) == t0.remove(k),
                    tlb_capacity(self.tlb) == tlb_capacity(old(self).tlb),
                    self.satp == old(self).satp && self.mstatus == old(self).mstatus,
                    self.cur_priv == old(self).cur_priv && self.satp_mode == old(self).satp_mode,
                    self.access_type == old(self).access_type,
                    self.mmu_effective_priv == old(self).mmu_effective_priv,
                            t0 == tlb_entries(old(self).tlb),
                decreases items@.len() - i + (if found { 0int } else { 1int }),
            {
                let (k, e) = items[i];
                assert(t0.dom().contains(k));
                let sized = match e.page_size {
                    PageSize::P4K | PageSize::P2M | PageSize::P1G => true,
                    _ => false,
                };
                let matches = if !sized {
                    false
                } else if asid == 0 {
                    k.va == (e.page_size.get_mask() & va)
                } else {
                    k.asid == asid && k.va == (e.page_size.get_mask() & va) && !e.pte.g()
                };
                if matches {
                    tlb_remove(&mut self.tlb, &k);
                    found = true;
                    assert(fence_by_va(t0, k, va, asid));
                } else {
                    i = i + 1;
                }
            }
            proof {
                if !found {
                    assert forall|k: TLBKey| !fence_by_va(t0, k, va, asid) by {
                        if t0.dom().contains(k) {
                            let n = choose|n: int| 0 <= n < items@.len() && items@[n].0 == k;
                            assert(!fence_by_va(t0, items@[n].0, va, asid));
                        }
                    }
                }
            }
        }
    }
}

/// A page table walk that ends at leaf `p` translates an access only when
/// the entry allows it: a store or AMO needs W and the accessed and dirty
/// bits, a fetch X, a load R (or X with `mstatus.MXR`), each the accessed
/// bit; a store or AMO through an entry without W is a store page fault, and
/// so is any access by S-mode to a user page without `mstatus.SUM` other than
/// a fetch.
pub proof fn lemma_walk_leaf_permissions(p: u64, i: u8, x: u64, eff: PrivilegeLevels, mstatus: u64, m: StapMode, va: u64)
    ensures
        walk_end_result(WalkEnd::Leaf(p, i), AccessType::Store(x), eff, mstatus, m, va) is Ok
            ==> flag(p, 2) && flag(p, 6) && flag(p, 7),
        walk_end_result(WalkEnd::Leaf(p, i), AccessType::Amo(x), eff, mstatus, m, va) is Ok
            ==> flag(p, 2) && flag(p, 6) && flag(p, 7),
        !flag(p, 2) ==> walk_end_result(WalkEnd::Leaf(p, i), AccessType::Store(x), eff, mstatus, m, va)
            == Err::<u64, TrapType>(TrapType::StorePageFault(x)),
        !flag(p, 2) ==> walk_end_result(WalkEnd::Leaf(p, i), AccessType::Amo(x), eff, mstatus, m, va)
            == Err::<u64, TrapType>(TrapType::StorePageFault(x)),
        walk_end_result(WalkEnd::Leaf(p, i), AccessType::Fetch(x), eff, mstatus, m, va) is Ok
            ==> flag(p, 3) && flag(p, 6),
        walk_end_result(WalkEnd::Leaf(p, i), AccessType::Load(x), eff, mstatus, m, va) is Ok
            ==> (flag(p, 1) || (flag(p, 3) && flag(mstatus, 19))) && flag(p, 6),
        eff == PrivilegeLevels::Supervisor && flag(p, 4) && !flag(mstatus, 18)
            ==> walk_end_result(WalkEnd::Leaf(p, i), AccessType::Load(x), eff, mstatus, m, va) is Err
            && walk_end_result(WalkEnd::Leaf(p, i), AccessType::Store(x), eff, mstatus, m, va) is Err,
        walk_end_result(WalkEnd::Leaf(p, i), AccessType::Load(x), eff, mstatus, m, va) is Ok ==> i < 3
            && forall|j: u8| j < i ==> #[trigger] field(p, (10 + 9 * j) as u64, 9) == 0,
{
}

/// A walk ends at a leaf only on a valid entry with R or X set that is not
/// writable without being readable, found at or below the level it started.
pub proof fn lemma_walk_leaf_valid<D: DeviceBase>(ob: Bus<D>, nb: Bus<D>, va: u64, a: u64, i: u8, p: u64, l: u8)
    requires
        walk_bus(ob, nb, va, a, i, WalkEnd::Leaf(p, l)),
    ensures
        flag(p, 0),
        flag(p, 1) || flag(p, 3),
        !(flag(p, 2) && !flag(p, 1)),
        l <= i,
    decreases i,
{
    let addr = (a + vpn_of(va, i) * 8) as u64;
    if bus_read_ok(ob, addr, 8) {
        let end = WalkEnd::Leaf(p, l);
        let (mb, r) = choose|mb: Bus<D>, r: Result<u64, RVerr>| #[trigger] bus_read_post(ob, mb, addr, 8, r) && match r {
            Err(_) => nb == mb && end == WalkEnd::AccessFault,
            Ok(q) => if !flag(q, 0) || (!flag(q, 1) && flag(q, 2)) {
                nb == mb && end == WalkEnd::PageFault
            } else if flag(q, 1) || flag(q, 3) {
                nb == mb && end == WalkEnd::Leaf(q, i)
            } else if i == 0 {
                nb == mb && end == WalkEnd::PageFault
            } else {
                walk_bus(mb, nb, va, (pte_ppn_all(q) * PAGESIZE) as u64, (i - 1) as u8, end)
            },
        };
        match r {
            Ok(q) => {
                if flag(q, 0) && !(!flag(q, 1) && flag(q, 2)) && !(flag(q, 1) || flag(q, 3)) && i != 0 {
                    lemma_walk_leaf_valid(mb, nb, va, (pte_ppn_all(q) * PAGESIZE) as u64, (i - 1) as u8, p, l);
                }
            },
            Err(_) => {},
        }
    }
}

/// A translation through a TLB entry obeys the same checks as one through a
/// walk, on the entry the TLB holds, and also needs it valid.
pub proof fn lemma_tlb_hit_permissions(e: TLBEntry, x: u64, eff: PrivilegeLevels, mstatus: u64, m: StapMode, va: u64)
    ensures
        ({
            let p = e.pte.raw_bits();
            &&& tlb_hit_result(e, AccessType::Store(x), eff, mstatus, m, va) is Ok
                ==> flag(p, 0) && flag(p, 2) && flag(p, 6) && flag(p, 7)
            &&& tlb_hit_result(e, AccessType::Amo(x), eff, mstatus, m, va) is Ok
                ==> flag(p, 0) && flag(p, 2) && flag(p, 6) && flag(p, 7)
            &&& !flag(p, 2) ==> tlb_hit_result(e, AccessType::Store(x), eff, mstatus, m, va)
                == Err::<u64, TrapType>(TrapType::StorePageFault(x))
            &&& !flag(p, 2) ==> tlb_hit_result(e, AccessType::Amo(x), eff, mstatus, m, va)
                == Err::<u64, TrapType>(TrapType::StorePageFault(x))
            &&& tlb_hit_result(e, AccessType::Fetch(x), eff, mstatus, m, va) is Ok
                ==> flag(p, 0) && flag(p, 3) && flag(p, 6)
            &&& tlb_hit_result(e, AccessType::Load(x), eff, mstatus, m, va) is Ok
                ==> flag(p, 0) && (flag(p, 1) || (flag(p, 3) && flag(mstatus, 19))) && flag(p, 6)
        }),
{
}

/// A store or AMO that translation lets through with paging on went through
/// a writable entry: the TLB entry it hit, or the leaf its walk reached.
pub proof fn lemma_translated_store_is_writable<D: DeviceBase>(o: Mmu, n: Mmu, ob: Bus<D>, nb: Bus<D>, addr: u64, len: usize, r: Result<u64, TrapType>)
    requires
        Mmu::translate_post(o, n, ob, nb, addr, len, r),
        o.access_type is Store || o.access_type is Amo,
        effective_priv(o.access_type, o.mstatus.0, o.cur_priv) != PrivilegeLevels::Machine,
        o.satp_mode != StapMode::Bare,
        r is Ok,
    ensures
        (tlb_capacity(o.tlb) > 0 && fast_path_of(tlb_entries(o.tlb), addr, satp_asid(o.satp.0)) is Some
            && flag(fast_path_of(tlb_entries(o.tlb), addr, satp_asid(o.satp.0))->0.pte.raw_bits(), 2))
        || (exists|p: u64, i: u8| #[trigger] walk_bus(ob, nb, addr, walk_root(o.satp.0),
            (stap_levels(o.satp_mode) - 1) as u8, WalkEnd::Leaf(p, i)) && flag(p, 2)),
{
    let eff = effective_priv(o.access_type, o.mstatus.0, o.cur_priv);
    let hit = fast_path_of(tlb_entries(o.tlb), addr, satp_asid(o.satp.0));
    let x = match o.access_type {
        AccessType::Store(x) => x,
        AccessType::Amo(x) => x,
        _ => 0,
    };
    if tlb_capacity(o.tlb) > 0 && hit is Some {
        lemma_tlb_hit_permissions(hit->0, x, eff, o.mstatus.0, o.satp_mode, addr);
    } else {
        let end = choose|end: WalkEnd| #[trigger] walk_bus(ob, nb, addr, walk_root(o.satp.0),
            (stap_levels(o.satp_mode) - 1) as u8, end)
            && r == walk_end_result(end, o.access_type, eff, o.mstatus.0, o.satp_mode, addr)
            && (r is Ok ==> leaf_cached(o, tlb_entries(n.tlb), end, addr));
        match end {
            WalkEnd::Leaf(p, i) => {
                lemma_walk_leaf_permissions(p, i, x, eff, o.mstatus.0, o.satp_mode, addr);
            },
            _ => {},
        }
    }
}

} // verus!
