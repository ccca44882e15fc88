//! Build-time configuration of a hart: cache and TLB sizes, the translation
//! mode, and the enabled ISA extensions.
use vstd::prelude::*;
use vstd::string::StringSliceAdditionalSpecFns;
use crate::rv64core::csr_regs_define::StapMode;

verus! {

/// The extensions this emulator implements: i, m, a, c.
pub open spec fn implemented_isa(b: u8) -> bool {
    b == 0x69 || b == 0x6d || b == 0x61 || b == 0x63
}

/// The ASCII lower-case form of byte `b`.
pub open spec fn ascii_lower(b: u8) -> u8 {
    if 0x41 <= b <= 0x5a { (b + 0x20) as u8 } else { b }
}

/// The ASCII lower-case form of `s`.
pub open spec fn ascii_lower_seq(s: Seq<u8>) -> Seq<u8> {
    Seq::new(s.len(), |i: int| ascii_lower(s[i]))
}

/// The flags of the implemented extensions named by `s`: bit `b - 'a'` for each.
pub open spec fn isa_flags_of(s: Seq<u8>) -> u32
    decreases s.len(),
{
    if s.len() == 0 {
        0
    } else {
        let rest = isa_flags_of(s.drop_last());
        let b = s.last();
        if implemented_isa(b) { rest | (1u32 << ((b - 0x61) as u32)) } else { rest }
    }
}

/// The translation modes a configuration can name, by their lower-case names.
pub open spec fn mmu_type_named(s: Seq<u8>) -> Option<StapMode> {
    if s == seq![0x62u8, 0x61, 0x72, 0x65] {
        Some(StapMode::Bare)
    } else if s == seq![0x73u8, 0x76, 0x33, 0x39] {
        Some(StapMode::Sv39)
    } else if s == seq![0x73u8, 0x76, 0x34, 0x38] {
        Some(StapMode::Sv48)
    } else if s == seq![0x73u8, 0x76, 0x35, 0x37] {
        Some(StapMode::Sv57)
    } else {
        None
    }
}

pub struct Config {
    pub icache_size: Option<usize>,
    pub dcache_size: Option<usize>,
    pub decode_cache_size: Option<usize>,
    pub tlb_size: Option<usize>,
    pub mmu_type: StapMode,
    pub isa_falgs: u32,
}

impl Default for Config {
    fn default() -> (r: Self)
        ensures
            r.icache_size is None && r.dcache_size is None && r.decode_cache_size is None && r.tlb_size is None,
            r.mmu_type == StapMode::Bare,
            r.isa_falgs == 0,
    {
        Config {
            icache_size: None,
            dcache_size: None,
            decode_cache_size: None,
            tlb_size: None,
            mmu_type: StapMode::Bare,
            isa_falgs: 0,
        }
    }
}

/// Whether `s` equals `lit` when `s` is read in ASCII lower case.
fn lower_eq(s: &[u8], lit: &[u8]) -> (r: bool)
    ensures
        r == (ascii_lower_seq(s@) == lit@),
{
    if s.len() != lit.len() {
        assert(ascii_lower_seq(s@).len() != lit@.len());
        return false;
    }
    let mut i: usize = 0;
    while i < s.len()
        invariant
            0 <= i <= s@.len(),
            s@.len() == lit@.len(),
            forall|j: int| 0 <= j < i ==> ascii_lower(s@[j]) == lit@[j],
        decreases s@.len() - i,
    {
        let b = s[i];
        let lb = if 0x41 <= b && b <= 0x5a { b + 0x20 } else { b };
        if lb != lit[i] {
            assert(ascii_lower_seq(s@)[i as int] != lit@[i as int]);
            return false;
        }
        i = i + 1;
    }
    assert(ascii_lower_seq(s@) == lit@);
    true
}

impl Config {
    pub fn new() -> (r: Self)
        ensures
            r.icache_size is None && r.dcache_size is None && r.decode_cache_size is None && r.tlb_size is None,
            r.mmu_type == StapMode::Bare,
            r.isa_falgs == 0,
    {
        Config::default()
    }

    pub fn set_icache_size(&mut self, size: usize)
        ensures
            *final(self) == (Config { icache_size: Some(size), ..*old(self) }),
    {
        self.icache_size = Some(size);
    }

    pub fn set_dcache_size(&mut self, size: usize)
        ensures
            *final(self) == (Config { dcache_size: Some(size), ..*old(self) }),
    {
        self.dcache_size = Some(size);
    }

    pub fn set_decode_cache_size(&mut self, size: usize)
        ensures
            *final(self) == (Config { decode_cache_size: Some(size), ..*old(self) }),
    {
        self.decode_cache_size = Some(size);
    }

    pub fn set_tlb_size(&mut self, size: usize)
        ensures
            *final(self) == (Config { tlb_size: Some(size), ..*old(self) }),
    {
        self.tlb_size = Some(size);
    }

    /// Sets the translation mode by name ("bare", "sv39", "sv48", "sv57",
    /// letters in either ASCII case); the name must be one of these.
    pub fn set_mmu_type(&mut self, mmu_type: &str)
        requires
            mmu_type_named(ascii_lower_seq(mmu_type.spec_bytes())) is Some,
        ensures
            *final(self) == (Config { mmu_type: mmu_type_named(ascii_lower_seq(mmu_type.spec_bytes()))->0, ..*old(self) }),
    {
        let s = mmu_type.as_bytes();
        let bare: [u8; 4] = [0x62, 0x61, 0x72, 0x65];
        let sv39: [u8; 4] = [0x73, 0x76, 0x33, 0x39];
        let sv48: [u8; 4] = [0x73, 0x76, 0x34, 0x38];
        let sv57: [u8; 4] = [0x73, 0x76, 0x35, 0x37];
        assert(bare@ == seq![0x62u8, 0x61, 0x72, 0x65]);
        assert(sv39@ == seq![0x73u8, 0x76, 0x33, 0x39]);
        assert(sv48@ == seq![0x73u8, 0x76, 0x34, 0x38]);
        assert(sv57@ == seq![0x73u8, 0x76, 0x35, 0x37]);
        if lower_eq(s, bare.as_slice()) {
            self.mmu_type = StapMode::Bare;
        } else if lower_eq(s, sv39.as_slice()) {
            self.mmu_type = StapMode::Sv39;
        } else if lower_eq(s, sv48.as_slice()) {
            self.mmu_type = StapMode::Sv48;
        } else {
            self.mmu_type = StapMode::Sv57;
        }
    }

    /// Enables the implemented extensions named after the "rv64" prefix of
    /// `isa_str` (letters in either ASCII case); the prefix must be there.
    pub fn set_isa(&mut self, isa_str: &str)
        requires
            isa_str.spec_bytes().len() >= 4,
            ascii_lower_seq(isa_str.spec_bytes()).subrange(0, 4) == seq![0x72u8, 0x76, 0x36, 0x34],
        ensures
            *final(self) == (Config {
                isa_falgs: old(self).isa_falgs | isa_flags_of(ascii_lower_seq(isa_str.spec_bytes()).subrange(4, isa_str.spec_bytes().len() as int)),
                ..*old(self)
            }),
    {
        let s = isa_str.as_bytes();
        let ghost low = ascii_lower_seq(s@);
        let mut flags: u32 = 0;
        let mut i: usize = 4;
        while i < s.len()
            invariant
                4 <= i <= s@.len(),
                low == ascii_lower_seq(s@),
                flags == isa_flags_of(low.subrange(4, i as int)),
            decreases s@.len() - i,
        {
            let b = s[i];
            let lb = if 0x41 <= b && b <= 0x5a { b + 0x20 } else { b };
            assert(low.subrange(4, i + 1).drop_last() == low.subrange(4, i as int));
            assert(low.subrange(4, i + 1).last() == lb);
            if lb == 0x69 || lb == 0x6d || lb == 0x61 || lb == 0x63 {
                flags = flags | (1u32 << (lb - 0x61) as u32);
            }
            i = i + 1;
        }
        self.isa_falgs = self.isa_falgs | flags;
    }

    /// Whether extension `isa` (a letter 'a'..) is enabled.
    pub fn is_enable_isa(&self, isa: u8) -> (r: bool)
        requires
            0x61 <= isa < 0x61 + 32,
        ensures
            r == (self.isa_falgs & (1u32 << ((isa - 0x61) as u32)) != 0),
    {
        let idx = (isa - 0x61) as u32;
        self.isa_falgs & (1u32 << idx) != 0
    }

    pub fn get_mmu_type(&self) -> (r: StapMode)
        ensures
            r == self.mmu_type,
    {
        self.mmu_type
    }

    pub fn icache_size(&self) -> (r: Option<usize>)
        ensures
            r == self.icache_size,
    {
        self.icache_size
    }

    pub fn dcache_size(&self) -> (r: Option<usize>)
        ensures
            r == self.dcache_size,
    {
        self.dcache_size
    }

    pub fn decode_cache_size(&self) -> (r: Option<usize>)
        ensures
            r == self.decode_cache_size,
    {
        self.decode_cache_size
    }

    pub fn tlb_size(&self) -> (r: Option<usize>)
        ensures
            r == self.tlb_size,
    {
        self.tlb_size
    }
}

} // verus!
