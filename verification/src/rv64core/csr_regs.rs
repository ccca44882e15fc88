//! The CSRs of a hart by address: the register file behind them, the table
//! of views, and the access checks of CSR instructions.
use vstd::prelude::*;
use super::csr_regs_define::{
    CommonCSR, Counter, Csr, CsrEnum, CsrFile, CsrShare, Medeleg, Misa, ReadOnlyCSR, Satp, Xcause, Xie, Xip,
    Xstatus, Xtvec,
};
use super::inst_base::{AccessType, PrivilegeLevels, CSR_CYCLE, CSR_DCSR, CSR_DPC, CSR_INSTRET, CSR_MARCHID, CSR_MCAUSE,
    CSR_MCOUNTEREN, CSR_MCYCLE, CSR_MEDELEG, CSR_MEPC, CSR_MHARTID, CSR_MIDELEG, CSR_MIE, CSR_MIMPID, CSR_MINSTRET, CSR_MIP,
    CSR_MISA, CSR_MSCRATCH, CSR_MSTATUS, CSR_MTVAL, CSR_MTVEC, CSR_MVENDORID, CSR_SATP, CSR_SCAUSE, CSR_SCOUNTEREN, CSR_SEPC,
    CSR_SIE, CSR_SIP, CSR_SSCRATCH, CSR_SSTATUS, CSR_STVAL, CSR_STVEC, CSR_TIME, CSR_TSELECT, MASK_ALL};
use super::traptype::TrapType;

verus! {

pub const SLOT_XSTATUS: usize = 0;
pub const SLOT_XIP: usize = 1;
pub const SLOT_XIE: usize = 2;
pub const SLOT_MCAUSE: usize = 3;
pub const SLOT_SCAUSE: usize = 4;
pub const SLOT_MTVEC: usize = 5;
pub const SLOT_STVEC: usize = 6;
pub const SLOT_MEDELEG: usize = 7;
pub const SLOT_MIDELEG: usize = 8;
pub const SLOT_MEPC: usize = 9;
pub const SLOT_SEPC: usize = 10;
pub const SLOT_MTVAL: usize = 11;
pub const SLOT_STVAL: usize = 12;
pub const SLOT_SATP: usize = 13;
pub const SLOT_CYCLE: usize = 14;
pub const SLOT_INSTRET: usize = 15;
pub const SLOT_MCOUNTEREN: usize = 16;
pub const SLOT_SCOUNTEREN: usize = 17;
pub const SLOT_MARCHID: usize = 18;
pub const SLOT_MVENDORID: usize = 19;
pub const SLOT_MIMPID: usize = 20;
pub const SLOT_MSCRATCH: usize = 21;
pub const SLOT_SSCRATCH: usize = 22;
pub const SLOT_DCSR: usize = 23;
pub const SLOT_DPC: usize = 24;
/// The hart's copy of the CLINT's `mtime`, which the `time` CSR reads.
pub const SLOT_TIME: usize = 25;

/// The number of registers in the file.
pub const CSR_SLOTS: usize = 26;

/// `misa` of this hart: RV64 (MXL 2) with I, M, A, C and S-mode.
pub const MISA_INIT: u64 = 0x8000_0000_0004_1105;
/// `mstatus` at reset: UXL and SXL are 2 (64-bit).
pub const MSTATUS_INIT: u64 = 0xa_0000_0000;
/// The bits of `mstatus` a write through `mstatus` may change: all but UXL.
pub const MSTATUS_WMASK: u64 = 0xffff_fffc_ffff_ffff;
/// The bits of `mstatus` a write through `sstatus` may change: SIE, SPIE,
/// UBE, SPP, VS, FS, XS, SUM, MXR, SD.
pub const SSTATUS_WMASK: u64 = 0x8000_0000_000d_e762;
/// The interrupt bits S-mode sees in `sip` and `sie`: SSI, STI, SEI.
pub const SIP_MASK: u64 = 0x222;

/// The table of CSRs by address, held in a hash map.
#[verifier::external_body]
pub struct CsrMap {
    map: hashbrown::HashMap<u64, CsrEnum>,
}

/// The table with no entries.
pub open spec fn empty_csr_map() -> Map<u64, CsrEnum> {
    Map::empty()
}

/// The entries of a CSR table.
pub uninterp spec fn csr_map_entries(m: CsrMap) -> Map<u64, CsrEnum>;

impl CsrMap {
    /// `hashbrown::HashMap::new`: an empty table.
    #[verifier::external_body]
    pub fn new() -> (m: CsrMap)
        ensures
            csr_map_entries(m) == empty_csr_map(),
    {
        CsrMap { map: hashbrown::HashMap::new() }
    }

    /// `hashbrown::HashMap::insert`: maps `k` to `v`, replacing an earlier entry.
    #[verifier::external_body]
    pub fn insert(&mut self, k: u64, v: CsrEnum)
        ensures
            csr_map_entries(*final(self)) == csr_map_entries(*old(self)).insert(k, v),
    {
        self.map.insert(k, v);
    }

    /// `hashbrown::HashMap::get`: the entry of `k`, if there is one.
    #[verifier::external_body]
    pub fn get(&self, k: &u64) -> (r: Option<&CsrEnum>)
        ensures
            r is Some <==> csr_map_entries(*self).dom().contains(*k),
            r is Some ==> *r->0 == csr_map_entries(*self)[*k],
    {
        self.map.get(k)
    }
}

/// The CSR table a hart starts with.
pub open spec fn initial_csr_map(hart_id: usize) -> Map<u64, CsrEnum> {
    map![
        CSR_MISA => CsrEnum::Misa(Misa(MISA_INIT)),
        CSR_MHARTID => CsrEnum::ReadOnlyCSR(ReadOnlyCSR(hart_id as u64)),
        CSR_MARCHID => CsrEnum::CommonCSR(CommonCSR { inner: SLOT_MARCHID }),
        CSR_MVENDORID => CsrEnum::CommonCSR(CommonCSR { inner: SLOT_MVENDORID }),
        CSR_MIMPID => CsrEnum::CommonCSR(CommonCSR { inner: SLOT_MIMPID }),
        CSR_MSTATUS => CsrEnum::Xstatus(Xstatus { inner: SLOT_XSTATUS, rmask: MASK_ALL, wmask: MSTATUS_WMASK }),
        CSR_SSTATUS => CsrEnum::Xstatus(Xstatus { inner: SLOT_XSTATUS, rmask: MASK_ALL, wmask: SSTATUS_WMASK }),
        CSR_MIP => CsrEnum::Xip(Xip { inner: SLOT_XIP, mask: MASK_ALL }),
        CSR_SIP => CsrEnum::Xip(Xip { inner: SLOT_XIP, mask: SIP_MASK }),
        CSR_MIE => CsrEnum::Xie(Xie { inner: SLOT_XIE, mask: MASK_ALL }),
        CSR_SIE => CsrEnum::Xie(Xie { inner: SLOT_XIE, mask: SIP_MASK }),
        CSR_MCAUSE => CsrEnum::Xcause(Xcause { inner: SLOT_MCAUSE }),
        CSR_SCAUSE => CsrEnum::Xcause(Xcause { inner: SLOT_SCAUSE }),
        CSR_MTVEC => CsrEnum::Xtvec(Xtvec { inner: SLOT_MTVEC }),
        CSR_STVEC => CsrEnum::Xtvec(Xtvec { inner: SLOT_STVEC }),
        CSR_MEDELEG => CsrEnum::Medeleg(Medeleg { inner: SLOT_MEDELEG }),
        CSR_MIDELEG => CsrEnum::Xip(Xip { inner: SLOT_MIDELEG, mask: MASK_ALL }),
        CSR_MEPC => CsrEnum::CommonCSR(CommonCSR { inner: SLOT_MEPC }),
        CSR_SEPC => CsrEnum::CommonCSR(CommonCSR { inner: SLOT_SEPC }),
        CSR_MTVAL => CsrEnum::CommonCSR(CommonCSR { inner: SLOT_MTVAL }),
        CSR_STVAL => CsrEnum::CommonCSR(CommonCSR { inner: SLOT_STVAL }),
        CSR_SATP => CsrEnum::Satp(Satp { inner: SLOT_SATP, xstatus: SLOT_XSTATUS }),
        CSR_MSCRATCH => CsrEnum::CommonCSR(CommonCSR { inner: SLOT_MSCRATCH }),
        CSR_SSCRATCH => CsrEnum::CommonCSR(CommonCSR { inner: SLOT_SSCRATCH }),
        CSR_MCYCLE => CsrEnum::Counter(Counter { inner: SLOT_CYCLE }),
        CSR_CYCLE => CsrEnum::Counter(Counter { inner: SLOT_CYCLE }),
        CSR_MINSTRET => CsrEnum::Counter(Counter { inner: SLOT_INSTRET }),
        CSR_INSTRET => CsrEnum::Counter(Counter { inner: SLOT_INSTRET }),
        CSR_MCOUNTEREN => CsrEnum::CommonCSR(CommonCSR { inner: SLOT_MCOUNTEREN }),
        CSR_SCOUNTEREN => CsrEnum::CommonCSR(CommonCSR { inner: SLOT_SCOUNTEREN }),
        CSR_TSELECT => CsrEnum::ReadOnlyCSR(ReadOnlyCSR(u64::MAX)),
        CSR_DCSR => CsrEnum::CommonCSR(CommonCSR { inner: SLOT_DCSR }),
        CSR_DPC => CsrEnum::CommonCSR(CommonCSR { inner: SLOT_DPC }),
    ]
}

/// The register file a hart starts with: `mstatus` holds its reset value,
/// every other register 0.
pub open spec fn initial_csr_file() -> Seq<u64> {
    Seq::new(CSR_SLOTS as nat, |i: int| if i == SLOT_XSTATUS { MSTATUS_INIT } else { 0u64 })
}

pub struct CsrRegs {
    pub csr_map: CsrMap,
    pub file: CsrFile,
    pub cur_priv: PrivilegeLevels,
    pub xstatus: CsrShare,
    pub xip: CsrShare,
    pub xie: CsrShare,
    pub mtvec: CsrShare,
    pub stvec: CsrShare,
    pub mcause: CsrShare,
    pub scause: CsrShare,
    pub medeleg: CsrShare,
    pub mideleg: CsrShare,
    pub mepc: CsrShare,
    pub sepc: CsrShare,
    pub satp: CsrShare,
    pub mtval: CsrShare,
    pub stval: CsrShare,
    pub cycle: CsrShare,
    pub instret: CsrShare,
    pub dcsr: CsrShare,
    pub dpc: CsrShare,
}

/// Every view of the table reaches registers of the file.
pub open spec fn csr_regs_wf(m: Map<u64, CsrEnum>, n: nat) -> bool {
    forall|k: u64| #[trigger] m.dom().contains(k) ==> m[k].fits(n)
}

impl CsrRegs {
    pub open spec fn entries(&self) -> Map<u64, CsrEnum> {
        csr_map_entries(self.csr_map)
    }

    pub open spec fn wf(&self) -> bool {
        csr_regs_wf(self.entries(), self.file@.len())
    }

    /// The CSRs of hart `hart_id` at reset.
    pub fn new(hart_id: usize) -> (r: Self)
        ensures
            r.entries() == initial_csr_map(hart_id),
            r.file@ == initial_csr_file(),
            r.wf(),
            r.cur_priv == PrivilegeLevels::Machine,
            r.xstatus == SLOT_XSTATUS,
            r.xip == SLOT_XIP,
            r.xie == SLOT_XIE,
            r.mtvec == SLOT_MTVEC,
            r.stvec == SLOT_STVEC,
            r.mcause == SLOT_MCAUSE,
            r.scause == SLOT_SCAUSE,
            r.medeleg == SLOT_MEDELEG,
            r.mideleg == SLOT_MIDELEG,
            r.mepc == SLOT_MEPC,
            r.sepc == SLOT_SEPC,
            r.satp == SLOT_SATP,
            r.mtval == SLOT_MTVAL,
            r.stval == SLOT_STVAL,
            r.cycle == SLOT_CYCLE,
            r.instret == SLOT_INSTRET,
            r.dcsr == SLOT_DCSR,
            r.dpc == SLOT_DPC,
    {
        let mut file = CsrFile::new();
        let mut i: usize = 0;
        while i < CSR_SLOTS
            invariant
                0 <= i <= CSR_SLOTS,
                file@.len() == i,
                forall|j: int| 0 <= j < i ==> #[trigger] file@[j] == initial_csr_file()[j],
            decreases CSR_SLOTS - i,
        {
            let v = if i == SLOT_XSTATUS { MSTATUS_INIT } else { 0u64 };
            file.add_register(v);
            i = i + 1;
        }
        assert(file@ == initial_csr_file());
        let mut csr_map = CsrMap::new();
        csr_map.insert(CSR_MISA, CsrEnum::Misa(Misa(MISA_INIT)));
        csr_map.insert(CSR_MHARTID, CsrEnum::ReadOnlyCSR(ReadOnlyCSR(hart_id as u64)));
        csr_map.insert(CSR_MARCHID, CsrEnum::CommonCSR(CommonCSR { inner: SLOT_MARCHID }));
        csr_map.insert(CSR_MVENDORID, CsrEnum::CommonCSR(CommonCSR { inner: SLOT_MVENDORID }));
        csr_map.insert(CSR_MIMPID, CsrEnum::CommonCSR(CommonCSR { inner: SLOT_MIMPID }));
        csr_map.insert(CSR_MSTATUS, CsrEnum::Xstatus(Xstatus { inner: SLOT_XSTATUS, rmask: MASK_ALL, wmask: MSTATUS_WMASK }));
        csr_map.insert(CSR_SSTATUS, CsrEnum::Xstatus(Xstatus { inner: SLOT_XSTATUS, rmask: MASK_ALL, wmask: SSTATUS_WMASK }));
        csr_map.insert(CSR_MIP, CsrEnum::Xip(Xip { inner: SLOT_XIP, mask: MASK_ALL }));
        csr_map.insert(CSR_SIP, CsrEnum::Xip(Xip { inner: SLOT_XIP, mask: SIP_MASK }));
        csr_map.insert(CSR_MIE, CsrEnum::Xie(Xie { inner: SLOT_XIE, mask: MASK_ALL }));
        csr_map.insert(CSR_SIE, CsrEnum::Xie(Xie { inner: SLOT_XIE, mask: SIP_MASK }));
        csr_map.insert(CSR_MCAUSE, CsrEnum::Xcause(Xcause { inner: SLOT_MCAUSE }));
        csr_map.insert(CSR_SCAUSE, CsrEnum::Xcause(Xcause { inner: SLOT_SCAUSE }));
        csr_map.insert(CSR_MTVEC, CsrEnum::Xtvec(Xtvec { inner: SLOT_MTVEC }));
        csr_map.insert(CSR_STVEC, CsrEnum::Xtvec(Xtvec { inner: SLOT_STVEC }));
        csr_map.insert(CSR_MEDELEG, CsrEnum::Medeleg(Medeleg { inner: SLOT_MEDELEG }));
        csr_map.insert(CSR_MIDELEG, CsrEnum::Xip(Xip { inner: SLOT_MIDELEG, mask: MASK_ALL }));
        csr_map.insert(CSR_MEPC, CsrEnum::CommonCSR(CommonCSR { inner: SLOT_MEPC }));
        csr_map.insert(CSR_SEPC, CsrEnum::CommonCSR(CommonCSR { inner: SLOT_SEPC }));
        csr_map.insert(CSR_MTVAL, CsrEnum::CommonCSR(CommonCSR { inner: SLOT_MTVAL }));
        csr_map.insert(CSR_STVAL, CsrEnum::CommonCSR(CommonCSR { inner: SLOT_STVAL }));
        csr_map.insert(CSR_SATP, CsrEnum::Satp(Satp { inner: SLOT_SATP, xstatus: SLOT_XSTATUS }));
        csr_map.insert(CSR_MSCRATCH, CsrEnum::CommonCSR(CommonCSR { inner: SLOT_MSCRATCH }));
        csr_map.insert(CSR_SSCRATCH, CsrEnum::CommonCSR(CommonCSR { inner: SLOT_SSCRATCH }));
        csr_map.insert(CSR_MCYCLE, CsrEnum::Counter(Counter { inner: SLOT_CYCLE }));
        csr_map.insert(CSR_CYCLE, CsrEnum::Counter(Counter { inner: SLOT_CYCLE }));
        csr_map.insert(CSR_MINSTRET, CsrEnum::Counter(Counter { inner: SLOT_INSTRET }));
        csr_map.insert(CSR_INSTRET, CsrEnum::Counter(Counter { inner: SLOT_INSTRET }));
        csr_map.insert(CSR_MCOUNTEREN, CsrEnum::CommonCSR(CommonCSR { inner: SLOT_MCOUNTEREN }));
        csr_map.insert(CSR_SCOUNTEREN, CsrEnum::CommonCSR(CommonCSR { inner: SLOT_SCOUNTEREN }));
        csr_map.insert(CSR_TSELECT, CsrEnum::ReadOnlyCSR(ReadOnlyCSR(u64::MAX)));
        csr_map.insert(CSR_DCSR, CsrEnum::CommonCSR(CommonCSR { inner: SLOT_DCSR }));
        csr_map.insert(CSR_DPC, CsrEnum::CommonCSR(CommonCSR { inner: SLOT_DPC }));
        let r = CsrRegs {
            csr_map,
            file,
            cur_priv: PrivilegeLevels::Machine,
            xstatus: SLOT_XSTATUS,
            xip: SLOT_XIP,
            xie: SLOT_XIE,
            mtvec: SLOT_MTVEC,
            stvec: SLOT_STVEC,
            mcause: SLOT_MCAUSE,
            scause: SLOT_SCAUSE,
            medeleg: SLOT_MEDELEG,
            mideleg: SLOT_MIDELEG,
            mepc: SLOT_MEPC,
            sepc: SLOT_SEPC,
            satp: SLOT_SATP,
            mtval: SLOT_MTVAL,
            stval: SLOT_STVAL,
            cycle: SLOT_CYCLE,
            instret: SLOT_INSTRET,
            dcsr: SLOT_DCSR,
            dpc: SLOT_DPC,
        };
        assert(r.entries() =~= initial_csr_map(hart_id));
        r
    }

    /// Adds the `time` CSR, a read-only view of register `mtime`, which must exist.
    pub fn add_mtime(&mut self, mtime: CsrShare)
        requires
            mtime < old(self).file@.len(),
            old(self).wf(),
        ensures
            final(self).entries() == old(self).entries().insert(CSR_TIME, CsrEnum::Counter(Counter { inner: mtime })),
            final(self).file@ == old(self).file@,
            final(self).wf(),
            final(self).cur_priv == old(self).cur_priv,
    {
        let time = Counter::new(mtime);
        self.csr_map.insert(CSR_TIME, CsrEnum::Counter(time));
    }

    /// A CSR read by an instruction at privilege `privi`: an illegal
    /// instruction for an address with no CSR or an access not permitted,
    /// else the value the CSR reads.
    pub fn read(&mut self, addr: u64, privi: PrivilegeLevels) -> (r: Result<u64, TrapType>)
        requires
            addr < 4096,
            old(self).wf(),
        ensures
            final(self).cur_priv == privi,
            final(self).file@ == old(self).file@,
            final(self).entries() == old(self).entries(),
            !old(self).entries().dom().contains(addr) ==> r == Err::<u64, TrapType>(TrapType::IllegalInstruction(0)),
            old(self).entries().dom().contains(addr) ==> {
                let c = old(self).entries()[addr];
                if c.permitted(old(self).file@, addr, privi, AccessType::Load(0)) {
                    r == Ok::<u64, TrapType>(c.read_of(old(self).file@))
                } else {
                    r == Err::<u64, TrapType>(TrapType::IllegalInstruction(0))
                }
            },
    {
        self.cur_priv = privi;
        let csr = match self.csr_map.get(&addr) {
            Some(csr) => csr,
            None => return Err(TrapType::IllegalInstruction(0)),
        };
        if csr.check_permission(&self.file, addr, privi, AccessType::Load(0)).is_err() {
            return Err(TrapType::IllegalInstruction(0));
        }
        Ok(csr.read(&self.file))
    }

    /// A CSR write by an instruction at privilege `privi`: an illegal
    /// instruction for an address with no CSR or an access not permitted,
    /// else the CSR takes `data`.
    pub fn write(&mut self, addr: u64, data: u64, privi: PrivilegeLevels) -> (r: Result<(), TrapType>)
        requires
            addr < 4096,
            old(self).wf(),
            old(self).entries().dom().contains(addr)
                && old(self).entries()[addr].permitted(old(self).file@, addr, privi, AccessType::Store(0))
                ==> old(self).entries()[addr].write_ok(data),
        ensures
            final(self).cur_priv == privi,
            final(self).entries() == old(self).entries(),
            final(self).wf(),
            !old(self).entries().dom().contains(addr) ==> r == Err::<(), TrapType>(TrapType::IllegalInstruction(0))
                && final(self).file@ == old(self).file@,
            old(self).entries().dom().contains(addr) ==> {
                let c = old(self).entries()[addr];
                if c.permitted(old(self).file@, addr, privi, AccessType::Store(0)) {
                    r == Ok::<(), TrapType>(()) && final(self).file@ == c.write_of(old(self).file@, data)
                } else {
                    r == Err::<(), TrapType>(TrapType::IllegalInstruction(0)) && final(self).file@ == old(self).file@
                }
            },
    {
        self.cur_priv = privi;
        let csr = match self.csr_map.get(&addr) {
            Some(csr) => csr,
            None => return Err(TrapType::IllegalInstruction(0)),
        };
        if csr.check_permission(&self.file, addr, privi, AccessType::Store(0)).is_err() {
            return Err(TrapType::IllegalInstruction(0));
        }
        csr.write(&mut self.file, data);
        Ok(())
    }

    /// Writes a CSR without a permission check (a debugger's access);
    /// an address with no CSR is ignored.
    pub fn write_raw(&mut self, addr: u64, data: u64)
        requires
            addr < 4096,
            old(self).wf(),
            old(self).entries().dom().contains(addr) ==> old(self).entries()[addr].write_ok(data),
        ensures
            final(self).cur_priv == old(self).cur_priv,
            final(self).entries() == old(self).entries(),
            final(self).wf(),
            final(self).file@ == (if old(self).entries().dom().contains(addr) {
                old(self).entries()[addr].write_of(old(self).file@, data)
            } else {
                old(self).file@
            }),
    {
        let csr = match self.csr_map.get(&addr) {
            Some(csr) => csr,
            None => return,
        };
        csr.write(&mut self.file, data);
    }

    /// Whether a raw write of `data` to `addr` is one the CSR there takes
    /// (a `satp` write must name a defined translation mode); true where no
    /// CSR is.
    pub fn write_allowed(&self, addr: u64, data: u64) -> (r: bool)
        ensures
            r == (csr_map_entries(self.csr_map).dom().contains(addr) ==> csr_map_entries(self.csr_map)[addr].write_ok(data)),
    {
        match self.csr_map.get(&addr) {
            Some(c) => match c {
                CsrEnum::Satp(_) => {
                    let m = crate::bits::get_field(data, 60, 4);
                    m == 0 || m == 8 || m == 9 || m == 10 || m == 11
                },
                _ => true,
            },
            None => true,
        }
    }

    /// Reads a CSR without a permission check (a debugger's access); an
    /// address with no CSR reads 0.
    pub fn read_raw(&self, addr: u64) -> (r: u64)
        requires
            addr < 4096,
            self.wf(),
        ensures
            r == (if self.entries().dom().contains(addr) { self.entries()[addr].read_of(self.file@) } else { 0 }),
    {
        let csr = match self.csr_map.get(&addr) {
            Some(csr) => csr,
            None => return 0,
        };
        csr.read(&self.file)
    }

    /// Puts every register back to its reset value; the CSR table stays.
    pub fn reset(&mut self)
        requires
            old(self).file@.len() == CSR_SLOTS,
        ensures
            final(self).file@ == initial_csr_file(),
            final(self).entries() == old(self).entries(),
            final(self).cur_priv == old(self).cur_priv,
    {
        let mut i: usize = 0;
        while i < CSR_SLOTS
            invariant
                0 <= i <= CSR_SLOTS,
                self.file@.len() == CSR_SLOTS,
                self.entries() == old(self).entries(),
                self.cur_priv == old(self).cur_priv,
                forall|j: int| 0 <= j < i ==> #[trigger] self.file@[j] == initial_csr_file()[j],
            decreases CSR_SLOTS - i,
        {
            let v = if i == SLOT_XSTATUS { MSTATUS_INIT } else { 0u64 };
            self.file.set(i, v);
            i = i + 1;
        }
        assert(self.file@ == initial_csr_file());
    }
}

} // verus!

