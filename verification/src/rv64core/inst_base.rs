//! Privilege levels, memory access kinds and CSR addresses of the RV64 core.
use vstd::prelude::*;
use super::traptype::TrapType;

verus! {

pub const CSR_USTATUS: u64 = 0x000;
pub const CSR_CYCLE: u64 = 0xc00;
pub const CSR_TIME: u64 = 0xc01;
pub const CSR_INSTRET: u64 = 0xc02;
pub const CSR_SSTATUS: u64 = 0x100;
pub const CSR_SIE: u64 = 0x104;
pub const CSR_STVEC: u64 = 0x105;
pub const CSR_SCOUNTEREN: u64 = 0x106;
pub const CSR_SSCRATCH: u64 = 0x140;
pub const CSR_SEPC: u64 = 0x141;
pub const CSR_SCAUSE: u64 = 0x142;
pub const CSR_STVAL: u64 = 0x143;
pub const CSR_SIP: u64 = 0x144;
pub const CSR_SATP: u64 = 0x180;
pub const CSR_MSTATUS: u64 = 0x300;
pub const CSR_MISA: u64 = 0x301;
pub const CSR_MEDELEG: u64 = 0x302;
pub const CSR_MIDELEG: u64 = 0x303;
pub const CSR_MIE: u64 = 0x304;
pub const CSR_MTVEC: u64 = 0x305;
pub const CSR_MCOUNTEREN: u64 = 0x306;
pub const CSR_MSCRATCH: u64 = 0x340;
pub const CSR_MEPC: u64 = 0x341;
pub const CSR_MCAUSE: u64 = 0x342;
pub const CSR_MTVAL: u64 = 0x343;
pub const CSR_MIP: u64 = 0x344;
pub const CSR_TSELECT: u64 = 0x7a0;
pub const CSR_DCSR: u64 = 0x7b0;
pub const CSR_DPC: u64 = 0x7b1;
pub const CSR_MCYCLE: u64 = 0xb00;
pub const CSR_MINSTRET: u64 = 0xb02;
pub const CSR_MVENDORID: u64 = 0xf11;
pub const CSR_MARCHID: u64 = 0xf12;
pub const CSR_MIMPID: u64 = 0xf13;
pub const CSR_MHARTID: u64 = 0xf14;

pub const MASK_ALL: u64 = 0xffff_ffff_ffff_ffff;

/// The privilege levels of a hart.
#[derive(Clone, Copy, PartialEq, Eq, Debug, Structural)]
pub enum PrivilegeLevels {
    User,
    Supervisor,
    Hypervisor,
    Machine,
}

/// The encoding of a privilege level (0, 1, 2, 3).
pub open spec fn priv_level(p: PrivilegeLevels) -> u8 {
    match p {
        PrivilegeLevels::User => 0,
        PrivilegeLevels::Supervisor => 1,
        PrivilegeLevels::Hypervisor => 2,
        PrivilegeLevels::Machine => 3,
    }
}

impl PrivilegeLevels {
    /// The level's encoding, as `mstatus.MPP` and `dcsr.prv` hold it.
    pub fn level(&self) -> (r: u8)
        ensures
            r == priv_level(*self),
    {
        match self {
            PrivilegeLevels::User => 0,
            PrivilegeLevels::Supervisor => 1,
            PrivilegeLevels::Hypervisor => 2,
            PrivilegeLevels::Machine => 3,
        }
    }

    /// The level encoded by the low two bits of `v`.
    pub fn from_level(v: u8) -> (r: Self)
        ensures
            priv_level(r) == v % 4,
    {
        match v % 4 {
            0 => PrivilegeLevels::User,
            1 => PrivilegeLevels::Supervisor,
            2 => PrivilegeLevels::Hypervisor,
            _ => PrivilegeLevels::Machine,
        }
    }

    /// Whether `cur` is at least this level.
    pub fn check_priv(&self, cur: PrivilegeLevels) -> (r: bool)
        ensures
            r == (priv_level(cur) >= priv_level(*self)),
    {
        cur.level() >= self.level()
    }
}

/// The kind of a memory access, with the virtual address it was made at.
#[derive(Clone, Copy, PartialEq, Eq, Debug, Structural)]
pub enum AccessType {
    Load(u64),
    Store(u64),
    Fetch(u64),
    Amo(u64),
}

/// The page fault an access of kind `a` raises.
pub open spec fn page_fault_of(a: AccessType) -> TrapType {
    match a {
        AccessType::Load(addr) => TrapType::LoadPageFault(addr),
        AccessType::Store(addr) => TrapType::StorePageFault(addr),
        AccessType::Amo(addr) => TrapType::StorePageFault(addr),
        AccessType::Fetch(addr) => TrapType::InstructionPageFault(addr),
    }
}

/// The access fault an access of kind `a` raises.
pub open spec fn access_fault_of(a: AccessType) -> TrapType {
    match a {
        AccessType::Load(addr) => TrapType::LoadAccessFault(addr),
        AccessType::Store(addr) => TrapType::StoreAccessFault(addr),
        AccessType::Amo(addr) => TrapType::StoreAccessFault(addr),
        AccessType::Fetch(addr) => TrapType::InstructionAccessFault(addr),
    }
}

/// The misaligned-address exception an access of kind `a` raises.
pub open spec fn misaligned_of(a: AccessType) -> TrapType {
    match a {
        AccessType::Load(addr) => TrapType::LoadAddressMisaligned(addr),
        AccessType::Store(addr) => TrapType::StoreAddressMisaligned(addr),
        AccessType::Amo(addr) => TrapType::StoreAddressMisaligned(addr),
        AccessType::Fetch(addr) => TrapType::InstructionAddressMisaligned(addr),
    }
}

impl AccessType {
    /// Whether the access writes memory (a store or an atomic).
    pub fn is_store(&self) -> (r: bool)
        ensures
            r == (*self is Store || *self is Amo),
    {
        match self {
            AccessType::Store(_) | AccessType::Amo(_) => true,
            _ => false,
        }
    }

    /// The misaligned-address exception this access raises.
    pub fn throw_addr_misaligned_exception(&self) -> (r: TrapType)
        ensures
            r == misaligned_of(*self),
    {
        match *self {
            AccessType::Load(addr) => TrapType::LoadAddressMisaligned(addr),
            AccessType::Store(addr) => TrapType::StoreAddressMisaligned(addr),
            AccessType::Amo(addr) => TrapType::StoreAddressMisaligned(addr),
            AccessType::Fetch(addr) => TrapType::InstructionAddressMisaligned(addr),
        }
    }

    /// The page fault this access raises.
    pub fn throw_exception(&self) -> (r: TrapType)
        ensures
            r == page_fault_of(*self),
    {
        match *self {
            AccessType::Load(addr) => TrapType::LoadPageFault(addr),
            AccessType::Store(addr) => TrapType::StorePageFault(addr),
            AccessType::Amo(addr) => TrapType::StorePageFault(addr),
            AccessType::Fetch(addr) => TrapType::InstructionPageFault(addr),
        }
    }

    /// The access fault this access raises.
    pub fn throw_access_exception(&self) -> (r: TrapType)
        ensures
            r == access_fault_of(*self),
    {
        match *self {
            AccessType::Load(addr) => TrapType::LoadAccessFault(addr),
            AccessType::Store(addr) => TrapType::StoreAccessFault(addr),
            AccessType::Amo(addr) => TrapType::StoreAccessFault(addr),
            AccessType::Fetch(addr) => TrapType::InstructionAccessFault(addr),
        }
    }
}

/// Errors of the bus.
#[derive(Clone, Copy, PartialEq, Eq, Debug, Structural)]
pub enum RVerr {
    AddrMisalign,
    NotFindDevice,
}

/// A word a program writes to `tohost` for the host (the front-end server
/// protocol): bits 63..56 name the device, 55..48 the command, and 47..0
/// carry the payload.
#[derive(Clone, Copy, PartialEq, Eq, Debug, Structural)]
pub struct FesvrCmd(pub u64);

impl FesvrCmd {
    pub open spec fn device_of(self) -> u64 {
        self.0 / 0x100_0000_0000_0000
    }

    pub open spec fn cmd_of(self) -> u64 {
        (self.0 / 0x1_0000_0000_0000) % 0x100
    }

    pub open spec fn payload_of(self) -> u64 {
        self.0 % 0x1_0000_0000_0000
    }

    pub fn device(&self) -> (r: u64)
        ensures
            r == self.device_of(),
    {
        self.0 / 0x100_0000_0000_0000
    }

    pub fn cmd(&self) -> (r: u64)
        ensures
            r == self.cmd_of(),
    {
        (self.0 / 0x1_0000_0000_0000) % 0x100
    }

    pub fn payload(&self) -> (r: u64)
        ensures
            r == self.payload_of(),
    {
        self.0 % 0x1_0000_0000_0000
    }

    /// An exit command (device 0, command 0, the payload's low bit set):
    /// whether the program passed, that is exited with code 0.
    pub open spec fn exit_status(self) -> Option<bool> {
        if self.device_of() == 0 && self.cmd_of() == 0 && self.payload_of() % 2 == 1 {
            Some(self.payload_of() / 2 == 0)
        } else {
            None
        }
    }

    /// A character for the console (device 1, command 1): its byte.
    pub open spec fn console_char(self) -> Option<u8> {
        if self.device_of() == 1 && self.cmd_of() == 1 { Some((self.payload_of() % 0x100) as u8) } else { None }
    }

    /// The exit code an exit command carries.
    pub fn exit_code(&self) -> (r: u64)
        ensures
            r == self.payload_of() / 2,
    {
        self.payload() / 2
    }

    /// An exit command (device 0, command 0, the payload's low bit set):
    /// whether the program passed, that is exited with code 0.
    pub fn syscall_device(&self) -> (r: Option<bool>)
        ensures
            r == self.exit_status(),
    {
        if self.device() == 0 && self.cmd() == 0 && self.payload() % 2 == 1 {
            Some(self.exit_code() == 0)
        } else {
            None
        }
    }

    /// A character for the console (device 1, command 1): its byte.
    pub fn character_device_write(&self) -> (r: Option<u8>)
        ensures
            r == self.console_char(),
    {
        if self.device() == 1 && self.cmd() == 1 {
            Some((self.payload() % 0x100) as u8)
        } else {
            None
        }
    }
}

} // verus!
