//! Addresses and layouts of the debug module registers (RISC-V debug spec 0.13).
use vstd::prelude::*;
use crate::bits::{field, flag, get_field, get_flag, set_field32, set_flag32, with_field, with_flag};

verus! {

pub const ABSTRACT_DATA_BASE: usize = 0x04;
pub const DMCONTROL_ADDR: usize = 0x10;
pub const DMSTATUS_ADDR: usize = 0x11;
pub const HARTINFO_ADDR: usize = 0x12;
pub const HALTSUM1_ADDR: usize = 0x13;
pub const HAWINDOWSEL_ADDR: usize = 0x14;
pub const HAWINDOW: usize = 0x15;
pub const ABSTRACTCS_ADDR: usize = 0x16;
pub const COMMAND_ADDR: usize = 0x17;
pub const ABSTRACTAUTO_ADDR: usize = 0x18;
pub const PROGBUF_BASE: usize = 0x20;

pub const DMSTATUS_VERSION_NONE: usize = 0;
pub const DMSTATUS_VERSION0_11: usize = 1;
pub const DMSTATUS_VERSION0_13: usize = 2;
pub const DMSTATUS_VERSION1_0: usize = 3;

// Command types
pub const COMDTYPE_ACCESS_REG: usize = 0;
pub const COMDTYPE_QUICK_ACCESS: usize = 1;
pub const COMDTYPE_ACCESS_MEM: usize = 2;

// aarsize
pub const AARSIZE_32: usize = 2;
pub const AARSIZE_64: usize = 3;
pub const AARSIZE_128: usize = 4;

// aamsize
pub const AAMSIZE_8: usize = 0;
pub const AAMSIZE_16: usize = 1;
pub const AAMSIZE_32: usize = 2;
pub const AAMSIZE_64: usize = 3;
pub const AAMSIZE_128: usize = 4;

// cmderr
pub const CMDERR_NONE: usize = 0;
pub const CMDERR_BUSY: usize = 1;
pub const CMDERR_NOTSUP: usize = 2;
pub const CMDERR_EXCEPTION: usize = 3;
pub const CMDERR_HALT_RESUME: usize = 4;
pub const CMDERR_BUS: usize = 5;
pub const CMDERR_RESERVED: usize = 6;
pub const CMDERR_OTHER: usize = 7;

// sbaccess
pub const SBACCESS_8: usize = 0;
pub const SBACCESS_16: usize = 1;
pub const SBACCESS_32: usize = 2;
pub const SBACCESS_64: usize = 3;
pub const SBACCESS_128: usize = 4;

// sberror
pub const SBERROR_NONE: usize = 0;
pub const SBERROR_TIMEOUT: usize = 1;
pub const SBERROR_BADADDR: usize = 2;
pub const SBERROR_ALIGNMENT: usize = 3;
pub const SBERROR_SIZE: usize = 4;
pub const SBERROR_OTHER: usize = 7;

/// The name of the debug module register at `addr`.
pub open spec fn dm_register_name(addr: usize) -> Seq<char> {
    if addr == ABSTRACT_DATA_BASE {
        "ABSTRACT_DATA"@
    } else if addr == DMCONTROL_ADDR {
        "DMCONTROL"@
    } else if addr == DMSTATUS_ADDR {
        "DMSTATUS"@
    } else if addr == HARTINFO_ADDR {
        "HARTINFO"@
    } else if addr == HALTSUM1_ADDR {
        "HALTSUM1"@
    } else if addr == HAWINDOWSEL_ADDR {
        "HAWINDOWSEL"@
    } else if addr == HAWINDOW {
        "HAWINDOW"@
    } else if addr == ABSTRACTCS_ADDR {
        "ABSTRACTCS"@
    } else if addr == COMMAND_ADDR {
        "COMMAND"@
    } else if addr == ABSTRACTAUTO_ADDR {
        "ABSTRACTAUTO"@
    } else if addr == PROGBUF_BASE {
        "PROGBUF"@
    } else {
        "UNKNOWN"@
    }
}

/// The register name used in traces of debug module accesses.
pub fn get_dm_register_name(addr: usize) -> (r: &'static str)
    ensures
        r@ == dm_register_name(addr),
{
    match addr {
        ABSTRACT_DATA_BASE => "ABSTRACT_DATA",
        DMCONTROL_ADDR => "DMCONTROL",
        DMSTATUS_ADDR => "DMSTATUS",
        HARTINFO_ADDR => "HARTINFO",
        HALTSUM1_ADDR => "HALTSUM1",
        HAWINDOWSEL_ADDR => "HAWINDOWSEL",
        HAWINDOW => "HAWINDOW",
        ABSTRACTCS_ADDR => "ABSTRACTCS",
        COMMAND_ADDR => "COMMAND",
        ABSTRACTAUTO_ADDR => "ABSTRACTAUTO",
        PROGBUF_BASE => "PROGBUF",
        _ => "UNKNOWN",
    }
}

/// The `dmstatus` register.
#[derive(Clone, Copy, PartialEq, Eq, Debug, Structural)]
pub struct DMStatus(pub u32);

impl DMStatus {
    pub fn new() -> (r: Self)
        ensures
            r.0 == 0,
    {
        DMStatus(0)
    }

    #[verifier::allow_in_spec]
    pub fn version(&self) -> u8
        returns
            field(self.0 as u64, 0, 4) as u8,
    {
        get_field(self.0 as u64, 0, 4) as u8
    }

    pub fn set_version(&mut self, v: u8)
        ensures
            final(self).0 as u64 == with_field(old(self).0 as u64, 0, 4, v as u64),
    {
        self.0 = set_field32(self.0, 0, 4, v as u64);
    }

    pub fn with_version(self, v: u8) -> (r: Self)
        ensures
            r.0 as u64 == with_field(self.0 as u64, 0, 4, v as u64),
    {
        DMStatus(set_field32(self.0, 0, 4, v as u64))
    }

    #[verifier::allow_in_spec]
    pub fn confstrptrvalid(&self) -> bool
        returns
            flag(self.0 as u64, 4),
    {
        get_flag(self.0 as u64, 4)
    }

    pub fn set_confstrptrvalid(&mut self, b: bool)
        ensures
            final(self).0 as u64 == with_flag(old(self).0 as u64, 4, b),
    {
        self.0 = set_flag32(self.0, 4, b);
    }

    #[verifier::allow_in_spec]
    pub fn hasresethaltreq(&self) -> bool
        returns
            flag(self.0 as u64, 5),
    {
        get_flag(self.0 as u64, 5)
    }

    pub fn set_hasresethaltreq(&mut self, b: bool)
        ensures
            final(self).0 as u64 == with_flag(old(self).0 as u64, 5, b),
    {
        self.0 = set_flag32(self.0, 5, b);
    }

    #[verifier::allow_in_spec]
    pub fn authbusy(&self) -> bool
        returns
            flag(self.0 as u64, 6),
    {
        get_flag(self.0 as u64, 6)
    }

    pub fn set_authbusy(&mut self, b: bool)
        ensures
            final(self).0 as u64 == with_flag(old(self).0 as u64, 6, b),
    {
        self.0 = set_flag32(self.0, 6, b);
    }

    #[verifier::allow_in_spec]
    pub fn authenticated(&self) -> bool
        returns
            flag(self.0 as u64, 7),
    {
        get_flag(self.0 as u64, 7)
    }

    pub fn set_authenticated(&mut self, b: bool)
        ensures
            final(self).0 as u64 == with_flag(old(self).0 as u64, 7, b),
    {
        self.0 = set_flag32(self.0, 7, b);
    }

    pub fn with_authenticated(self, b: bool) -> (r: Self)
        ensures
            r.0 as u64 == with_flag(self.0 as u64, 7, b),
    {
        DMStatus(set_flag32(self.0, 7, b))
    }

    #[verifier::allow_in_spec]
    pub fn anyhalted(&self) -> bool
        returns
            flag(self.0 as u64, 8),
    {
        get_flag(self.0 as u64, 8)
    }

    pub fn set_anyhalted(&mut self, b: bool)
        ensures
            final(self).0 as u64 == with_flag(old(self).0 as u64, 8, b),
    {
        self.0 = set_flag32(self.0, 8, b);
    }

    #[verifier::allow_in_spec]
    pub fn allhalted(&self) -> bool
        returns
            flag(self.0 as u64, 9),
    {
        get_flag(self.0 as u64, 9)
    }

    pub fn set_allhalted(&mut self, b: bool)
        ensures
            final(self).0 as u64 == with_flag(old(self).0 as u64, 9, b),
    {
        self.0 = set_flag32(self.0, 9, b);
    }

    #[verifier::allow_in_spec]
    pub fn anyrunning(&self) -> bool
        returns
            flag(self.0 as u64, 10),
    {
        get_flag(self.0 as u64, 10)
    }

    pub fn set_anyrunning(&mut self, b: bool)
        ensures
            final(self).0 as u64 == with_flag(old(self).0 as u64, 10, b),
    {
        self.0 = set_flag32(self.0, 10, b);
    }

    #[verifier::allow_in_spec]
    pub fn allrunning(&self) -> bool
        returns
            flag(self.0 as u64, 11),
    {
        get_flag(self.0 as u64, 11)
    }

    pub fn set_allrunning(&mut self, b: bool)
        ensures
            final(self).0 as u64 == with_flag(old(self).0 as u64, 11, b),
    {
        self.0 = set_flag32(self.0, 11, b);
    }

    #[verifier::allow_in_spec]
    pub fn anyunavail(&self) -> bool
        returns
            flag(self.0 as u64, 12),
    {
        get_flag(self.0 as u64, 12)
    }

    pub fn set_anyunavail(&mut self, b: bool)
        ensures
            final(self).0 as u64 == with_flag(old(self).0 as u64, 12, b),
    {
        self.0 = set_flag32(self.0, 12, b);
    }

    #[verifier::allow_in_spec]
    pub fn allunavail(&self) -> bool
        returns
            flag(self.0 as u64, 13),
    {
        get_flag(self.0 as u64, 13)
    }

    pub fn set_allunavail(&mut self, b: bool)
        ensures
            final(self).0 as u64 == with_flag(old(self).0 as u64, 13, b),
    {
        self.0 = set_flag32(self.0, 13, b);
    }

    #[verifier::allow_in_spec]
    pub fn anynonexistent(&self) -> bool
        returns
            flag(self.0 as u64, 14),
    {
        get_flag(self.0 as u64, 14)
    }

    pub fn set_anynonexistent(&mut self, b: bool)
        ensures
            final(self).0 as u64 == with_flag(old(self).0 as u64, 14, b),
    {
        self.0 = set_flag32(self.0, 14, b);
    }

    #[verifier::allow_in_spec]
    pub fn allnonexistent(&self) -> bool
        returns
            flag(self.0 as u64, 15),
    {
        get_flag(self.0 as u64, 15)
    }

    pub fn set_allnonexistent(&mut self, b: bool)
        ensures
            final(self).0 as u64 == with_flag(old(self).0 as u64, 15, b),
    {
        self.0 = set_flag32(self.0, 15, b);
    }

    #[verifier::allow_in_spec]
    pub fn anyresumeack(&self) -> bool
        returns
            flag(self.0 as u64, 16),
    {
        get_flag(self.0 as u64, 16)
    }

    pub fn set_anyresumeack(&mut self, b: bool)
        ensures
            final(self).0 as u64 == with_flag(old(self).0 as u64, 16, b),
    {
        self.0 = set_flag32(self.0, 16, b);
    }

    #[verifier::allow_in_spec]
    pub fn allresumeack(&self) -> bool
        returns
            flag(self.0 as u64, 17),
    {
        get_flag(self.0 as u64, 17)
    }

    pub fn set_allresumeack(&mut self, b: bool)
        ensures
            final(self).0 as u64 == with_flag(old(self).0 as u64, 17, b),
    {
        self.0 = set_flag32(self.0, 17, b);
    }

    #[verifier::allow_in_spec]
    pub fn anyhavereset(&self) -> bool
        returns
            flag(self.0 as u64, 18),
    {
        get_flag(self.0 as u64, 18)
    }

    pub fn set_anyhavereset(&mut self, b: bool)
        ensures
            final(self).0 as u64 == with_flag(old(self).0 as u64, 18, b),
    {
        self.0 = set_flag32(self.0, 18, b);
    }

    #[verifier::allow_in_spec]
    pub fn allhavereset(&self) -> bool
        returns
            flag(self.0 as u64, 19),
    {
        get_flag(self.0 as u64, 19)
    }

    pub fn set_allhavereset(&mut self, b: bool)
        ensures
            final(self).0 as u64 == with_flag(old(self).0 as u64, 19, b),
    {
        self.0 = set_flag32(self.0, 19, b);
    }

    #[verifier::allow_in_spec]
    pub fn zero0(&self) -> u8
        returns
            field(self.0 as u64, 20, 2) as u8,
    {
        get_field(self.0 as u64, 20, 2) as u8
    }

    pub fn set_zero0(&mut self, v: u8)
        ensures
            final(self).0 as u64 == with_field(old(self).0 as u64, 20, 2, v as u64),
    {
        self.0 = set_field32(self.0, 20, 2, v as u64);
    }

    #[verifier::allow_in_spec]
    pub fn impebreak(&self) -> bool
        returns
            flag(self.0 as u64, 22),
    {
        get_flag(self.0 as u64, 22)
    }

    pub fn set_impebreak(&mut self, b: bool)
        ensures
            final(self).0 as u64 == with_flag(old(self).0 as u64, 22, b),
    {
        self.0 = set_flag32(self.0, 22, b);
    }

    #[verifier::allow_in_spec]
    pub fn stickyunavail(&self) -> bool
        returns
            flag(self.0 as u64, 23),
    {
        get_flag(self.0 as u64, 23)
    }

    pub fn set_stickyunavail(&mut self, b: bool)
        ensures
            final(self).0 as u64 == with_flag(old(self).0 as u64, 23, b),
    {
        self.0 = set_flag32(self.0, 23, b);
    }

    #[verifier::allow_in_spec]
    pub fn ndmresetpending(&self) -> bool
        returns
            flag(self.0 as u64, 24),
    {
        get_flag(self.0 as u64, 24)
    }

    pub fn set_ndmresetpending(&mut self, b: bool)
        ensures
            final(self).0 as u64 == with_flag(old(self).0 as u64, 24, b),
    {
        self.0 = set_flag32(self.0, 24, b);
    }

    #[verifier::allow_in_spec]
    pub fn zero1(&self) -> u8
        returns
            field(self.0 as u64, 25, 7) as u8,
    {
        get_field(self.0 as u64, 25, 7) as u8
    }

    pub fn set_zero1(&mut self, v: u8)
        ensures
            final(self).0 as u64 == with_field(old(self).0 as u64, 25, 7, v as u64),
    {
        self.0 = set_field32(self.0, 25, 7, v as u64);
    }

}

/// The `dmcontrol` register.
#[derive(Clone, Copy, PartialEq, Eq, Debug, Structural)]
pub struct DMControl(pub u32);

impl DMControl {
    pub fn new() -> (r: Self)
        ensures
            r.0 == 0,
    {
        DMControl(0)
    }

    #[verifier::allow_in_spec]
    pub fn dmactive(&self) -> bool
        returns
            flag(self.0 as u64, 0),
    {
        get_flag(self.0 as u64, 0)
    }

    pub fn set_dmactive(&mut self, b: bool)
        ensures
            final(self).0 as u64 == with_flag(old(self).0 as u64, 0, b),
    {
        self.0 = set_flag32(self.0, 0, b);
    }

    #[verifier::allow_in_spec]
    pub fn ndmreset(&self) -> bool
        returns
            flag(self.0 as u64, 1),
    {
        get_flag(self.0 as u64, 1)
    }

    pub fn set_ndmreset(&mut self, b: bool)
        ensures
            final(self).0 as u64 == with_flag(old(self).0 as u64, 1, b),
    {
        self.0 = set_flag32(self.0, 1, b);
    }

    #[verifier::allow_in_spec]
    pub fn clrresethaltreq(&self) -> bool
        returns
            flag(self.0 as u64, 2),
    {
        get_flag(self.0 as u64, 2)
    }

    pub fn set_clrresethaltreq(&mut self, b: bool)
        ensures
            final(self).0 as u64 == with_flag(old(self).0 as u64, 2, b),
    {
        self.0 = set_flag32(self.0, 2, b);
    }

    #[verifier::allow_in_spec]
    pub fn setresethaltreq(&self) -> bool
        returns
            flag(self.0 as u64, 3),
    {
        get_flag(self.0 as u64, 3)
    }

    pub fn set_setresethaltreq(&mut self, b: bool)
        ensures
            final(self).0 as u64 == with_flag(old(self).0 as u64, 3, b),
    {
        self.0 = set_flag32(self.0, 3, b);
    }

    #[verifier::allow_in_spec]
    pub fn clrkeepalive(&self) -> bool
        returns
            flag(self.0 as u64, 4),
    {
        get_flag(self.0 as u64, 4)
    }

    pub fn set_clrkeepalive(&mut self, b: bool)
        ensures
            final(self).0 as u64 == with_flag(old(self).0 as u64, 4, b),
    {
        self.0 = set_flag32(self.0, 4, b);
    }

    #[verifier::allow_in_spec]
    pub fn setkeepalive(&self) -> bool
        returns
            flag(self.0 as u64, 5),
    {
        get_flag(self.0 as u64, 5)
    }

    pub fn set_setkeepalive(&mut self, b: bool)
        ensures
            final(self).0 as u64 == with_flag(old(self).0 as u64, 5, b),
    {
        self.0 = set_flag32(self.0, 5, b);
    }

    #[verifier::allow_in_spec]
    pub fn hartselhi(&self) -> u16
        returns
            field(self.0 as u64, 6, 10) as u16,
    {
        get_field(self.0 as u64, 6, 10) as u16
    }

    pub fn set_hartselhi(&mut self, v: u16)
        ensures
            final(self).0 as u64 == with_field(old(self).0 as u64, 6, 10, v as u64),
    {
        self.0 = set_field32(self.0, 6, 10, v as u64);
    }

    #[verifier::allow_in_spec]
    pub fn hartsello(&self) -> u16
        returns
            field(self.0 as u64, 16, 10) as u16,
    {
        get_field(self.0 as u64, 16, 10) as u16
    }

    pub fn set_hartsello(&mut self, v: u16)
        ensures
            final(self).0 as u64 == with_field(old(self).0 as u64, 16, 10, v as u64),
    {
        self.0 = set_field32(self.0, 16, 10, v as u64);
    }

    #[verifier::allow_in_spec]
    pub fn hasel(&self) -> bool
        returns
            flag(self.0 as u64, 26),
    {
        get_flag(self.0 as u64, 26)
    }

    pub fn set_hasel(&mut self, b: bool)
        ensures
            final(self).0 as u64 == with_flag(old(self).0 as u64, 26, b),
    {
        self.0 = set_flag32(self.0, 26, b);
    }

    #[verifier::allow_in_spec]
    pub fn ackunavail(&self) -> bool
        returns
            flag(self.0 as u64, 27),
    {
        get_flag(self.0 as u64, 27)
    }

    pub fn set_ackunavail(&mut self, b: bool)
        ensures
            final(self).0 as u64 == with_flag(old(self).0 as u64, 27, b),
    {
        self.0 = set_flag32(self.0, 27, b);
    }

    #[verifier::allow_in_spec]
    pub fn ackhavereset(&self) -> bool
        returns
            flag(self.0 as u64, 28),
    {
        get_flag(self.0 as u64, 28)
    }

    pub fn set_ackhavereset(&mut self, b: bool)
        ensures
            final(self).0 as u64 == with_flag(old(self).0 as u64, 28, b),
    {
        self.0 = set_flag32(self.0, 28, b);
    }

    #[verifier::allow_in_spec]
    pub fn hartreset(&self) -> bool
        returns
            flag(self.0 as u64, 29),
    {
        get_flag(self.0 as u64, 29)
    }

    pub fn set_hartreset(&mut self, b: bool)
        ensures
            final(self).0 as u64 == with_flag(old(self).0 as u64, 29, b),
    {
        self.0 = set_flag32(self.0, 29, b);
    }

    #[verifier::allow_in_spec]
    pub fn resumereq(&self) -> bool
        returns
            flag(self.0 as u64, 30),
    {
        get_flag(self.0 as u64, 30)
    }

    pub fn set_resumereq(&mut self, b: bool)
        ensures
            final(self).0 as u64 == with_flag(old(self).0 as u64, 30, b),
    {
        self.0 = set_flag32(self.0, 30, b);
    }

    #[verifier::allow_in_spec]
    pub fn haltreq(&self) -> bool
        returns
            flag(self.0 as u64, 31),
    {
        get_flag(self.0 as u64, 31)
    }

    pub fn set_haltreq(&mut self, b: bool)
        ensures
            final(self).0 as u64 == with_flag(old(self).0 as u64, 31, b),
    {
        self.0 = set_flag32(self.0, 31, b);
    }

}

/// The `hartinfo` register.
#[derive(Clone, Copy, PartialEq, Eq, Debug, Structural)]
pub struct HartInfo(pub u32);

impl HartInfo {
    pub fn new() -> (r: Self)
        ensures
            r.0 == 0,
    {
        HartInfo(0)
    }

    #[verifier::allow_in_spec]
    pub fn dataaddr(&self) -> u16
        returns
            field(self.0 as u64, 0, 12) as u16,
    {
        get_field(self.0 as u64, 0, 12) as u16
    }

    pub fn set_dataaddr(&mut self, v: u16)
        ensures
            final(self).0 as u64 == with_field(old(self).0 as u64, 0, 12, v as u64),
    {
        self.0 = set_field32(self.0, 0, 12, v as u64);
    }

    #[verifier::allow_in_spec]
    pub fn datasize(&self) -> u8
        returns
            field(self.0 as u64, 12, 4) as u8,
    {
        get_field(self.0 as u64, 12, 4) as u8
    }

    pub fn set_datasize(&mut self, v: u8)
        ensures
            final(self).0 as u64 == with_field(old(self).0 as u64, 12, 4, v as u64),
    {
        self.0 = set_field32(self.0, 12, 4, v as u64);
    }

    #[verifier::allow_in_spec]
    pub fn dataaccess(&self) -> bool
        returns
            flag(self.0 as u64, 16),
    {
        get_flag(self.0 as u64, 16)
    }

    pub fn set_dataaccess(&mut self, b: bool)
        ensures
            final(self).0 as u64 == with_flag(old(self).0 as u64, 16, b),
    {
        self.0 = set_flag32(self.0, 16, b);
    }

    #[verifier::allow_in_spec]
    pub fn zero0(&self) -> u8
        returns
            field(self.0 as u64, 17, 3) as u8,
    {
        get_field(self.0 as u64, 17, 3) as u8
    }

    pub fn set_zero0(&mut self, v: u8)
        ensures
            final(self).0 as u64 == with_field(old(self).0 as u64, 17, 3, v as u64),
    {
        self.0 = set_field32(self.0, 17, 3, v as u64);
    }

    #[verifier::allow_in_spec]
    pub fn nscratch(&self) -> u8
        returns
            field(self.0 as u64, 20, 4) as u8,
    {
        get_field(self.0 as u64, 20, 4) as u8
    }

    pub fn set_nscratch(&mut self, v: u8)
        ensures
            final(self).0 as u64 == with_field(old(self).0 as u64, 20, 4, v as u64),
    {
        self.0 = set_field32(self.0, 20, 4, v as u64);
    }

    #[verifier::allow_in_spec]
    pub fn zero1(&self) -> u8
        returns
            field(self.0 as u64, 24, 8) as u8,
    {
        get_field(self.0 as u64, 24, 8) as u8
    }

    pub fn set_zero1(&mut self, v: u8)
        ensures
            final(self).0 as u64 == with_field(old(self).0 as u64, 24, 8, v as u64),
    {
        self.0 = set_field32(self.0, 24, 8, v as u64);
    }

}

/// The `hawindowsel` register.
#[derive(Clone, Copy, PartialEq, Eq, Debug, Structural)]
pub struct HaWindowSel(pub u32);

impl HaWindowSel {
    pub fn new() -> (r: Self)
        ensures
            r.0 == 0,
    {
        HaWindowSel(0)
    }

    #[verifier::allow_in_spec]
    pub fn hawindowsel(&self) -> u16
        returns
            field(self.0 as u64, 0, 15) as u16,
    {
        get_field(self.0 as u64, 0, 15) as u16
    }

    pub fn set_hawindowsel(&mut self, v: u16)
        ensures
            final(self).0 as u64 == with_field(old(self).0 as u64, 0, 15, v as u64),
    {
        self.0 = set_field32(self.0, 0, 15, v as u64);
    }

    #[verifier::allow_in_spec]
    pub fn zero0(&self) -> u32
        returns
            field(self.0 as u64, 15, 17) as u32,
    {
        get_field(self.0 as u64, 15, 17) as u32
    }

    pub fn set_zero0(&mut self, v: u32)
        ensures
            final(self).0 as u64 == with_field(old(self).0 as u64, 15, 17, v as u64),
    {
        self.0 = set_field32(self.0, 15, 17, v as u64);
    }

}

/// The `abstractcs` register.
#[derive(Clone, Copy, PartialEq, Eq, Debug, Structural)]
pub struct Abstractcs(pub u32);

impl Abstractcs {
    pub fn new() -> (r: Self)
        ensures
            r.0 == 0,
    {
        Abstractcs(0)
    }

    #[verifier::allow_in_spec]
    pub fn datacount(&self) -> u8
        returns
            field(self.0 as u64, 0, 4) as u8,
    {
        get_field(self.0 as u64, 0, 4) as u8
    }

    pub fn set_datacount(&mut self, v: u8)
        ensures
            final(self).0 as u64 == with_field(old(self).0 as u64, 0, 4, v as u64),
    {
        self.0 = set_field32(self.0, 0, 4, v as u64);
    }

    pub fn with_datacount(self, v: u8) -> (r: Self)
        ensures
            r.0 as u64 == with_field(self.0 as u64, 0, 4, v as u64),
    {
        Abstractcs(set_field32(self.0, 0, 4, v as u64))
    }

    #[verifier::allow_in_spec]
    pub fn zero0(&self) -> u8
        returns
            field(self.0 as u64, 4, 4) as u8,
    {
        get_field(self.0 as u64, 4, 4) as u8
    }

    pub fn set_zero0(&mut self, v: u8)
        ensures
            final(self).0 as u64 == with_field(old(self).0 as u64, 4, 4, v as u64),
    {
        self.0 = set_field32(self.0, 4, 4, v as u64);
    }

    #[verifier::allow_in_spec]
    pub fn cmderr(&self) -> u8
        returns
            field(self.0 as u64, 8, 3) as u8,
    {
        get_field(self.0 as u64, 8, 3) as u8
    }

    pub fn set_cmderr(&mut self, v: u8)
        ensures
            final(self).0 as u64 == with_field(old(self).0 as u64, 8, 3, v as u64),
    {
        self.0 = set_field32(self.0, 8, 3, v as u64);
    }

    #[verifier::allow_in_spec]
    pub fn relaxedpriv(&self) -> bool
        returns
            flag(self.0 as u64, 11),
    {
        get_flag(self.0 as u64, 11)
    }

    pub fn set_relaxedpriv(&mut self, b: bool)
        ensures
            final(self).0 as u64 == with_flag(old(self).0 as u64, 11, b),
    {
        self.0 = set_flag32(self.0, 11, b);
    }

    #[verifier::allow_in_spec]
    pub fn busy(&self) -> bool
        returns
            flag(self.0 as u64, 12),
    {
        get_flag(self.0 as u64, 12)
    }

    pub fn set_busy(&mut self, b: bool)
        ensures
            final(self).0 as u64 == with_flag(old(self).0 as u64, 12, b),
    {
        self.0 = set_flag32(self.0, 12, b);
    }

    #[verifier::allow_in_spec]
    pub fn zero1(&self) -> u16
        returns
            field(self.0 as u64, 13, 11) as u16,
    {
        get_field(self.0 as u64, 13, 11) as u16
    }

    pub fn set_zero1(&mut self, v: u16)
        ensures
            final(self).0 as u64 == with_field(old(self).0 as u64, 13, 11, v as u64),
    {
        self.0 = set_field32(self.0, 13, 11, v as u64);
    }

    #[verifier::allow_in_spec]
    pub fn progbufsize(&self) -> u8
        returns
            field(self.0 as u64, 24, 5) as u8,
    {
        get_field(self.0 as u64, 24, 5) as u8
    }

    pub fn set_progbufsize(&mut self, v: u8)
        ensures
            final(self).0 as u64 == with_field(old(self).0 as u64, 24, 5, v as u64),
    {
        self.0 = set_field32(self.0, 24, 5, v as u64);
    }

    pub fn with_progbufsize(self, v: u8) -> (r: Self)
        ensures
            r.0 as u64 == with_field(self.0 as u64, 24, 5, v as u64),
    {
        Abstractcs(set_field32(self.0, 24, 5, v as u64))
    }

    #[verifier::allow_in_spec]
    pub fn zero2(&self) -> u8
        returns
            field(self.0 as u64, 29, 3) as u8,
    {
        get_field(self.0 as u64, 29, 3) as u8
    }

    pub fn set_zero2(&mut self, v: u8)
        ensures
            final(self).0 as u64 == with_field(old(self).0 as u64, 29, 3, v as u64),
    {
        self.0 = set_field32(self.0, 29, 3, v as u64);
    }

}

/// The `command` register.
#[derive(Clone, Copy, PartialEq, Eq, Debug, Structural)]
pub struct Command(pub u32);

impl Command {
    pub fn new() -> (r: Self)
        ensures
            r.0 == 0,
    {
        Command(0)
    }

    #[verifier::allow_in_spec]
    pub fn control(&self) -> u32
        returns
            field(self.0 as u64, 0, 24) as u32,
    {
        get_field(self.0 as u64, 0, 24) as u32
    }

    pub fn set_control(&mut self, v: u32)
        ensures
            final(self).0 as u64 == with_field(old(self).0 as u64, 0, 24, v as u64),
    {
        self.0 = set_field32(self.0, 0, 24, v as u64);
    }

    #[verifier::allow_in_spec]
    pub fn cmdtype(&self) -> u8
        returns
            field(self.0 as u64, 24, 8) as u8,
    {
        get_field(self.0 as u64, 24, 8) as u8
    }

    pub fn set_cmdtype(&mut self, v: u8)
        ensures
            final(self).0 as u64 == with_field(old(self).0 as u64, 24, 8, v as u64),
    {
        self.0 = set_field32(self.0, 24, 8, v as u64);
    }


    /// The command read as an access-register command.
    pub fn cmd_reg(&self) -> (r: CommandReg)
        ensures
            r.0 == self.0,
    {
        CommandReg(self.0)
    }

    /// The command read as an access-memory command.
    pub fn cmd_mem(&self) -> (r: CommandMem)
        ensures
            r.0 == self.0,
    {
        CommandMem(self.0)
    }
}

/// The access-register form of `command`.
#[derive(Clone, Copy, PartialEq, Eq, Debug, Structural)]
pub struct CommandReg(pub u32);

impl CommandReg {
    pub fn new() -> (r: Self)
        ensures
            r.0 == 0,
    {
        CommandReg(0)
    }

    #[verifier::allow_in_spec]
    pub fn regno(&self) -> u16
        returns
            field(self.0 as u64, 0, 16) as u16,
    {
        get_field(self.0 as u64, 0, 16) as u16
    }

    pub fn set_regno(&mut self, v: u16)
        ensures
            final(self).0 as u64 == with_field(old(self).0 as u64, 0, 16, v as u64),
    {
        self.0 = set_field32(self.0, 0, 16, v as u64);
    }

    #[verifier::allow_in_spec]
    pub fn write(&self) -> bool
        returns
            flag(self.0 as u64, 16),
    {
        get_flag(self.0 as u64, 16)
    }

    pub fn set_write(&mut self, b: bool)
        ensures
            final(self).0 as u64 == with_flag(old(self).0 as u64, 16, b),
    {
        self.0 = set_flag32(self.0, 16, b);
    }

    #[verifier::allow_in_spec]
    pub fn transfer(&self) -> bool
        returns
            flag(self.0 as u64, 17),
    {
        get_flag(self.0 as u64, 17)
    }

    pub fn set_transfer(&mut self, b: bool)
        ensures
            final(self).0 as u64 == with_flag(old(self).0 as u64, 17, b),
    {
        self.0 = set_flag32(self.0, 17, b);
    }

    #[verifier::allow_in_spec]
    pub fn postexec(&self) -> bool
        returns
            flag(self.0 as u64, 18),
    {
        get_flag(self.0 as u64, 18)
    }

    pub fn set_postexec(&mut self, b: bool)
        ensures
            final(self).0 as u64 == with_flag(old(self).0 as u64, 18, b),
    {
        self.0 = set_flag32(self.0, 18, b);
    }

    #[verifier::allow_in_spec]
    pub fn aarpostincrement(&self) -> bool
        returns
            flag(self.0 as u64, 19),
    {
        get_flag(self.0 as u64, 19)
    }

    pub fn set_aarpostincrement(&mut self, b: bool)
        ensures
            final(self).0 as u64 == with_flag(old(self).0 as u64, 19, b),
    {
        self.0 = set_flag32(self.0, 19, b);
    }

    #[verifier::allow_in_spec]
    pub fn aarsize(&self) -> u8
        returns
            field(self.0 as u64, 20, 3) as u8,
    {
        get_field(self.0 as u64, 20, 3) as u8
    }

    pub fn set_aarsize(&mut self, v: u8)
        ensures
            final(self).0 as u64 == with_field(old(self).0 as u64, 20, 3, v as u64),
    {
        self.0 = set_field32(self.0, 20, 3, v as u64);
    }

    #[verifier::allow_in_spec]
    pub fn zero0(&self) -> bool
        returns
            flag(self.0 as u64, 23),
    {
        get_flag(self.0 as u64, 23)
    }

    pub fn set_zero0(&mut self, b: bool)
        ensures
            final(self).0 as u64 == with_flag(old(self).0 as u64, 23, b),
    {
        self.0 = set_flag32(self.0, 23, b);
    }

    #[verifier::allow_in_spec]
    pub fn cmdtype(&self) -> u8
        returns
            field(self.0 as u64, 24, 8) as u8,
    {
        get_field(self.0 as u64, 24, 8) as u8
    }

    pub fn set_cmdtype(&mut self, v: u8)
        ensures
            final(self).0 as u64 == with_field(old(self).0 as u64, 24, 8, v as u64),
    {
        self.0 = set_field32(self.0, 24, 8, v as u64);
    }

}

/// The access-memory form of `command`.
#[derive(Clone, Copy, PartialEq, Eq, Debug, Structural)]
pub struct CommandMem(pub u32);

impl CommandMem {
    pub fn new() -> (r: Self)
        ensures
            r.0 == 0,
    {
        CommandMem(0)
    }

    #[verifier::allow_in_spec]
    pub fn zero0(&self) -> u16
        returns
            field(self.0 as u64, 0, 14) as u16,
    {
        get_field(self.0 as u64, 0, 14) as u16
    }

    pub fn set_zero0(&mut self, v: u16)
        ensures
            final(self).0 as u64 == with_field(old(self).0 as u64, 0, 14, v as u64),
    {
        self.0 = set_field32(self.0, 0, 14, v as u64);
    }

    #[verifier::allow_in_spec]
    pub fn target_specific(&self) -> u8
        returns
            field(self.0 as u64, 14, 2) as u8,
    {
        get_field(self.0 as u64, 14, 2) as u8
    }

    pub fn set_target_specific(&mut self, v: u8)
        ensures
            final(self).0 as u64 == with_field(old(self).0 as u64, 14, 2, v as u64),
    {
        self.0 = set_field32(self.0, 14, 2, v as u64);
    }

    #[verifier::allow_in_spec]
    pub fn write(&self) -> bool
        returns
            flag(self.0 as u64, 16),
    {
        get_flag(self.0 as u64, 16)
    }

    pub fn set_write(&mut self, b: bool)
        ensures
            final(self).0 as u64 == with_flag(old(self).0 as u64, 16, b),
    {
        self.0 = set_flag32(self.0, 16, b);
    }

    #[verifier::allow_in_spec]
    pub fn zero1(&self) -> u8
        returns
            field(self.0 as u64, 17, 2) as u8,
    {
        get_field(self.0 as u64, 17, 2) as u8
    }

    pub fn set_zero1(&mut self, v: u8)
        ensures
            final(self).0 as u64 == with_field(old(self).0 as u64, 17, 2, v as u64),
    {
        self.0 = set_field32(self.0, 17, 2, v as u64);
    }

    #[verifier::allow_in_spec]
    pub fn aampostincrement(&self) -> bool
        returns
            flag(self.0 as u64, 19),
    {
        get_flag(self.0 as u64, 19)
    }

    pub fn set_aampostincrement(&mut self, b: bool)
        ensures
            final(self).0 as u64 == with_flag(old(self).0 as u64, 19, b),
    {
        self.0 = set_flag32(self.0, 19, b);
    }

    #[verifier::allow_in_spec]
    pub fn aamsize(&self) -> u8
        returns
            field(self.0 as u64, 20, 3) as u8,
    {
        get_field(self.0 as u64, 20, 3) as u8
    }

    pub fn set_aamsize(&mut self, v: u8)
        ensures
            final(self).0 as u64 == with_field(old(self).0 as u64, 20, 3, v as u64),
    {
        self.0 = set_field32(self.0, 20, 3, v as u64);
    }

    #[verifier::allow_in_spec]
    pub fn aamvirtual(&self) -> bool
        returns
            flag(self.0 as u64, 23),
    {
        get_flag(self.0 as u64, 23)
    }

    pub fn set_aamvirtual(&mut self, b: bool)
        ensures
            final(self).0 as u64 == with_flag(old(self).0 as u64, 23, b),
    {
        self.0 = set_flag32(self.0, 23, b);
    }

    #[verifier::allow_in_spec]
    pub fn cmdtype(&self) -> u8
        returns
            field(self.0 as u64, 24, 8) as u8,
    {
        get_field(self.0 as u64, 24, 8) as u8
    }

    pub fn set_cmdtype(&mut self, v: u8)
        ensures
            final(self).0 as u64 == with_field(old(self).0 as u64, 24, 8, v as u64),
    {
        self.0 = set_field32(self.0, 24, 8, v as u64);
    }

}

/// The `abstractauto` register.
#[derive(Clone, Copy, PartialEq, Eq, Debug, Structural)]
pub struct AbstractAuto(pub u32);

impl AbstractAuto {
    pub fn new() -> (r: Self)
        ensures
            r.0 == 0,
    {
        AbstractAuto(0)
    }

    #[verifier::allow_in_spec]
    pub fn autoexecdata(&self) -> u16
        returns
            field(self.0 as u64, 0, 12) as u16,
    {
        get_field(self.0 as u64, 0, 12) as u16
    }

    pub fn set_autoexecdata(&mut self, v: u16)
        ensures
            final(self).0 as u64 == with_field(old(self).0 as u64, 0, 12, v as u64),
    {
        self.0 = set_field32(self.0, 0, 12, v as u64);
    }

    #[verifier::allow_in_spec]
    pub fn zero0(&self) -> u8
        returns
            field(self.0 as u64, 12, 4) as u8,
    {
        get_field(self.0 as u64, 12, 4) as u8
    }

    pub fn set_zero0(&mut self, v: u8)
        ensures
            final(self).0 as u64 == with_field(old(self).0 as u64, 12, 4, v as u64),
    {
        self.0 = set_field32(self.0, 12, 4, v as u64);
    }

    #[verifier::allow_in_spec]
    pub fn autoexecprogbuf(&self) -> u16
        returns
            field(self.0 as u64, 16, 16) as u16,
    {
        get_field(self.0 as u64, 16, 16) as u16
    }

    pub fn set_autoexecprogbuf(&mut self, v: u16)
        ensures
            final(self).0 as u64 == with_field(old(self).0 as u64, 16, 16, v as u64),
    {
        self.0 = set_field32(self.0, 16, 16, v as u64);
    }

}

/// The `dmcs2` register.
#[derive(Clone, Copy, PartialEq, Eq, Debug, Structural)]
pub struct DMCs2(pub u32);

impl DMCs2 {
    pub fn new() -> (r: Self)
        ensures
            r.0 == 0,
    {
        DMCs2(0)
    }

    #[verifier::allow_in_spec]
    pub fn hgselect(&self) -> bool
        returns
            flag(self.0 as u64, 0),
    {
        get_flag(self.0 as u64, 0)
    }

    pub fn set_hgselect(&mut self, b: bool)
        ensures
            final(self).0 as u64 == with_flag(old(self).0 as u64, 0, b),
    {
        self.0 = set_flag32(self.0, 0, b);
    }

    #[verifier::allow_in_spec]
    pub fn hgwrite(&self) -> bool
        returns
            flag(self.0 as u64, 1),
    {
        get_flag(self.0 as u64, 1)
    }

    pub fn set_hgwrite(&mut self, b: bool)
        ensures
            final(self).0 as u64 == with_flag(old(self).0 as u64, 1, b),
    {
        self.0 = set_flag32(self.0, 1, b);
    }

    #[verifier::allow_in_spec]
    pub fn group(&self) -> u8
        returns
            field(self.0 as u64, 2, 5) as u8,
    {
        get_field(self.0 as u64, 2, 5) as u8
    }

    pub fn set_group(&mut self, v: u8)
        ensures
            final(self).0 as u64 == with_field(old(self).0 as u64, 2, 5, v as u64),
    {
        self.0 = set_field32(self.0, 2, 5, v as u64);
    }

    #[verifier::allow_in_spec]
    pub fn dmexttrigger(&self) -> u8
        returns
            field(self.0 as u64, 7, 4) as u8,
    {
        get_field(self.0 as u64, 7, 4) as u8
    }

    pub fn set_dmexttrigger(&mut self, v: u8)
        ensures
            final(self).0 as u64 == with_field(old(self).0 as u64, 7, 4, v as u64),
    {
        self.0 = set_field32(self.0, 7, 4, v as u64);
    }

    #[verifier::allow_in_spec]
    pub fn grouptype(&self) -> bool
        returns
            flag(self.0 as u64, 11),
    {
        get_flag(self.0 as u64, 11)
    }

    pub fn set_grouptype(&mut self, b: bool)
        ensures
            final(self).0 as u64 == with_flag(old(self).0 as u64, 11, b),
    {
        self.0 = set_flag32(self.0, 11, b);
    }

    #[verifier::allow_in_spec]
    pub fn zero0(&self) -> u32
        returns
            field(self.0 as u64, 12, 20) as u32,
    {
        get_field(self.0 as u64, 12, 20) as u32
    }

    pub fn set_zero0(&mut self, v: u32)
        ensures
            final(self).0 as u64 == with_field(old(self).0 as u64, 12, 20, v as u64),
    {
        self.0 = set_field32(self.0, 12, 20, v as u64);
    }

}

/// The system bus access control and status register.
#[derive(Clone, Copy, PartialEq, Eq, Debug, Structural)]
pub struct SBCS(pub u32);

impl SBCS {
    pub fn new() -> (r: Self)
        ensures
            r.0 == 0,
    {
        SBCS(0)
    }

    #[verifier::allow_in_spec]
    pub fn sbaccess8(&self) -> bool
        returns
            flag(self.0 as u64, 0),
    {
        get_flag(self.0 as u64, 0)
    }

    pub fn set_sbaccess8(&mut self, b: bool)
        ensures
            final(self).0 as u64 == with_flag(old(self).0 as u64, 0, b),
    {
        self.0 = set_flag32(self.0, 0, b);
    }

    #[verifier::allow_in_spec]
    pub fn sbaccess16(&self) -> bool
        returns
            flag(self.0 as u64, 1),
    {
        get_flag(self.0 as u64, 1)
    }

    pub fn set_sbaccess16(&mut self, b: bool)
        ensures
            final(self).0 as u64 == with_flag(old(self).0 as u64, 1, b),
    {
        self.0 = set_flag32(self.0, 1, b);
    }

    #[verifier::allow_in_spec]
    pub fn sbaccess32(&self) -> bool
        returns
            flag(self.0 as u64, 2),
    {
        get_flag(self.0 as u64, 2)
    }

    pub fn set_sbaccess32(&mut self, b: bool)
        ensures
            final(self).0 as u64 == with_flag(old(self).0 as u64, 2, b),
    {
        self.0 = set_flag32(self.0, 2, b);
    }

    #[verifier::allow_in_spec]
    pub fn sbaccess64(&self) -> bool
        returns
            flag(self.0 as u64, 3),
    {
        get_flag(self.0 as u64, 3)
    }

    pub fn set_sbaccess64(&mut self, b: bool)
        ensures
            final(self).0 as u64 == with_flag(old(self).0 as u64, 3, b),
    {
        self.0 = set_flag32(self.0, 3, b);
    }

    #[verifier::allow_in_spec]
    pub fn sbaccess128(&self) -> bool
        returns
            flag(self.0 as u64, 4),
    {
        get_flag(self.0 as u64, 4)
    }

    pub fn set_sbaccess128(&mut self, b: bool)
        ensures
            final(self).0 as u64 == with_flag(old(self).0 as u64, 4, b),
    {
        self.0 = set_flag32(self.0, 4, b);
    }

    #[verifier::allow_in_spec]
    pub fn sbasize(&self) -> u8
        returns
            field(self.0 as u64, 5, 7) as u8,
    {
        get_field(self.0 as u64, 5, 7) as u8
    }

    pub fn set_sbasize(&mut self, v: u8)
        ensures
            final(self).0 as u64 == with_field(old(self).0 as u64, 5, 7, v as u64),
    {
        self.0 = set_field32(self.0, 5, 7, v as u64);
    }

    #[verifier::allow_in_spec]
    pub fn sberror(&self) -> u8
        returns
            field(self.0 as u64, 12, 3) as u8,
    {
        get_field(self.0 as u64, 12, 3) as u8
    }

    pub fn set_sberror(&mut self, v: u8)
        ensures
            final(self).0 as u64 == with_field(old(self).0 as u64, 12, 3, v as u64),
    {
        self.0 = set_field32(self.0, 12, 3, v as u64);
    }

    #[verifier::allow_in_spec]
    pub fn sbreadondata(&self) -> bool
        returns
            flag(self.0 as u64, 15),
    {
        get_flag(self.0 as u64, 15)
    }

    pub fn set_sbreadondata(&mut self, b: bool)
        ensures
            final(self).0 as u64 == with_flag(old(self).0 as u64, 15, b),
    {
        self.0 = set_flag32(self.0, 15, b);
    }

    #[verifier::allow_in_spec]
    pub fn sbautoincrement(&self) -> bool
        returns
            flag(self.0 as u64, 16),
    {
        get_flag(self.0 as u64, 16)
    }

    pub fn set_sbautoincrement(&mut self, b: bool)
        ensures
            final(self).0 as u64 == with_flag(old(self).0 as u64, 16, b),
    {
        self.0 = set_flag32(self.0, 16, b);
    }

    #[verifier::allow_in_spec]
    pub fn sbaccess(&self) -> u8
        returns
            field(self.0 as u64, 17, 3) as u8,
    {
        get_field(self.0 as u64, 17, 3) as u8
    }

    pub fn set_sbaccess(&mut self, v: u8)
        ensures
            final(self).0 as u64 == with_field(old(self).0 as u64, 17, 3, v as u64),
    {
        self.0 = set_field32(self.0, 17, 3, v as u64);
    }

    #[verifier::allow_in_spec]
    pub fn sbreadonaddr(&self) -> bool
        returns
            flag(self.0 as u64, 20),
    {
        get_flag(self.0 as u64, 20)
    }

    pub fn set_sbreadonaddr(&mut self, b: bool)
        ensures
            final(self).0 as u64 == with_flag(old(self).0 as u64, 20, b),
    {
        self.0 = set_flag32(self.0, 20, b);
    }

    #[verifier::allow_in_spec]
    pub fn sbbusy(&self) -> bool
        returns
            flag(self.0 as u64, 21),
    {
        get_flag(self.0 as u64, 21)
    }

    pub fn set_sbbusy(&mut self, b: bool)
        ensures
            final(self).0 as u64 == with_flag(old(self).0 as u64, 21, b),
    {
        self.0 = set_flag32(self.0, 21, b);
    }

    #[verifier::allow_in_spec]
    pub fn sbbusyerror(&self) -> bool
        returns
            flag(self.0 as u64, 22),
    {
        get_flag(self.0 as u64, 22)
    }

    pub fn set_sbbusyerror(&mut self, b: bool)
        ensures
            final(self).0 as u64 == with_flag(old(self).0 as u64, 22, b),
    {
        self.0 = set_flag32(self.0, 22, b);
    }

    #[verifier::allow_in_spec]
    pub fn zero0(&self) -> u8
        returns
            field(self.0 as u64, 23, 6) as u8,
    {
        get_field(self.0 as u64, 23, 6) as u8
    }

    pub fn set_zero0(&mut self, v: u8)
        ensures
            final(self).0 as u64 == with_field(old(self).0 as u64, 23, 6, v as u64),
    {
        self.0 = set_field32(self.0, 23, 6, v as u64);
    }

    #[verifier::allow_in_spec]
    pub fn sbversion(&self) -> u8
        returns
            field(self.0 as u64, 29, 3) as u8,
    {
        get_field(self.0 as u64, 29, 3) as u8
    }

    pub fn set_sbversion(&mut self, v: u8)
        ensures
            final(self).0 as u64 == with_field(old(self).0 as u64, 29, 3, v as u64),
    {
        self.0 = set_field32(self.0, 29, 3, v as u64);
    }

}

} // verus!
