//! The JTAG debug transport module: the TAP controller, its instruction and
//! data shift registers, and the `dtmcs`/`dmi` registers through which a
//! debugger reaches the debug module.
use vstd::prelude::*;
use crate::bits::{field, flag, get_field, get_flag, set_field, set_field32, set_flag, set_flag32, with_field, with_flag, low_mask, low_mask_of, lemma_field_bound, lemma_low_mask_values};
use super::debug_module::DebugModule;
use super::dm_interface::DebugModuleSlave;
use super::jtag_state::{JtagState, next_tap_state, is_dr_scan_state};

verus! {

broadcast use lemma_field_bound;

pub const DMI_OP_STATUS_SUCCESS: u8 = 0;
pub const DMI_OP_STATUS_RESERVED: u8 = 1;
pub const DMI_OP_STATUS_FAILED: u8 = 2;
pub const DMI_OP_STATUS_BUSY: u8 = 3;

pub const DMI_OP_NOP: u8 = 0;
pub const DMI_OP_READ: u8 = 1;
pub const DMI_OP_WRITE: u8 = 2;
pub const DMI_OP_RESERVED: u8 = 3;

pub const DMI_OP_SUCCESS: u8 = 0;
pub const DMI_OP_FAILED: u8 = 2;

/// The JTAG `idcode` register of the debug transport module.
#[derive(Clone, Copy, PartialEq, Eq, Debug, Structural)]
pub struct DTMIDCode(pub u32);

impl DTMIDCode {
    pub fn new() -> (r: Self)
        ensures
            r.0 == 0,
    {
        DTMIDCode(0)
    }

    #[verifier::allow_in_spec]
    pub fn manufld(&self) -> u16
        returns
            field(self.0 as u64, 1, 11) as u16,
    {
        get_field(self.0 as u64, 1, 11) as u16
    }

    pub fn set_manufld(&mut self, v: u16)
        ensures
            final(self).0 as u64 == with_field(old(self).0 as u64, 1, 11, v as u64),
    {
        self.0 = set_field32(self.0, 1, 11, v as u64);
    }

    #[verifier::allow_in_spec]
    pub fn part_number(&self) -> u16
        returns
            field(self.0 as u64, 12, 16) as u16,
    {
        get_field(self.0 as u64, 12, 16) as u16
    }

    pub fn set_part_number(&mut self, v: u16)
        ensures
            final(self).0 as u64 == with_field(old(self).0 as u64, 12, 16, v as u64),
    {
        self.0 = set_field32(self.0, 12, 16, v as u64);
    }

    #[verifier::allow_in_spec]
    pub fn version(&self) -> u8
        returns
            field(self.0 as u64, 28, 4) as u8,
    {
        get_field(self.0 as u64, 28, 4) as u8
    }

    pub fn set_version(&mut self, v: u8)
        ensures
            final(self).0 as u64 == with_field(old(self).0 as u64, 28, 4, v as u64),
    {
        self.0 = set_field32(self.0, 28, 4, v as u64);
    }

}

/// The `dtmcs` register of the debug transport module.
#[derive(Clone, Copy, PartialEq, Eq, Debug, Structural)]
pub struct DTMCS(pub u32);

impl DTMCS {
    pub fn new() -> (r: Self)
        ensures
            r.0 == 0,
    {
        DTMCS(0)
    }

    #[verifier::allow_in_spec]
    pub fn version(&self) -> u8
        returns
            field(self.0 as u64, 0, 4) as u8,
    {
        get_field(self.0 as u64, 0, 4) as u8
    }

    pub fn set_version(&mut self, v: u8)
        ensures
            final(self).0 as u64 == with_field(old(self).0 as u64, 0, 4, v as u64),
    {
        self.0 = set_field32(self.0, 0, 4, v as u64);
    }

    pub fn with_version(self, v: u8) -> (r: Self)
        ensures
            r.0 as u64 == with_field(self.0 as u64, 0, 4, v as u64),
    {
        DTMCS(set_field32(self.0, 0, 4, v as u64))
    }

    #[verifier::allow_in_spec]
    pub fn abits(&self) -> u8
        returns
            field(self.0 as u64, 4, 6) as u8,
    {
        get_field(self.0 as u64, 4, 6) as u8
    }

    pub fn set_abits(&mut self, v: u8)
        ensures
            final(self).0 as u64 == with_field(old(self).0 as u64, 4, 6, v as u64),
    {
        self.0 = set_field32(self.0, 4, 6, v as u64);
    }

    pub fn with_abits(self, v: u8) -> (r: Self)
        ensures
            r.0 as u64 == with_field(self.0 as u64, 4, 6, v as u64),
    {
        DTMCS(set_field32(self.0, 4, 6, v as u64))
    }

    #[verifier::allow_in_spec]
    pub fn dmistat(&self) -> u8
        returns
            field(self.0 as u64, 10, 2) as u8,
    {
        get_field(self.0 as u64, 10, 2) as u8
    }

    pub fn set_dmistat(&mut self, v: u8)
        ensures
            final(self).0 as u64 == with_field(old(self).0 as u64, 10, 2, v as u64),
    {
        self.0 = set_field32(self.0, 10, 2, v as u64);
    }

    pub fn with_dmistat(self, v: u8) -> (r: Self)
        ensures
            r.0 as u64 == with_field(self.0 as u64, 10, 2, v as u64),
    {
        DTMCS(set_field32(self.0, 10, 2, v as u64))
    }

    #[verifier::allow_in_spec]
    pub fn idle(&self) -> u8
        returns
            field(self.0 as u64, 12, 3) as u8,
    {
        get_field(self.0 as u64, 12, 3) as u8
    }

    pub fn set_idle(&mut self, v: u8)
        ensures
            final(self).0 as u64 == with_field(old(self).0 as u64, 12, 3, v as u64),
    {
        self.0 = set_field32(self.0, 12, 3, v as u64);
    }

    #[verifier::allow_in_spec]
    pub fn dmireset(&self) -> bool
        returns
            flag(self.0 as u64, 16),
    {
        get_flag(self.0 as u64, 16)
    }

    pub fn set_dmireset(&mut self, b: bool)
        ensures
            final(self).0 as u64 == with_flag(old(self).0 as u64, 16, b),
    {
        self.0 = set_flag32(self.0, 16, b);
    }

    #[verifier::allow_in_spec]
    pub fn dtmhardreset(&self) -> bool
        returns
            flag(self.0 as u64, 17),
    {
        get_flag(self.0 as u64, 17)
    }

    pub fn set_dtmhardreset(&mut self, b: bool)
        ensures
            final(self).0 as u64 == with_flag(old(self).0 as u64, 17, b),
    {
        self.0 = set_flag32(self.0, 17, b);
    }

    #[verifier::allow_in_spec]
    pub fn errinfo(&self) -> u8
        returns
            field(self.0 as u64, 18, 3) as u8,
    {
        get_field(self.0 as u64, 18, 3) as u8
    }

    pub fn set_errinfo(&mut self, v: u8)
        ensures
            final(self).0 as u64 == with_field(old(self).0 as u64, 18, 3, v as u64),
    {
        self.0 = set_field32(self.0, 18, 3, v as u64);
    }

    pub fn with_errinfo(self, v: u8) -> (r: Self)
        ensures
            r.0 as u64 == with_field(self.0 as u64, 18, 3, v as u64),
    {
        DTMCS(set_field32(self.0, 18, 3, v as u64))
    }

}

/// The `dmi` register: one debug module interface access.
#[derive(Clone, Copy, PartialEq, Eq, Debug, Structural)]
pub struct DTMI(pub u64);

impl DTMI {
    pub fn new() -> (r: Self)
        ensures
            r.0 == 0,
    {
        DTMI(0)
    }

    #[verifier::allow_in_spec]
    pub fn op(&self) -> u8
        returns
            field(self.0, 0, 2) as u8,
    {
        get_field(self.0, 0, 2) as u8
    }

    pub fn set_op(&mut self, v: u8)
        ensures
            final(self).0 == with_field(old(self).0, 0, 2, v as u64),
    {
        self.0 = set_field(self.0, 0, 2, v as u64);
    }

    pub fn with_op(self, v: u8) -> (r: Self)
        ensures
            r.0 == with_field(self.0, 0, 2, v as u64),
    {
        DTMI(set_field(self.0, 0, 2, v as u64))
    }

    #[verifier::allow_in_spec]
    pub fn data(&self) -> u32
        returns
            field(self.0, 2, 32) as u32,
    {
        get_field(self.0, 2, 32) as u32
    }

    pub fn set_data(&mut self, v: u32)
        ensures
            final(self).0 == with_field(old(self).0, 2, 32, v as u64),
    {
        self.0 = set_field(self.0, 2, 32, v as u64);
    }

    #[verifier::allow_in_spec]
    pub fn address(&self) -> u32
        returns
            field(self.0, 34, 30) as u32,
    {
        get_field(self.0, 34, 30) as u32
    }

    pub fn set_address(&mut self, v: u32)
        ensures
            final(self).0 == with_field(old(self).0, 34, 30, v as u64),
    {
        self.0 = set_field(self.0, 34, 30, v as u64);
    }

}

/// The registers a JTAG instruction can select.
#[derive(Clone, Copy, PartialEq, Eq, Debug, Structural)]
pub enum JtagDTMRegister {
    BYPASS0,
    IDCODE,
    DTMCS,
    DMI,
    BYPASS1F,
}

/// The instruction codes that name a register of the transport module.
pub open spec fn is_dtm_register_code(val: u8) -> bool {
    val == 0x00 || val == 0x01 || val == 0x10 || val == 0x11 || val == 0x1f
}

impl JtagDTMRegister {
    pub fn new(val: u8) -> (r: JtagDTMRegister)
        requires
            is_dtm_register_code(val),
        ensures
            r.value() == val,
    {
        match val {
            0x00 => JtagDTMRegister::BYPASS0,
            0x01 => JtagDTMRegister::IDCODE,
            0x10 => JtagDTMRegister::DTMCS,
            0x11 => JtagDTMRegister::DMI,
            _ => JtagDTMRegister::BYPASS1F,
        }
    }

    /// The instruction code of the register.
    #[verifier::allow_in_spec]
    pub fn value(&self) -> u8
        returns
            match self {
                JtagDTMRegister::BYPASS0 => 0x00u8,
                JtagDTMRegister::IDCODE => 0x01u8,
                JtagDTMRegister::DTMCS => 0x10u8,
                JtagDTMRegister::DMI => 0x11u8,
                JtagDTMRegister::BYPASS1F => 0x1fu8,
            },
    {
        match self {
            JtagDTMRegister::BYPASS0 => 0x00,
            JtagDTMRegister::IDCODE => 0x01,
            JtagDTMRegister::DTMCS => 0x10,
            JtagDTMRegister::DMI => 0x11,
            JtagDTMRegister::BYPASS1F => 0x1f,
        }
    }
}

/// A JTAG shift register of `len` bits.
pub struct ShifterRegister {
    pub data: u64,
    pub len: u8,
    pub default: u64,
}

/// The value of a shift register: its low `len` bits.
pub open spec fn shifter_value(data: u64, len: u8) -> u64 {
    data & low_mask(len as u64)
}

/// The contents after shifting `new_in` in at the top of a `len`-bit register.
pub open spec fn shifted_right(data: u64, len: u8, new_in: bool) -> u64 {
    (data >> 1u64) | ((if new_in { 1u64 } else { 0u64 }) << ((len - 1) as u64))
}

impl ShifterRegister {
    pub open spec fn wf(&self) -> bool {
        1 <= self.len <= 64
    }

    pub fn new(default: u64, len: u8) -> (r: ShifterRegister)
        requires
            1 <= len <= 64,
        ensures
            r.wf(),
            r.data == default,
            r.len == len,
            r.default == default,
    {
        ShifterRegister { data: default, len, default }
    }

    pub fn clear(&mut self)
        ensures
            final(self).data == 0,
            final(self).len == old(self).len,
            final(self).default == old(self).default,
    {
        self.data = 0;
    }

    pub fn len_mask(&self) -> (r: u64)
        requires
            1 <= self.len < 64,
        ensures
            r == low_mask(self.len as u64),
    {
        low_mask_of(self.len as u64)
    }

    pub fn set(&mut self, new_data: u64, len: u8)
        requires
            1 <= len < 64,
        ensures
            final(self).len == len,
            final(self).data == new_data & low_mask(len as u64),
            final(self).default == old(self).default,
    {
        self.len = len;
        self.data = new_data & self.len_mask();
    }

    /// Shifts one bit in at the top; the bottom bit falls out.
    pub fn shift_right(&mut self, new_in: bool)
        requires
            old(self).wf(),
        ensures
            final(self).data == shifted_right(old(self).data, old(self).len, new_in),
            final(self).len == old(self).len,
            final(self).default == old(self).default,
    {
        self.data = self.data >> 1u64;
        self.data = self.data | ((if new_in { 1u64 } else { 0u64 }) << (self.len - 1) as u64);
    }

    /// Shifts one bit in at the bottom.
    pub fn shift_left(&mut self, new_in: bool)
        ensures
            final(self).data == (old(self).data << 1u64) | (if new_in { 1u64 } else { 0u64 }),
            final(self).len == old(self).len,
            final(self).default == old(self).default,
    {
        self.data = self.data << 1u64;
        self.data = self.data | (if new_in { 1u64 } else { 0u64 });
    }

    pub fn data(&self) -> (r: u64)
        requires
            1 <= self.len < 64,
        ensures
            r == shifter_value(self.data, self.len),
    {
        self.data & self.len_mask()
    }
}

/// The JTAG debug transport module in front of the debug module of hart `H`.
pub struct JtagDriver<H: DebugModuleSlave> {
    //  debug module
    pub dm: DebugModule<H>,
    // jtag wires
    pub tck: bool,
    pub tms: bool,
    pub tdi: bool,
    pub tdo: bool,
    // jtag shifter regs
    pub ir: ShifterRegister,
    pub dr: ShifterRegister,
    // dtm regs
    pub dtmcs: DTMCS,
    pub dmi: DTMI,
    pub idcode: DTMIDCode,
    pub bypass0: bool,
    pub state: JtagState,
}

/// The instruction an instruction register value selects.
pub open spec fn ir_code(ir: ShifterRegister) -> u8 {
    shifter_value(ir.data, ir.len) as u8
}

/// The instruction codes on which capturing the data register succeeds.
pub open spec fn capture_code_ok(code: u8) -> bool {
    code == 0x00 || code == 0x01 || code == 0x10 || code == 0x11
}

/// The instruction codes and data register values on which updating the data register succeeds:
/// a `dtmcs` update may not ask for a DMI or DTM reset, and a `dmi` update may not use the reserved op.
pub open spec fn update_ok(code: u8, dr: u64) -> bool {
    ||| code == 0x00 || code == 0x01
    ||| code == 0x10 && !flag(dr, 16) && !flag(dr, 17)
    ||| code == 0x11 && field(dr, 0, 2) != DMI_OP_RESERVED
}

impl<H: DebugModuleSlave> JtagDriver<H> {
    /// The shift registers have usable lengths, and the data register has been
    /// captured (so has a length below 64) whenever it is shifted or updated.
    pub open spec fn wf(&self) -> bool {
        &&& self.dm.wf()
        &&& 1 <= self.ir.len < 64
        &&& 1 <= self.dr.len <= 64
        &&& self.dr.len == 64 ==> !is_dr_scan_state(self.state) && (self.state is CaptureDr ==> self.tck)
    }

    /// Every transport-module register other than the data register is as in `old`.
    pub open spec fn same_except_dr(&self, old: &Self) -> bool {
        &&& self.dm == old.dm
        &&& self.tck == old.tck
        &&& self.tms == old.tms
        &&& self.tdi == old.tdi
        &&& self.tdo == old.tdo
        &&& self.ir == old.ir
        &&& self.dtmcs == old.dtmcs
        &&& self.dmi == old.dmi
        &&& self.idcode == old.idcode
        &&& self.bypass0 == old.bypass0
        &&& self.state == old.state
    }

    /// What capturing the data register leaves in `new`: the selected register, at its width.
    pub open spec fn capture_dr_effect(&self, new: &Self) -> bool {
        let code = ir_code(self.ir);
        &&& new.same_except_dr(self)
        &&& new.dr.default == self.dr.default
        &&& code == 0x01 ==> new.dr.len == 32 && new.dr.data == (self.idcode.0 as u64) & low_mask(32)
        &&& code == 0x10 ==> new.dr.len == 32 && new.dr.data == (self.dtmcs.0 as u64) & low_mask(32)
        &&& code == 0x11 ==> new.dr.len == 40 && new.dr.data == self.dmi.0 & low_mask(40)
        &&& code == 0x00 ==> new.dr.len == 1 && new.dr.data == (if self.bypass0 { 1u64 } else { 0u64 }) & low_mask(1)
    }

    /// What updating from the data register leaves in `new`.
    pub open spec fn update_dr_effect(&self, new: &Self) -> bool {
        let code = ir_code(self.ir);
        let d = shifter_value(self.dr.data, self.dr.len);
        &&& new.tck == self.tck && new.tms == self.tms && new.tdi == self.tdi && new.tdo == self.tdo
        &&& new.ir == self.ir && new.dr == self.dr && new.dtmcs == self.dtmcs && new.idcode == self.idcode
        &&& new.state == self.state
        &&& code == 0x00 ==> new.bypass0 == (d != 0) && new.dm == self.dm && new.dmi == self.dmi
        &&& code == 0x01 || code == 0x10 ==> new.bypass0 == self.bypass0 && new.dm == self.dm && new.dmi == self.dmi
        &&& code == 0x11 ==> {
            &&& new.bypass0 == self.bypass0
            &&& if field(d, 0, 2) == DMI_OP_READ {
                exists|r: Option<u64>| {
                    &&& #[trigger] self.dm.dmi_read_effect(&new.dm, field(d, 34, 30), r)
                    &&& new.dmi.0 == match r {
                        Some(v) => with_field(with_field(d, 2, 32, (v as u32) as u64), 0, 2, DMI_OP_SUCCESS as u64),
                        None => with_field(d, 0, 2, DMI_OP_FAILED as u64),
                    }
                }
            } else if field(d, 0, 2) == DMI_OP_WRITE {
                exists|r: Option<()>| {
                    &&& #[trigger] self.dm.dmi_write_effect(&new.dm, field(d, 34, 30), field(d, 2, 32), r)
                    &&& new.dmi.0 == with_field(d, 0, 2, if r is Some { DMI_OP_SUCCESS as u64 } else { DMI_OP_FAILED as u64 })
                }
            } else {
                &&& new.dm == self.dm
                &&& new.dmi.0 == d
            }
        }
    }

    pub fn new(dm: DebugModule<H>) -> (r: JtagDriver<H>)
        requires
            dm.wf(),
        ensures
            r.wf(),
            r.dm == dm,
            !r.tck && !r.tms && !r.tdi && !r.tdo,
            r.ir.data == 0 && r.ir.len == 6,
            r.dr.data == 0 && r.dr.len == 64,
            r.dtmcs.0 as u64 == with_field(with_field(with_field(with_field(0, 18, 3, 0), 0, 4, 1), 4, 6, 6), 10, 2, 0),
            r.dmi.0 == with_field(0, 0, 2, DMI_OP_SUCCESS as u64),
            r.idcode.0 == 0xdeadbeef,
            !r.bypass0,
            r.state == JtagState::TestLogicReset,
    {
        let dtmcontrol = DTMCS::new().with_errinfo(0).with_version(1)  // 0.13
        .with_abits(6)  //The size of address in dmi.
        .with_dmistat(0);
        let dmi = DTMI::new().with_op(DMI_OP_SUCCESS);
        JtagDriver {
            dm,
            tck: false,
            tms: false,
            tdi: false,
            tdo: false,
            ir: ShifterRegister::new(0, 6),
            dr: ShifterRegister::new(0, 64),
            dtmcs: dtmcontrol,
            dmi,
            idcode: DTMIDCode(0xdeadbeef),
            bypass0: false,
            state: JtagState::TestLogicReset,
        }
    }

    pub fn get_tdo(&self) -> (r: bool)
        ensures
            r == self.tdo,
    {
        self.tdo
    }

    /// The pin changes on which the transport module does not stop: a capture
    /// or update on a falling or steady clock must find a register it knows.
    pub open spec fn set_pins_ok(&self, new_tck: bool) -> bool {
        let posedge = new_tck && !self.tck;
        !posedge ==> {
            &&& self.state is CaptureDr ==> capture_code_ok(ir_code(self.ir))
            &&& self.state is UpdateDr ==> update_ok(ir_code(self.ir), shifter_value(self.dr.data, self.dr.len))
        }
    }

    /// Whether `set_pins` may be called with a clock level of `new_tck`.
    pub fn can_set_pins(&self, new_tck: bool) -> (r: bool)
        requires
            self.wf(),
        ensures
            r == self.set_pins_ok(new_tck),
    {
        let posedge = new_tck && !self.tck;
        if posedge {
            return true;
        }
        match self.state {
            JtagState::CaptureDr => {
                let code = self.ir.data() as u8;
                code == 0x00 || code == 0x01 || code == 0x10 || code == 0x11
            },
            JtagState::UpdateDr => {
                let code = self.ir.data() as u8;
                let d = self.dr.data();
                if code == 0x00 || code == 0x01 {
                    true
                } else if code == 0x10 {
                    !get_flag(d, 16) && !get_flag(d, 17)
                } else if code == 0x11 {
                    get_field(d, 0, 2) != DMI_OP_RESERVED as u64
                } else {
                    false
                }
            },
            _ => true,
        }
    }

    /// What `set_pins(new_tck, new_tms, new_tdi)` makes of the transport
    /// module `o`: the pins are taken; on a rising TCK edge the shift
    /// registers sample TDI and the TAP controller advances on TMS (both as
    /// set before); otherwise the current state acts and TDO is updated.
    pub open spec fn pins_set(o: Self, n: Self, new_tck: bool, new_tms: bool, new_tdi: bool) -> bool {
        &&& n.wf()
        &&& n.tck == new_tck && n.tms == new_tms && n.tdi == new_tdi
        &&& n.dtmcs == o.dtmcs && n.idcode == o.idcode
        &&& if new_tck && !o.tck {
            &&& n.state == next_tap_state(o.state, o.tms)
            &&& o.state is ShiftDr ==> n.dr.data == shifted_right(o.dr.data, o.dr.len, o.tdi)
                && n.dr.len == o.dr.len
            &&& !(o.state is ShiftDr) ==> n.dr == o.dr
            &&& o.state is ShiftIr ==> n.ir.data == shifted_right(o.ir.data, o.ir.len, o.tdi)
                && n.ir.len == o.ir.len
            &&& !(o.state is ShiftIr) ==> n.ir == o.ir
            &&& n.dm == o.dm && n.tdo == o.tdo && n.dmi == o.dmi && n.bypass0 == o.bypass0
        } else {
            &&& n.state == o.state
            &&& match o.state {
                JtagState::TestLogicReset => n.ir.data == 1 && n.ir.len == 32 && n.dr == o.dr
                    && n.dm == o.dm && n.tdo == o.tdo && n.dmi == o.dmi && n.bypass0 == o.bypass0,
                JtagState::CaptureDr => exists|m: Self| #[trigger] o.capture_dr_effect(&m)
                    && n.dr == m.dr && n.ir == o.ir && n.dm == o.dm && n.tdo == o.tdo
                    && n.dmi == o.dmi && n.bypass0 == o.bypass0,
                JtagState::UpdateDr => exists|m: Self| #[trigger] o.update_dr_effect(&m)
                    && n.dm == m.dm && n.dmi == m.dmi && n.bypass0 == m.bypass0 && n.dr == o.dr
                    && n.ir == o.ir && n.tdo == o.tdo,
                JtagState::CaptureIr => n.ir.data == 1 && n.ir.len == 5 && n.dr == o.dr
                    && n.dm == o.dm && n.tdo == o.tdo && n.dmi == o.dmi && n.bypass0 == o.bypass0,
                JtagState::ShiftDr => n.tdo == (shifter_value(o.dr.data, o.dr.len) & 1 != 0)
                    && n.ir == o.ir && n.dr == o.dr && n.dm == o.dm && n.dmi == o.dmi && n.bypass0 == o.bypass0,
                JtagState::ShiftIr => n.tdo == (shifter_value(o.ir.data, o.ir.len) & 1 != 0)
                    && n.ir == o.ir && n.dr == o.dr && n.dm == o.dm && n.dmi == o.dmi && n.bypass0 == o.bypass0,
                _ => n.ir == o.ir && n.dr == o.dr && n.dm == o.dm && n.tdo == o.tdo && n.dmi == o.dmi
                    && n.bypass0 == o.bypass0,
            }
        }
    }

    /// Drives the JTAG pins (see `pins_set`).
    pub fn set_pins(&mut self, new_tck: bool, new_tms: bool, new_tdi: bool)
        requires
            old(self).wf(),
            old(self).set_pins_ok(new_tck),
        ensures
            Self::pins_set(*old(self), *final(self), new_tck, new_tms, new_tdi),
    {
        let posedge_tck = new_tck && !self.tck;
        if posedge_tck {
            // Positive clock edge: TMS and TDI are sampled by the target.
            match self.state {
                JtagState::ShiftDr => {
                    self.dr.shift_right(self.tdi);
                },
                JtagState::ShiftIr => {
                    self.ir.shift_right(self.tdi);
                },
                _ => {},
            }
            self.state = self.state.next_state(self.tms);
        } else {
            // Negative clock edge: TDO is updated.
            match self.state {
                JtagState::RunTestIdle => {},
                JtagState::TestLogicReset => {
                    // The IDCODE register is selected when the TAP controller is reset.
                    self.ir.set(JtagDTMRegister::IDCODE.value() as u64, 32);
                    proof {
                        lemma_low_mask_values();
                        assert((1u64 & 0xffff_ffffu64) == 1 && (1u64 & 0x1fu64) == 1) by (bit_vector);
                    }
                },
                JtagState::CaptureDr => {
                    let ghost before = *self;
                    self.capture_dr();
                    assert(before.capture_dr_effect(self));
                },
                JtagState::UpdateDr => {
                    let ghost before = *self;
                    self.update_dr();
                    assert(before.update_dr_effect(self));
                },
                JtagState::CaptureIr => {
                    // The JTAG spec only says the captured value must end with 0b01.
                    self.ir.set(0x01, 5);
                    proof {
                        lemma_low_mask_values();
                        assert((1u64 & 0xffff_ffffu64) == 1 && (1u64 & 0x1fu64) == 1) by (bit_vector);
                    }
                },
                JtagState::ShiftDr => {
                    self.tdo = self.dr.data() & 1 != 0;
                },
                JtagState::ShiftIr => {
                    self.tdo = self.ir.data() & 1 != 0;
                },
                _ => {},
            }
        }
        self.tck = new_tck;
        self.tms = new_tms;
        self.tdi = new_tdi;
    }

    fn is_busy(&self) -> (r: bool)
        ensures
            !r,
    {
        false
    }

    fn capture_dr(&mut self)
        requires
            old(self).wf(),
            old(self).state is CaptureDr,
            capture_code_ok(ir_code(old(self).ir)),
        ensures
            old(self).capture_dr_effect(final(self)),
            1 <= final(self).dr.len < 64,
    {
        let code = self.ir.data() as u8;
        match JtagDTMRegister::new(code) {
            JtagDTMRegister::IDCODE => {
                self.dr.set(self.idcode.0 as u64, 32);
            },
            JtagDTMRegister::DTMCS => {
                self.dr.set(self.dtmcs.0 as u64, 32);
            },
            JtagDTMRegister::DMI => {
                // a busy transport module would answer DMI_OP_STATUS_BUSY
                let tmp = if self.is_busy() {
                    DMI_OP_STATUS_BUSY as u64
                } else {
                    self.dmi.0
                };
                self.dr.set(tmp, 40);
            },
            JtagDTMRegister::BYPASS0 => {
                self.dr.set(if self.bypass0 { 1u64 } else { 0u64 }, 1);
            },
            JtagDTMRegister::BYPASS1F => {
                // unreachable: excluded by the precondition
            },
        }
    }

    /// What `reset` makes of the transport module `o`: the shift registers
    /// and the DMI register cleared, the TAP controller in Test-Logic-Reset,
    /// the rest kept.
    pub open spec fn reset_done(o: Self, n: Self) -> bool {
        &&& n.wf()
        &&& n.ir.data == 0 && n.ir.len == o.ir.len
        &&& n.dr.data == 0 && n.dr.len == o.dr.len
        &&& n.dmi.0 == 0
        &&& n.state == JtagState::TestLogicReset
        &&& n.dm == o.dm && n.dtmcs == o.dtmcs && n.idcode == o.idcode && n.bypass0 == o.bypass0
        &&& n.tck == o.tck && n.tms == o.tms && n.tdi == o.tdi && n.tdo == o.tdo
    }

    /// Puts the transport module back into Test-Logic-Reset with cleared shift registers.
    pub fn reset(&mut self)
        requires
            old(self).wf(),
        ensures
            Self::reset_done(*old(self), *final(self)),
    {
        self.ir.clear();
        self.dr.clear();
        self.dmi = DTMI::new();
        self.state = JtagState::TestLogicReset;
    }

    fn update_dr(&mut self)
        requires
            old(self).wf(),
            old(self).state is UpdateDr,
            update_ok(ir_code(old(self).ir), shifter_value(old(self).dr.data, old(self).dr.len)),
        ensures
            old(self).update_dr_effect(final(self)),
            final(self).dm.wf(),
    {
        let code = self.ir.data() as u8;
        match JtagDTMRegister::new(code) {
            JtagDTMRegister::IDCODE => {},
            JtagDTMRegister::DTMCS => {
                // dmireset and dtmhardreset requests are excluded by the precondition
            },
            JtagDTMRegister::BYPASS0 => {
                self.bypass0 = self.dr.data() != 0;
            },
            JtagDTMRegister::DMI => {
                self.dmi.0 = self.dr.data();
                let op = self.dmi.op();
                if op == DMI_OP_READ {
                    let ghost dm0 = self.dm;
                    let addr = self.dmi.address() as u64;
                    let rdata = self.dm.dmi_read(addr);
                    match rdata {
                        Some(data) => {
                            self.dmi.set_data(data as u32);
                            self.dmi.set_op(DMI_OP_SUCCESS);
                        },
                        None => {
                            self.dmi.set_op(DMI_OP_FAILED);
                        },
                    }
                    assert(dm0.dmi_read_effect(&self.dm, addr, rdata));
                } else if op == DMI_OP_WRITE {
                    let ghost dm0 = self.dm;
                    let addr = self.dmi.address() as u64;
                    let wdata = self.dmi.data() as u64;
                    let w_ret = self.dm.dmi_write(addr, wdata);
                    if w_ret.is_some() {
                        self.dmi.set_op(DMI_OP_SUCCESS);
                    } else {
                        self.dmi.set_op(DMI_OP_FAILED);
                    }
                    assert(dm0.dmi_write_effect(&self.dm, addr, wdata, w_ret));
                } else {
                    // DMI_OP_NOP: a nop lets the debugger check the result of the previous access
                }
            },
            JtagDTMRegister::BYPASS1F => {},
        }
    }
}

} // verus!
