//! The debug module: the registers a debugger reads and writes through the
//! debug module interface, and the abstract commands it runs on the hart.
use vstd::prelude::*;
use crate::bits::{lemma_field_bound, lemma_word_bounds, lemma_with_field_bound, field, flag, with_field, with_flag, hi32, lo32, join64, lemma_join_split};
use super::debug_module_register::{
    Abstractcs, Command, DMControl, DMStatus, HartInfo, ABSTRACTAUTO_ADDR, ABSTRACTCS_ADDR,
    ABSTRACT_DATA_BASE, AARSIZE_32, AARSIZE_64, AAMSIZE_8, AAMSIZE_16, AAMSIZE_32, AAMSIZE_64,
    CMDERR_BUS, CMDERR_BUSY, CMDERR_HALT_RESUME, CMDERR_NONE, CMDERR_NOTSUP, COMDTYPE_ACCESS_MEM,
    COMDTYPE_ACCESS_REG, COMMAND_ADDR, DMCONTROL_ADDR, DMSTATUS_ADDR, DMSTATUS_VERSION0_13,
    HALTSUM1_ADDR, HARTINFO_ADDR, HAWINDOW, HAWINDOWSEL_ADDR, PROGBUF_BASE,
};
use super::dm_interface::DebugModuleSlave;

verus! {

broadcast use lemma_field_bound;

/// Sizes and base address of the debug module.
pub struct DebugModuleConfig {
    pub progbuf_count: u32,
    pub abstract_data_count: u32,
    pub dm_base: u64,
}

impl DebugModuleConfig {
    pub fn new() -> (r: DebugModuleConfig)
        ensures
            r.progbuf_count == 16,
            r.abstract_data_count == 6,
            r.dm_base == 0,
    {
        DebugModuleConfig { progbuf_count: 16, abstract_data_count: 6, dm_base: 0x0 }
    }
}

/// What an abstract command asks of the hart.
#[derive(PartialEq, Eq, Debug, Structural)]
pub enum AbstractAction {
    /// An access-register command without transfer: nothing to do.
    Nothing,
    ReadCsr(usize),
    WriteCsr(usize, u64),
    ReadGpr(usize),
    WriteGpr(usize, u64),
    /// Physical memory read of (address, length in bytes).
    ReadMem(u64, usize),
    /// Physical memory write of (address, length in bytes, value).
    WriteMem(u64, usize, u64),
    NotSupported,
}

/// Argument `i` of an abstract command in its 32-bit form.
pub open spec fn arg32(data: Seq<u32>, i: int) -> u64 {
    data[i] as u64
}

/// Argument `i` of an abstract command in its 64-bit form (two data words, low first).
pub open spec fn arg64(data: Seq<u32>, i: int) -> u64 {
    (data[2 * i] + data[2 * i + 1] * 0x1_0000_0000) as u64
}

/// The data words with argument `i` set to the 64-bit value `v`.
pub open spec fn with_arg64(data: Seq<u32>, i: int, v: u64) -> Seq<u32> {
    data.update(2 * i, (v % 0x1_0000_0000) as u32).update(2 * i + 1, (v / 0x1_0000_0000) as u32)
}

/// The register an access-register command names, as a read or as a write of `value`.
pub open spec fn register_action(regno: u64, write: bool, value: Option<u64>) -> AbstractAction {
    if regno <= 0xfff {
        if write {
            match value {
                Some(v) => AbstractAction::WriteCsr(regno as usize, v),
                None => AbstractAction::NotSupported,
            }
        } else {
            AbstractAction::ReadCsr(regno as usize)
        }
    } else if 0x1000 <= regno <= 0x101f {
        if write {
            match value {
                Some(v) => AbstractAction::WriteGpr((regno - 0x1000) as usize, v),
                None => AbstractAction::NotSupported,
            }
        } else {
            AbstractAction::ReadGpr((regno - 0x1000) as usize)
        }
    } else {
        AbstractAction::NotSupported
    }
}

/// The byte length an `aamsize` names, if the debug module supports it.
pub open spec fn aamsize_len(aamsize: u64) -> Option<usize> {
    if aamsize == 0 {
        Some(1)
    } else if aamsize == 1 {
        Some(2)
    } else if aamsize == 2 {
        Some(4)
    } else if aamsize == 3 {
        Some(8)
    } else {
        None
    }
}

/// What the abstract command `command` asks, given the data registers `data`.
pub open spec fn abstract_action(command: u32, data: Seq<u32>) -> AbstractAction {
    let c = command as u64;
    let cmdtype = field(c, 24, 8);
    if cmdtype == COMDTYPE_ACCESS_REG {
        let aarsize = field(c, 20, 3);
        let value = if aarsize == AARSIZE_32 {
            Some(arg32(data, 0))
        } else if aarsize == AARSIZE_64 {
            Some(arg64(data, 0))
        } else {
            None
        };
        if !flag(c, 17) {
            AbstractAction::Nothing
        } else {
            register_action(field(c, 0, 16), flag(c, 16), value)
        }
    } else if cmdtype == COMDTYPE_ACCESS_MEM {
        if flag(c, 23) {
            AbstractAction::NotSupported
        } else {
            match aamsize_len(field(c, 20, 3)) {
                Some(len) => if flag(c, 16) {
                    AbstractAction::WriteMem(arg64(data, 1), len, arg64(data, 0))
                } else {
                    AbstractAction::ReadMem(arg64(data, 1), len)
                },
                None => AbstractAction::NotSupported,
            }
        }
    } else {
        AbstractAction::NotSupported
    }
}

/// `abstractcs` with its `cmderr` field set to `err`.
pub open spec fn with_cmderr(cs: u32, err: u64) -> u64 {
    with_field(cs as u64, 8, 3, err)
}

/// The data registers and `abstractcs` after a halted hart answered `result` to `action`.
pub open spec fn command_outcome(data: Seq<u32>, cs: u32, action: AbstractAction, result: Option<u64>) -> (Seq<u32>, u64) {
    match action {
        AbstractAction::ReadCsr(_) | AbstractAction::ReadGpr(_) => match result {
            Some(v) => (with_arg64(data, 0, v), cs as u64),
            None => (data, cs as u64),
        },
        AbstractAction::ReadMem(_, _) => match result {
            Some(v) => (with_arg64(data, 0, v), cs as u64),
            None => (data, with_cmderr(cs, CMDERR_BUS as u64)),
        },
        AbstractAction::WriteMem(_, _, _) => match result {
            Some(_) => (data, cs as u64),
            None => (data, with_cmderr(cs, CMDERR_BUS as u64)),
        },
        AbstractAction::NotSupported => (data, with_cmderr(cs, CMDERR_NOTSUP as u64)),
        _ => (data, cs as u64),
    }
}

/// The hart `h` went to `n`, answering `result`, by the call `action` asks for:
/// a CSR or register read leaves it as it was and answers the value, a
/// write writes the value, a memory access is made, and no action makes no call.
pub open spec fn action_done<H: DebugModuleSlave>(h: H, n: H, action: AbstractAction, result: Option<u64>) -> bool {
    match action {
        AbstractAction::ReadCsr(a) => n == h && result == Some(h.csr_of(a)),
        AbstractAction::WriteCsr(a, v) => h.csr_written_to(n, a, v) && result is None,
        AbstractAction::ReadGpr(r) => n == h && result == Some(h.gpr_of(r)),
        AbstractAction::WriteGpr(r, v) => h.gpr_written_to(n, r, v) && result is None,
        AbstractAction::ReadMem(addr, len) => h.memory_read(n, addr, len, result),
        AbstractAction::WriteMem(addr, len, v) => h.memory_written(n, addr, len, v, result),
        _ => n == h && result is None,
    }
}

/// The data registers, `abstractcs` and the hart go from (`data`, `cs`,
/// `h`) to (`new_data`, `new_cs`, `n`) when `command` runs: a hart that is
/// not halted is left alone and the command fails with a halt/resume
/// error; a halted hart gets the call the command asks for, and its answer
/// is recorded.
pub open spec fn abstract_command_effect<H: DebugModuleSlave>(
    command: u32,
    data: Seq<u32>,
    cs: u32,
    h: H,
    n: H,
    new_data: Seq<u32>,
    new_cs: u32,
) -> bool {
    let action = abstract_action(command, data);
    if !h.is_halted() {
        &&& n == h
        &&& new_data == data
        &&& new_cs as u64 == with_cmderr(cs, CMDERR_HALT_RESUME as u64)
    } else {
        exists|result: Option<u64>| #[trigger] action_done(h, n, action, result)
            && (new_data, new_cs as u64) == command_outcome(data, cs, action, result)
    }
}

/// A `dmcontrol` value `v` asks for a reset of the hart: `hartreset` or `ndmreset` is set.
pub open spec fn reset_requested(v: u64) -> bool {
    flag(v, 29) || flag(v, 1)
}

/// The calls a write of `w` to `dmcontrol` makes of the hart, taking it
/// from `h` to `n`: `havereset` acknowledged when `ackhavereset` is set,
/// the halt request set to `haltreq`, a resume asked when `resumereq` is
/// set without `haltreq`, then the reset request set when `hartreset`
/// (reset the selected hart) or `ndmreset` (reset the whole platform,
/// every hart included) is set.
pub open spec fn dmcontrol_hart_calls<H: DebugModuleSlave>(h: H, n: H, w: u32) -> bool {
    let v = w as u64;
    exists|h1: H, h2: H, h3: H| #![trigger h1.haltreq_set(h2, flag(v, 31)), h3.reset_req_set(n, reset_requested(v))] {
        &&& if flag(v, 28) { h.havereset_cleared(h1) } else { h1 == h }
        &&& h1.haltreq_set(h2, flag(v, 31))
        &&& if !flag(v, 31) && flag(v, 30) { h2.resume_requested(h3) } else { h3 == h2 }
        &&& h3.reset_req_set(n, reset_requested(v))
    }
}

/// The `dmcontrol` value read back: the stored value with `hartreset` showing
/// whether the hart has been reset, and a single selected hart.
pub open spec fn dmcontrol_readback(c: u32, havereset: bool) -> u64 {
    let v = c as u64;
    with_flag(
        with_flag(
            with_field(with_field(with_flag(with_flag(v, 29, havereset), 26, false), 6, 10, 0), 16, 10, 0),
            0,
            flag(v, 0),
        ),
        1,
        flag(v, 1),
    )
}

/// The `dmstatus` value refreshed from the hart's answers (single hart, always available).
pub open spec fn dmstatus_refresh(s: u32, havereset: bool, resume_ack: bool, halted: bool, running: bool) -> u64 {
    let v0 = with_flag(with_flag(with_flag(with_flag(s as u64, 12, false), 13, false), 14, false), 15, false);
    let v1 = with_flag(with_flag(v0, 18, havereset), 19, havereset);
    let v2 = with_flag(with_flag(v1, 16, resume_ack), 17, resume_ack);
    let v3 = with_flag(with_flag(v2, 8, halted), 9, halted);
    with_flag(with_flag(v3, 10, running), 11, running)
}

/// `abstractcs` after the debugger wrote `w` to it: `cmderr` becomes busy when
/// `w` sets `busy`, otherwise each `cmderr` bit written as 1 is cleared.
pub open spec fn abstractcs_write(cs: u32, w: u32) -> u64 {
    if flag(w as u64, 12) {
        with_cmderr(cs, CMDERR_BUSY as u64)
    } else {
        with_cmderr(cs, ((field(cs as u64, 8, 3) as u8) & !(field(w as u64, 8, 3) as u8)) as u64)
    }
}

/// The debug module of a single hart `H`.
pub struct DebugModule<H: DebugModuleSlave> {
    pub hart0: H,
    // debug module registers
    pub progbuf: Vec<u32>,
    pub abstract_data: Vec<u32>,
    pub dmcontrol: DMControl,
    pub dmstatus: DMStatus,
    pub hartinfo: HartInfo,
    pub abstractcs: Abstractcs,
    pub command: Command,
    pub config: DebugModuleConfig,
}

impl<H: DebugModuleSlave> DebugModule<H> {
    /// The sizes of the register files match the configuration.
    pub open spec fn wf(&self) -> bool {
        &&& self.config.progbuf_count == 16
        &&& self.config.abstract_data_count == 6
        &&& self.config.dm_base == 0
        &&& self.progbuf@.len() == 16
        &&& self.abstract_data@.len() == 6
        &&& self.hart0.ready()
    }

    /// Every debug module register other than the data words, `abstractcs` and the hart is as in `old`.
    pub open spec fn same_other_regs(&self, old: &Self) -> bool {
        &&& self.progbuf@ == old.progbuf@
        &&& self.dmcontrol == old.dmcontrol
        &&& self.dmstatus == old.dmstatus
        &&& self.hartinfo == old.hartinfo
        &&& self.command == old.command
        &&& self.config == old.config
    }

    /// What a debugger read of `address` that returned `r` leaves in `new`.
    pub open spec fn dmi_read_effect(&self, new: &Self, address: u64, r: Option<u64>) -> bool {
        &&& r is Some
        &&& new.progbuf@ == self.progbuf@
        &&& new.abstract_data@ == self.abstract_data@
        &&& new.dmcontrol == self.dmcontrol
        &&& new.hartinfo == self.hartinfo
        &&& new.abstractcs == self.abstractcs
        &&& new.command == self.command
        &&& new.config == self.config
        &&& ({
                let addr = address as usize;
                if ABSTRACT_DATA_BASE <= addr < ABSTRACT_DATA_BASE + 6 {
                    &&& r == Some(self.abstract_data@[addr - ABSTRACT_DATA_BASE] as u64)
                    &&& new.dmstatus == self.dmstatus
                    &&& new.hart0 == self.hart0
                } else if PROGBUF_BASE <= addr < PROGBUF_BASE + 16 {
                    &&& r == Some(self.progbuf@[addr - PROGBUF_BASE] as u64)
                    &&& new.dmstatus == self.dmstatus
                    &&& new.hart0 == self.hart0
                } else if addr == DMCONTROL_ADDR {
                    &&& new.dmstatus == self.dmstatus
                    &&& new.hart0 == self.hart0
                    &&& r == Some(dmcontrol_readback(self.dmcontrol.0, self.hart0.has_reset()))
                } else if addr == DMSTATUS_ADDR {
                    &&& r == Some(new.dmstatus.0 as u64)
                    &&& new.hart0 == self.hart0
                    &&& new.dmstatus.0 as u64 == dmstatus_refresh(
                        self.dmstatus.0,
                        self.hart0.has_reset(),
                        self.hart0.resume_acked(),
                        self.hart0.is_halted(),
                        !self.hart0.is_halted(),
                    )
                } else if addr == HARTINFO_ADDR {
                    &&& r == Some(self.hartinfo.0 as u64)
                    &&& new.dmstatus == self.dmstatus
                    &&& new.hart0 == self.hart0
                } else if addr == ABSTRACTCS_ADDR {
                    &&& r == Some(self.abstractcs.0 as u64)
                    &&& new.dmstatus == self.dmstatus
                    &&& new.hart0 == self.hart0
                } else {
                    &&& r == Some(0u64)
                    &&& new.dmstatus == self.dmstatus
                    &&& new.hart0 == self.hart0
                }
            })
    }

    /// What a debugger write of `wdata` to `address` that returned `r` leaves in `new`.
    pub open spec fn dmi_write_effect(&self, new: &Self, address: u64, wdata: u64, r: Option<()>) -> bool {
        &&& new.config == self.config
        &&& ({
                let addr = address as usize;
                if ABSTRACT_DATA_BASE <= addr < ABSTRACT_DATA_BASE + 6 {
                    &&& r is Some
                    &&& new.abstract_data@ == self.abstract_data@.update(
                        addr - ABSTRACT_DATA_BASE,
                        wdata as u32,
                    )
                    &&& new.same_other_regs(self)
                    &&& new.abstractcs == self.abstractcs
                    &&& new.hart0 == self.hart0
                } else if PROGBUF_BASE <= addr < PROGBUF_BASE + 16 {
                    &&& r is Some
                    &&& new.progbuf@ == self.progbuf@.update(addr - PROGBUF_BASE, wdata as u32)
                    &&& new.abstract_data@ == self.abstract_data@
                    &&& new.dmcontrol == self.dmcontrol
                    &&& new.dmstatus == self.dmstatus
                    &&& new.hartinfo == self.hartinfo
                    &&& new.command == self.command
                    &&& new.abstractcs == self.abstractcs
                    &&& new.hart0 == self.hart0
                } else if addr == DMCONTROL_ADDR {
                    &&& r is Some
                    &&& new.dmcontrol.0 == wdata as u32
                    &&& dmcontrol_hart_calls(self.hart0, new.hart0, wdata as u32)
                    &&& new.progbuf@ == self.progbuf@
                    &&& new.abstract_data@ == self.abstract_data@
                    &&& new.dmstatus == self.dmstatus
                    &&& new.hartinfo == self.hartinfo
                    &&& new.command == self.command
                    &&& new.abstractcs == self.abstractcs
                } else if addr == HARTINFO_ADDR {
                    &&& r is Some
                    &&& new.hartinfo.0 == wdata as u32
                    &&& new.progbuf@ == self.progbuf@
                    &&& new.abstract_data@ == self.abstract_data@
                    &&& new.dmcontrol == self.dmcontrol
                    &&& new.dmstatus == self.dmstatus
                    &&& new.command == self.command
                    &&& new.abstractcs == self.abstractcs
                    &&& new.hart0 == self.hart0
                } else if addr == ABSTRACTCS_ADDR {
                    &&& r is Some
                    &&& new.abstractcs.0 as u64 == abstractcs_write(self.abstractcs.0, wdata as u32)
                    &&& new.same_other_regs(self)
                    &&& new.abstract_data@ == self.abstract_data@
                    &&& new.hart0 == self.hart0
                } else if addr == COMMAND_ADDR {
                    &&& r is Some
                    &&& new.command.0 == wdata as u32
                    &&& new.progbuf@ == self.progbuf@
                    &&& new.dmcontrol == self.dmcontrol
                    &&& new.dmstatus == self.dmstatus
                    &&& new.hartinfo == self.hartinfo
                    &&& if field(self.abstractcs.0 as u64, 8, 3) != CMDERR_NONE {
                        // a command is not run while an earlier error is pending
                        &&& new.abstract_data@ == self.abstract_data@
                        &&& new.abstractcs == self.abstractcs
                        &&& new.hart0 == self.hart0
                    } else {
                        exists|cs: u32|
                            #[trigger] abstract_command_effect(
                                wdata as u32,
                                self.abstract_data@,
                                with_flag(self.abstractcs.0 as u64, 12, true) as u32,
                                self.hart0,
                                new.hart0,
                                new.abstract_data@,
                                cs,
                            ) && new.abstractcs.0 as u64 == with_flag(cs as u64, 12, false)
                    }
                } else if addr == DMSTATUS_ADDR || addr == HALTSUM1_ADDR || addr == HAWINDOWSEL_ADDR
                    || addr == HAWINDOW || addr == ABSTRACTAUTO_ADDR {
                    &&& r is Some
                    &&& *new == *self
                } else {
                    &&& r is None
                    &&& *new == *self
                }
            })
    }

    pub fn new(hart: H) -> (r: DebugModule<H>)
        requires
            hart.ready(),
        ensures
            r.wf(),
            r.hart0 == hart,
            r.progbuf@ == Seq::new(16, |i: int| 0u32),
            r.abstract_data@ == Seq::new(6, |i: int| 0u32),
            r.dmcontrol.0 == 0,
            r.dmstatus.0 as u64 == with_flag(with_field(0, 0, 4, DMSTATUS_VERSION0_13 as u64), 7, true),
            r.hartinfo.0 == 0,
            r.abstractcs.0 as u64 == with_field(with_field(0, 24, 5, 0), 0, 4, 6),
            r.command.0 == 0,
    {
        let config = DebugModuleConfig::new();

        let dmcontrol = DMControl::new();
        let dmstatus = DMStatus::new().with_version(DMSTATUS_VERSION0_13 as u8).with_authenticated(true);
        let hartinfo = HartInfo::new();
        let abstractcs = Abstractcs::new().with_progbufsize(0).with_datacount(
            config.abstract_data_count as u8,
        );
        let command = Command::new();
        let progbuf = vec![0u32; config.progbuf_count as usize];
        let abstract_data = vec![0u32; config.abstract_data_count as usize];
        assert(progbuf@ == Seq::new(16, |i: int| 0u32));
        assert(abstract_data@ == Seq::new(6, |i: int| 0u32));
        DebugModule {
            hart0: hart,
            progbuf,
            abstract_data,
            dmcontrol,
            dmstatus,
            hartinfo,
            abstractcs,
            command,
            config,
        }
    }

    fn arg_read32(&self, arg_idx: u8) -> (r: u32)
        requires
            self.wf(),
            arg_idx < 3,
        ensures
            r == self.abstract_data@[arg_idx as int],
    {
        self.abstract_data[arg_idx as usize]
    }

    fn arg_write32(&mut self, arg_idx: u8, value: u32)
        requires
            old(self).wf(),
            arg_idx < 3,
        ensures
            final(self).wf(),
            final(self).abstract_data@ == old(self).abstract_data@.update(arg_idx as int, value),
            final(self).same_other_regs(old(self)),
            final(self).abstractcs == old(self).abstractcs,
            final(self).hart0 == old(self).hart0,
    {
        self.abstract_data.set(arg_idx as usize, value);
    }

    fn arg_read64(&self, arg_idx: u8) -> (r: u64)
        requires
            self.wf(),
            arg_idx < 3,
        ensures
            r == arg64(self.abstract_data@, arg_idx as int),
    {
        let idx = (arg_idx * 2) as usize;  // 0,1; 2,3; 4,5
        join64(self.abstract_data[idx], self.abstract_data[idx + 1])
    }

    fn arg_write64(&mut self, arg_idx: u8, value: u64)
        requires
            old(self).wf(),
            arg_idx < 3,
        ensures
            final(self).wf(),
            final(self).abstract_data@ == with_arg64(old(self).abstract_data@, arg_idx as int, value),
            final(self).same_other_regs(old(self)),
            final(self).abstractcs == old(self).abstractcs,
            final(self).hart0 == old(self).hart0,
    {
        let idx = (arg_idx * 2) as usize;  // 0,1; 2,3; 4,5
        self.abstract_data.set(idx, lo32(value));
        self.abstract_data.set(idx + 1, hi32(value));
    }

    fn reset(&mut self)
        ensures
            *final(self) == *old(self),
    {
        // Resetting the debug module keeps its registers as they are.
    }

    /// Reads the debug module register at `address` on behalf of the debugger.
    pub fn dmi_read(&mut self, address: u64) -> (r: Option<u64>)
        requires
            old(self).wf(),
        ensures
            final(self).wf(),
            old(self).dmi_read_effect(final(self), address, r),
    {
        let addr = (address - self.config.dm_base) as usize;
        let abstract_data_end = ABSTRACT_DATA_BASE + self.config.abstract_data_count as usize;
        let progbuf_end = PROGBUF_BASE + self.config.progbuf_count as usize;

        let rdata = if ABSTRACT_DATA_BASE <= addr && addr < abstract_data_end {
            let offset = addr - ABSTRACT_DATA_BASE;
            self.abstract_data[offset] as u64
        } else if PROGBUF_BASE <= addr && addr < progbuf_end {
            let offset = addr - PROGBUF_BASE;
            self.progbuf[offset] as u64
        } else {
            match addr {
                DMCONTROL_ADDR => {
                    let mut r_dmcontrol = self.dmcontrol;
                    // only a single hart is supported
                    let havereset = self.hart0.havereset();
                    r_dmcontrol.set_hartreset(havereset);
                    r_dmcontrol.set_hasel(false);
                    r_dmcontrol.set_hartselhi(0);
                    r_dmcontrol.set_hartsello(0);
                    r_dmcontrol.set_dmactive(self.dmcontrol.dmactive());
                    r_dmcontrol.set_ndmreset(self.dmcontrol.ndmreset());
                    assert(r_dmcontrol.0 as u64 == dmcontrol_readback(self.dmcontrol.0, havereset));
                    r_dmcontrol.0 as u64
                },
                DMSTATUS_ADDR => {
                    // only a single hart is supported, always available
                    self.dmstatus.set_anyunavail(false);
                    self.dmstatus.set_allunavail(false);
                    self.dmstatus.set_anynonexistent(false);
                    self.dmstatus.set_allnonexistent(false);

                    let havereset = self.hart0.havereset();
                    self.dmstatus.set_anyhavereset(havereset);
                    self.dmstatus.set_allhavereset(havereset);

                    let resume_ack = self.hart0.resume_ack();
                    self.dmstatus.set_anyresumeack(resume_ack);
                    self.dmstatus.set_allresumeack(resume_ack);

                    let halted = self.hart0.halted();
                    self.dmstatus.set_anyhalted(halted);
                    self.dmstatus.set_allhalted(halted);

                    let running = self.hart0.running();
                    self.dmstatus.set_anyrunning(running);
                    self.dmstatus.set_allrunning(running);
                    assert(self.dmstatus.0 as u64 == dmstatus_refresh(
                        old(self).dmstatus.0,
                        havereset,
                        resume_ack,
                        halted,
                        running,
                    ));
                    self.dmstatus.0 as u64
                },
                HARTINFO_ADDR => self.hartinfo.0 as u64,
                ABSTRACTCS_ADDR => self.abstractcs.0 as u64,
                _ => 0,
            }
        };
        Some(rdata)
    }

    /// Writes `wdata` to the debug module register at `address` on behalf of the
    /// debugger; `None` when no register is at that address.
    pub fn dmi_write(&mut self, address: u64, wdata: u64) -> (r: Option<()>)
        requires
            old(self).wf(),
        ensures
            final(self).wf(),
            old(self).dmi_write_effect(final(self), address, wdata, r),
    {
        let addr = (address - self.config.dm_base) as usize;
        let abstract_data_end = ABSTRACT_DATA_BASE + self.config.abstract_data_count as usize;
        let progbuf_end = PROGBUF_BASE + self.config.progbuf_count as usize;

        if ABSTRACT_DATA_BASE <= addr && addr < abstract_data_end {
            let offset = addr - ABSTRACT_DATA_BASE;
            self.abstract_data.set(offset, wdata as u32);
            Some(())
        } else if PROGBUF_BASE <= addr && addr < progbuf_end {
            let offset = addr - PROGBUF_BASE;
            self.progbuf.set(offset, wdata as u32);
            Some(())
        } else {
            match addr {
                DMCONTROL_ADDR => {
                    let new_dmcontrol = DMControl(wdata as u32);
                    if new_dmcontrol.dmactive() && !self.dmcontrol.dmactive() {
                        self.reset();
                    }
                    self.dmcontrol.set_dmactive(new_dmcontrol.dmactive());
                    // only a single hart is supported
                    if new_dmcontrol.ackhavereset() {
                        // Clears havereset for any selected harts.
                        self.hart0.clear_havereset();
                    }
                    let ghost h1 = self.hart0;
                    // Writing 1 sets the halt request bit, writing 0 clears it.
                    self.hart0.set_haltreq(new_dmcontrol.haltreq());
                    let ghost h2 = self.hart0;
                    if !new_dmcontrol.haltreq() && new_dmcontrol.resumereq() {
                        // resumereq is ignored if haltreq is set.
                        self.hart0.resumereq();
                    }
                    let ghost h3 = self.hart0;
                    // hartreset resets the selected hart; ndmreset resets the
                    // whole platform, this hart included.
                    self.hart0.set_reset_req(new_dmcontrol.hartreset() || new_dmcontrol.ndmreset());
                    self.dmcontrol = new_dmcontrol;
                    assert(h1.haltreq_set(h2, flag(wdata as u32 as u64, 31)));
                    assert(h3.reset_req_set(self.hart0, reset_requested(wdata as u32 as u64)));
                    assert(dmcontrol_hart_calls(old(self).hart0, self.hart0, wdata as u32));
                    Some(())
                },
                DMSTATUS_ADDR => {
                    // read only
                    Some(())
                },
                HARTINFO_ADDR => {
                    self.hartinfo = HartInfo(wdata as u32);
                    Some(())
                },
                HALTSUM1_ADDR => Some(()),
                HAWINDOWSEL_ADDR => Some(()),
                HAWINDOW => Some(()),
                ABSTRACTCS_ADDR => {
                    let new_abstractcs = Abstractcs(wdata as u32);
                    if new_abstractcs.busy() {
                        // Writing while a command is executing makes cmderr busy.
                        self.abstractcs.set_cmderr(CMDERR_BUSY as u8);
                    } else {
                        // cmderr bits stay set until they are cleared by writing 1 to them.
                        let old_cmderr = self.abstractcs.cmderr();
                        let new_cmderr = old_cmderr & !new_abstractcs.cmderr();
                        self.abstractcs.set_cmderr(new_cmderr);
                    }
                    Some(())
                },
                COMMAND_ADDR => {
                    self.command = Command(wdata as u32);
                    // If cmderr is non-zero, writes to this register are ignored.
                    if self.abstractcs.cmderr() == CMDERR_NONE as u8 {
                        // busy is set while the command runs.
                        self.abstractcs.set_busy(true);
                        proof {
                            lemma_word_bounds();
                            lemma_with_field_bound(old(self).abstractcs.0 as u64, 12, 1, 1, 32);
                            assert(self.abstractcs.0 == with_flag(old(self).abstractcs.0 as u64, 12, true) as u32);
                        }
                        let ghost before = *self;
                        self.perform_abstract_command();
                        let ghost cs = self.abstractcs.0;
                        self.abstractcs.set_busy(false);
                        assert(abstract_command_effect(
                            wdata as u32,
                            old(self).abstract_data@,
                            with_flag(old(self).abstractcs.0 as u64, 12, true) as u32,
                            old(self).hart0,
                            self.hart0,
                            self.abstract_data@,
                            cs,
                        ));
                    }
                    Some(())
                },
                ABSTRACTAUTO_ADDR => Some(()),
                _ => None,
            }
        }
    }

    /// Decodes the pending abstract command.
    pub fn decode_abstract_command(&self) -> (r: AbstractAction)
        requires
            self.wf(),
        ensures
            r == abstract_action(self.command.0, self.abstract_data@),
    {
        let cmdtype = self.command.cmdtype() as usize;
        if cmdtype == COMDTYPE_ACCESS_REG {
            let command_reg = self.command.cmd_reg();
            let value = match command_reg.aarsize() as usize {
                AARSIZE_32 => Some(self.arg_read32(0) as u64),
                AARSIZE_64 => Some(self.arg_read64(0)),
                _ => None,
            };
            if !command_reg.transfer() {
                AbstractAction::Nothing
            } else {
                let regno = command_reg.regno();
                if regno <= 0x0fff {
                    if command_reg.write() {
                        match value {
                            Some(v) => AbstractAction::WriteCsr(regno as usize, v),
                            None => AbstractAction::NotSupported,
                        }
                    } else {
                        AbstractAction::ReadCsr(regno as usize)
                    }
                } else if 0x1000 <= regno && regno <= 0x101f {
                    if command_reg.write() {
                        match value {
                            Some(v) => AbstractAction::WriteGpr((regno - 0x1000) as usize, v),
                            None => AbstractAction::NotSupported,
                        }
                    } else {
                        AbstractAction::ReadGpr((regno - 0x1000) as usize)
                    }
                } else {
                    AbstractAction::NotSupported
                }
            }
        } else if cmdtype == COMDTYPE_ACCESS_MEM {
            let command_mem = self.command.cmd_mem();
            if command_mem.aamvirtual() {
                AbstractAction::NotSupported
            } else {
                let len: Option<usize> = match command_mem.aamsize() as usize {
                    AAMSIZE_8 => Some(1),
                    AAMSIZE_16 => Some(2),
                    AAMSIZE_32 => Some(4),
                    AAMSIZE_64 => Some(8),
                    _ => None,
                };
                match len {
                    Some(len) => {
                        let address = self.arg_read64(1);
                        if command_mem.write() {
                            AbstractAction::WriteMem(address, len, self.arg_read64(0))
                        } else {
                            AbstractAction::ReadMem(address, len)
                        }
                    },
                    None => AbstractAction::NotSupported,
                }
            }
        } else {
            AbstractAction::NotSupported
        }
    }

    /// Records what a halted hart answered to `action` in the data registers and `abstractcs`.
    pub fn finish_abstract_command(&mut self, action: &AbstractAction, result: Option<u64>)
        requires
            old(self).wf(),
        ensures
            final(self).wf(),
            (final(self).abstract_data@, final(self).abstractcs.0 as u64) == command_outcome(
                old(self).abstract_data@,
                old(self).abstractcs.0,
                *action,
                result,
            ),
            final(self).same_other_regs(old(self)),
            final(self).hart0 == old(self).hart0,
    {
        match action {
            AbstractAction::ReadCsr(_) | AbstractAction::ReadGpr(_) => {
                if let Some(v) = result {
                    self.arg_write64(0, v);
                }
            },
            AbstractAction::ReadMem(_, _) => {
                match result {
                    Some(v) => self.arg_write64(0, v),
                    None => self.abstractcs.set_cmderr(CMDERR_BUS as u8),
                }
            },
            AbstractAction::WriteMem(_, _, _) => {
                if result.is_none() {
                    self.abstractcs.set_cmderr(CMDERR_BUS as u8);
                }
            },
            AbstractAction::NotSupported => {
                self.abstractcs.set_cmderr(CMDERR_NOTSUP as u8);
            },
            _ => {},
        }
    }

    /// Runs the pending abstract command on the hart.
    fn perform_abstract_command(&mut self)
        requires
            old(self).wf(),
        ensures
            final(self).wf(),
            final(self).same_other_regs(old(self)),
            abstract_command_effect(
                old(self).command.0,
                old(self).abstract_data@,
                old(self).abstractcs.0,
                old(self).hart0,
                final(self).hart0,
                final(self).abstract_data@,
                final(self).abstractcs.0,
            ),
    {
        // The abstract command can only run on a halted hart.
        if !self.hart0.halted() {
            self.abstractcs.set_cmderr(CMDERR_HALT_RESUME as u8);
            return;
        }
        let action = self.decode_abstract_command();
        let result: Option<u64> = match action {
            AbstractAction::ReadCsr(addr) => Some(self.hart0.read_csr(addr)),
            AbstractAction::WriteCsr(addr, value) => {
                self.hart0.write_csr(addr, value);
                None
            },
            AbstractAction::ReadGpr(regno) => Some(self.hart0.read_gpr(regno)),
            AbstractAction::WriteGpr(regno, value) => {
                self.hart0.write_gpr(regno, value);
                None
            },
            AbstractAction::ReadMem(address, len) => self.hart0.read_memory(address, len),
            AbstractAction::WriteMem(address, len, value) => self.hart0.write_memory(address, len, value),
            _ => None,
        };
        assert(action_done(old(self).hart0, self.hart0, action, result));
        self.finish_abstract_command(&action, result);
    }
}

} // verus!
