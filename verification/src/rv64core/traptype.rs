//! The traps of the RV64 privileged architecture.
use vstd::prelude::*;

verus! {

/// An exception (with its trap value where it has one) or an interrupt.
#[derive(Clone, Copy, PartialEq, Eq, Debug, Structural)]
pub enum TrapType {
    InstructionAddressMisaligned(u64),
    InstructionAccessFault(u64),
    IllegalInstruction(u64),
    Breakpoint(u64),
    LoadAddressMisaligned(u64),
    LoadAccessFault(u64),
    StoreAddressMisaligned(u64),
    StoreAccessFault(u64),
    EnvironmentCallFromUMode,
    EnvironmentCallFromSMode,
    EnvironmentCallFromMMode,
    InstructionPageFault(u64),
    LoadPageFault(u64),
    StorePageFault(u64),
    SupervisorSoftwareInterrupt,
    MachineSoftwareInterrupt,
    SupervisorTimerInterrupt,
    MachineTimerInterrupt,
    SupervisorExternalInterrupt,
    MachineExternalInterrupt,
}

/// Why a hart entered debug mode (the `cause` field of `dcsr`).
#[derive(Clone, Copy, PartialEq, Eq, Debug, Structural)]
pub enum DebugCause {
    Ebreak,
    Trigger,
    HaltReq,
    Step,
    ResetHaltReq,
}

/// The `dcsr.cause` encoding of a debug cause.
pub open spec fn debug_cause_code(c: DebugCause) -> u8 {
    match c {
        DebugCause::Ebreak => 1,
        DebugCause::Trigger => 2,
        DebugCause::HaltReq => 3,
        DebugCause::Step => 4,
        DebugCause::ResetHaltReq => 5,
    }
}

impl DebugCause {
    pub fn code(&self) -> (r: u8)
        ensures
            r == debug_cause_code(*self),
    {
        match self {
            DebugCause::Ebreak => 1,
            DebugCause::Trigger => 2,
            DebugCause::HaltReq => 3,
            DebugCause::Step => 4,
            DebugCause::ResetHaltReq => 5,
        }
    }
}

/// Whether `t` is an interrupt.
pub open spec fn is_interrupt_trap(t: TrapType) -> bool {
    match t {
        TrapType::SupervisorSoftwareInterrupt | TrapType::MachineSoftwareInterrupt
        | TrapType::SupervisorTimerInterrupt | TrapType::MachineTimerInterrupt
        | TrapType::SupervisorExternalInterrupt | TrapType::MachineExternalInterrupt => true,
        _ => false,
    }
}

/// The exception or interrupt code of `t` (the low bits of `xcause`).
pub open spec fn trap_code(t: TrapType) -> u64 {
    match t {
        TrapType::InstructionAddressMisaligned(_) => 0,
        TrapType::InstructionAccessFault(_) => 1,
        TrapType::IllegalInstruction(_) => 2,
        TrapType::Breakpoint(_) => 3,
        TrapType::LoadAddressMisaligned(_) => 4,
        TrapType::LoadAccessFault(_) => 5,
        TrapType::StoreAddressMisaligned(_) => 6,
        TrapType::StoreAccessFault(_) => 7,
        TrapType::EnvironmentCallFromUMode => 8,
        TrapType::EnvironmentCallFromSMode => 9,
        TrapType::EnvironmentCallFromMMode => 11,
        TrapType::InstructionPageFault(_) => 12,
        TrapType::LoadPageFault(_) => 13,
        TrapType::StorePageFault(_) => 15,
        TrapType::SupervisorSoftwareInterrupt => 1,
        TrapType::MachineSoftwareInterrupt => 3,
        TrapType::SupervisorTimerInterrupt => 5,
        TrapType::MachineTimerInterrupt => 7,
        TrapType::SupervisorExternalInterrupt => 9,
        TrapType::MachineExternalInterrupt => 11,
    }
}

/// The trap value of `t` (`xtval`).
pub open spec fn trap_tval(t: TrapType) -> u64 {
    match t {
        TrapType::InstructionAddressMisaligned(v) => v,
        TrapType::InstructionAccessFault(v) => v,
        TrapType::IllegalInstruction(v) => v,
        TrapType::Breakpoint(v) => v,
        TrapType::LoadAddressMisaligned(v) => v,
        TrapType::LoadAccessFault(v) => v,
        TrapType::StoreAddressMisaligned(v) => v,
        TrapType::StoreAccessFault(v) => v,
        TrapType::InstructionPageFault(v) => v,
        TrapType::LoadPageFault(v) => v,
        TrapType::StorePageFault(v) => v,
        _ => 0,
    }
}

/// The `xcause` value of `t`: its code, with the top bit set for an interrupt.
pub open spec fn trap_cause(t: TrapType) -> u64 {
    if is_interrupt_trap(t) {
        (0x8000_0000_0000_0000u64 | trap_code(t)) as u64
    } else {
        trap_code(t)
    }
}

impl TrapType {
    pub fn is_interupt(&self) -> (r: bool)
        ensures
            r == is_interrupt_trap(*self),
    {
        match self {
            TrapType::SupervisorSoftwareInterrupt | TrapType::MachineSoftwareInterrupt
            | TrapType::SupervisorTimerInterrupt | TrapType::MachineTimerInterrupt
            | TrapType::SupervisorExternalInterrupt | TrapType::MachineExternalInterrupt => true,
            _ => false,
        }
    }

    /// The exception or interrupt code.
    pub fn code(&self) -> (r: u64)
        ensures
            r == trap_code(*self),
            r < 16,
    {
        match self {
            TrapType::InstructionAddressMisaligned(_) => 0,
            TrapType::InstructionAccessFault(_) => 1,
            TrapType::IllegalInstruction(_) => 2,
            TrapType::Breakpoint(_) => 3,
            TrapType::LoadAddressMisaligned(_) => 4,
            TrapType::LoadAccessFault(_) => 5,
            TrapType::StoreAddressMisaligned(_) => 6,
            TrapType::StoreAccessFault(_) => 7,
            TrapType::EnvironmentCallFromUMode => 8,
            TrapType::EnvironmentCallFromSMode => 9,
            TrapType::EnvironmentCallFromMMode => 11,
            TrapType::InstructionPageFault(_) => 12,
            TrapType::LoadPageFault(_) => 13,
            TrapType::StorePageFault(_) => 15,
            TrapType::SupervisorSoftwareInterrupt => 1,
            TrapType::MachineSoftwareInterrupt => 3,
            TrapType::SupervisorTimerInterrupt => 5,
            TrapType::MachineTimerInterrupt => 7,
            TrapType::SupervisorExternalInterrupt => 9,
            TrapType::MachineExternalInterrupt => 11,
        }
    }

    /// The interrupt number of an interrupt.
    pub fn get_irq_num(&self) -> (r: u64)
        ensures
            r == trap_code(*self),
            r < 16,
    {
        self.code()
    }

    /// The exception code of an exception.
    pub fn get_exception_num(&self) -> (r: u64)
        ensures
            r == trap_code(*self),
            r < 16,
    {
        self.code()
    }

    /// The value written to `xcause`.
    pub fn idx(&self) -> (r: u64)
        ensures
            r == trap_cause(*self),
    {
        let c = self.code();
        if self.is_interupt() {
            0x8000_0000_0000_0000u64 | c
        } else {
            c
        }
    }

    /// The value written to `xtval`.
    pub fn get_tval(&self) -> (r: u64)
        ensures
            r == trap_tval(*self),
    {
        match *self {
            TrapType::InstructionAddressMisaligned(v) => v,
            TrapType::InstructionAccessFault(v) => v,
            TrapType::IllegalInstruction(v) => v,
            TrapType::Breakpoint(v) => v,
            TrapType::LoadAddressMisaligned(v) => v,
            TrapType::LoadAccessFault(v) => v,
            TrapType::StoreAddressMisaligned(v) => v,
            TrapType::StoreAccessFault(v) => v,
            TrapType::InstructionPageFault(v) => v,
            TrapType::LoadPageFault(v) => v,
            TrapType::StorePageFault(v) => v,
            _ => 0,
        }
    }
}

} // verus!
