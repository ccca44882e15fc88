//! The JTAG TAP controller state machine (IEEE 1149.1).
use vstd::prelude::*;

verus! {

#[derive(Clone, Copy, PartialEq, Eq, Debug, Structural)]
pub enum JtagState {
    TestLogicReset,
    RunTestIdle,
    SelectDrScan,
    CaptureDr,
    ShiftDr,
    Exit1Dr,
    PauseDr,
    Exit2Dr,
    UpdateDr,
    SelectIrScan,
    CaptureIr,
    ShiftIr,
    Exit1Ir,
    PauseIr,
    Exit2Ir,
    UpdateIr,
}

/// The state the TAP controller moves to on a rising TCK edge with `tms` sampled.
pub open spec fn next_tap_state(s: JtagState, tms: bool) -> JtagState {
    match s {
        JtagState::TestLogicReset => if tms { JtagState::TestLogicReset } else { JtagState::RunTestIdle },
        JtagState::RunTestIdle => if tms { JtagState::SelectDrScan } else { JtagState::RunTestIdle },
        JtagState::SelectDrScan => if tms { JtagState::SelectIrScan } else { JtagState::CaptureDr },
        JtagState::CaptureDr => if tms { JtagState::Exit1Dr } else { JtagState::ShiftDr },
        JtagState::ShiftDr => if tms { JtagState::Exit1Dr } else { JtagState::ShiftDr },
        JtagState::Exit1Dr => if tms { JtagState::UpdateDr } else { JtagState::PauseDr },
        JtagState::PauseDr => if tms { JtagState::Exit2Dr } else { JtagState::PauseDr },
        JtagState::Exit2Dr => if tms { JtagState::UpdateDr } else { JtagState::ShiftDr },
        JtagState::UpdateDr => if tms { JtagState::SelectDrScan } else { JtagState::RunTestIdle },
        JtagState::SelectIrScan => if tms { JtagState::TestLogicReset } else { JtagState::CaptureIr },
        JtagState::CaptureIr => if tms { JtagState::Exit1Ir } else { JtagState::ShiftIr },
        JtagState::ShiftIr => if tms { JtagState::Exit1Ir } else { JtagState::ShiftIr },
        JtagState::Exit1Ir => if tms { JtagState::UpdateIr } else { JtagState::PauseIr },
        JtagState::PauseIr => if tms { JtagState::Exit2Ir } else { JtagState::PauseIr },
        JtagState::Exit2Ir => if tms { JtagState::UpdateIr } else { JtagState::ShiftIr },
        JtagState::UpdateIr => if tms { JtagState::SelectDrScan } else { JtagState::RunTestIdle },
    }
}

/// The states in which the data register path is selected after a capture.
pub open spec fn is_dr_scan_state(s: JtagState) -> bool {
    s is ShiftDr || s is Exit1Dr || s is PauseDr || s is Exit2Dr || s is UpdateDr
}

impl JtagState {
    pub fn next_state(&self, tms: bool) -> (r: JtagState)
        ensures
            r == next_tap_state(*self, tms),
    {
        match self {
            JtagState::TestLogicReset => if tms { JtagState::TestLogicReset } else { JtagState::RunTestIdle },
            JtagState::RunTestIdle => if tms { JtagState::SelectDrScan } else { JtagState::RunTestIdle },
            JtagState::SelectDrScan => if tms { JtagState::SelectIrScan } else { JtagState::CaptureDr },
            JtagState::CaptureDr => if tms { JtagState::Exit1Dr } else { JtagState::ShiftDr },
            JtagState::ShiftDr => if tms { JtagState::Exit1Dr } else { JtagState::ShiftDr },
            JtagState::Exit1Dr => if tms { JtagState::UpdateDr } else { JtagState::PauseDr },
            JtagState::PauseDr => if tms { JtagState::Exit2Dr } else { JtagState::PauseDr },
            JtagState::Exit2Dr => if tms { JtagState::UpdateDr } else { JtagState::ShiftDr },
            JtagState::UpdateDr => if tms { JtagState::SelectDrScan } else { JtagState::RunTestIdle },
            JtagState::SelectIrScan => if tms { JtagState::TestLogicReset } else { JtagState::CaptureIr },
            JtagState::CaptureIr => if tms { JtagState::Exit1Ir } else { JtagState::ShiftIr },
            JtagState::ShiftIr => if tms { JtagState::Exit1Ir } else { JtagState::ShiftIr },
            JtagState::Exit1Ir => if tms { JtagState::UpdateIr } else { JtagState::PauseIr },
            JtagState::PauseIr => if tms { JtagState::Exit2Ir } else { JtagState::PauseIr },
            JtagState::Exit2Ir => if tms { JtagState::UpdateIr } else { JtagState::ShiftIr },
            JtagState::UpdateIr => if tms { JtagState::SelectDrScan } else { JtagState::RunTestIdle },
        }
    }
}

/// Five rising TCK edges with TMS high bring the TAP controller to
/// Test-Logic-Reset from any state.
pub proof fn lemma_five_tms_high_resets(s: JtagState)
    ensures
        next_tap_state(
            next_tap_state(next_tap_state(next_tap_state(next_tap_state(s, true), true), true), true),
            true,
        ) == JtagState::TestLogicReset,
{
}

/// With TMS held low, the TAP controller leaves Test-Logic-Reset for Run-Test/Idle and stays there.
pub proof fn lemma_tms_low_idles(s: JtagState)
    requires
        s is TestLogicReset || s is RunTestIdle,
    ensures
        next_tap_state(s, false) == JtagState::RunTestIdle,
{
}

} // verus!
