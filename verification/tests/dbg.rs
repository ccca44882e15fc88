use riscv64_emu::dbg::debug_module::DebugModule;
use riscv64_emu::dbg::jtag_driver::{JtagDriver, ShifterRegister};
use riscv64_emu::dbg::jtag_state::JtagState;
use riscv64_emu::dbg::remote_bitbang::{decode_command, process_commands, BitBangCommand};
use riscv64_emu::config::Config;
use riscv64_emu::device::device_dram::DeviceDram;
use riscv64_emu::device::device_enum::Device;
use riscv64_emu::rv64core::bus::{Bus, DeviceType};
use riscv64_emu::rv64core::cpu_core::{CpuCoreBuild, CpuState};
use riscv64_emu::rvsim::RVsim;

#[test]
fn test_shift_register() {
    let mut reg = ShifterRegister::new(0, 8);

    reg.shift_right(true);
    assert_eq!(reg.data(), 128);
    reg.shift_right(false);
    assert_eq!(reg.data(), 64);
    reg.shift_right(true);
    assert_eq!(reg.data(), 128 + 32);
    reg.shift_right(false);
    assert_eq!(reg.data(), 64 + 16);
    reg.shift_right(true);
    assert_eq!(reg.data(), 128 + 32 + 8);
    reg.shift_right(false);
    assert_eq!(reg.data(), 64 + 16 + 4);
    reg.shift_right(true);
    assert_eq!(reg.data(), 128 + 32 + 8 + 2);
    reg.shift_right(false);
    assert_eq!(reg.data(), 64 + 16 + 4 + 1);
    reg.shift_right(true);
    assert_eq!(reg.data(), 128 + 32 + 8 + 2);
}

#[test]
fn tap_five_tms_high_resets() {
    let mut s = JtagState::ShiftIr;
    for _ in 0..5 {
        s = s.next_state(true);
    }
    assert_eq!(s, JtagState::TestLogicReset);
    assert_eq!(JtagState::TestLogicReset.next_state(false), JtagState::RunTestIdle);
    assert_eq!(JtagState::SelectDrScan.next_state(false), JtagState::CaptureDr);
}

#[test]
fn dmi_data_register_roundtrip() {
    let mut dm = DebugModule::new(machine());
    assert_eq!(dm.dmi_write(0x04, 0x1234_5678), Some(()));
    assert_eq!(dm.dmi_read(0x04), Some(0x1234_5678));
    assert_eq!(dm.dmi_write(0x20, 0xdead), Some(()));
    assert_eq!(dm.dmi_read(0x20), Some(0xdead));
    // abstractcs reports six data registers
    assert_eq!(dm.dmi_read(0x16).map(|v| v & 0xf), Some(6));
}

#[test]
fn dmi_halt_request_reaches_hart() {
    let mut dm = DebugModule::new(machine());
    // dmactive and haltreq
    dm.dmi_write(0x10, (1 << 31) | 1);
    assert!(dm.hart0.harts[0].cpu.debug_state.haltreq_signal);
}

#[test]
fn bitbang_commands() {
    assert!(matches!(decode_command(b'5'), BitBangCommand::SetPins(true, false, true)));
    assert!(matches!(decode_command(b'R'), BitBangCommand::ReadTdo));
    assert!(matches!(decode_command(b'r'), BitBangCommand::Reset));
    assert!(matches!(decode_command(b'x'), BitBangCommand::Unknown));
    let mut jtag = JtagDriver::new(DebugModule::new(machine()));
    let mut out = Vec::new();
    // hold TMS high for five clocks, then read TDO twice
    let cmds = b"2626262626RR";
    assert_eq!(process_commands(&mut jtag, cmds, &mut out), Ok(()));
    assert_eq!(out.len(), 2);
    assert!(out.iter().all(|&b| b == b'0' || b == b'1'));
}

const RAM: u64 = 0x8000_0000;

fn machine() -> RVsim<Device> {
    let mut bus = Bus::new();
    bus.add_device(DeviceType { start: RAM, len: 0x2000, instance: Device::Dram(DeviceDram::new(0x2000)), name: "DRAM" });
    let hart = CpuCoreBuild::new(Config::new()).build(&mut bus);
    RVsim::new(vec![hart], bus)
}

fn cmderr(dm: &mut DebugModule<RVsim<Device>>) -> u64 {
    (dm.dmi_read(0x16).unwrap() >> 8) & 7
}

#[test]
fn abstract_command_needs_a_halted_hart() {
    let mut dm = DebugModule::new(machine());
    dm.hart0.harts[0].cpu.gpr.write(5, 0x55);
    dm.dmi_write(0x04, 0x1111);
    // read x5, 64 bits: refused while the hart runs
    assert_eq!(dm.dmi_write(0x17, 0x0032_1005), Some(()));
    assert_eq!(cmderr(&mut dm), 4);
    assert_eq!(dm.dmi_read(0x04), Some(0x1111));
    // the error is cleared by writing ones to it
    dm.dmi_write(0x16, 0x700);
    assert_eq!(cmderr(&mut dm), 0);
}

#[test]
fn abstract_register_write_then_read_on_halted_hart() {
    let mut dm = DebugModule::new(machine());
    dm.hart0.harts[0].cpu.cpu_state = CpuState::Haltd;
    // write x5 = 0x1122_3344_5566_7788 through data0/data1
    dm.dmi_write(0x04, 0x5566_7788);
    dm.dmi_write(0x05, 0x1122_3344);
    assert_eq!(dm.dmi_write(0x17, 0x0033_1005), Some(()));
    assert_eq!(cmderr(&mut dm), 0);
    assert_eq!(dm.hart0.harts[0].cpu.gpr.read(5), 0x1122_3344_5566_7788);
    // read it back
    dm.dmi_write(0x04, 0);
    dm.dmi_write(0x05, 0);
    assert_eq!(dm.dmi_write(0x17, 0x0032_1005), Some(()));
    assert_eq!(cmderr(&mut dm), 0);
    assert_eq!(dm.dmi_read(0x04), Some(0x5566_7788));
    assert_eq!(dm.dmi_read(0x05), Some(0x1122_3344));
    // x0 stays zero
    dm.dmi_write(0x04, 7);
    dm.dmi_write(0x17, 0x0033_1000);
    assert_eq!(dm.hart0.harts[0].cpu.gpr.read(0), 0);
}

#[test]
fn abstract_memory_write_reaches_the_bus() {
    let mut dm = DebugModule::new(machine());
    dm.hart0.harts[0].cpu.cpu_state = CpuState::Haltd;
    // 32-bit write of 0xcafe_f00d at RAM + 0x10: data0 value, data2/data3 address
    dm.dmi_write(0x04, 0xcafe_f00d);
    dm.dmi_write(0x06, (RAM + 0x10) as u32 as u64);
    dm.dmi_write(0x07, (RAM >> 32) as u64);
    assert_eq!(dm.dmi_write(0x17, 0x0221_0000), Some(()));
    assert_eq!(cmderr(&mut dm), 0);
    assert_eq!(dm.hart0.bus.read(RAM + 0x10, 4), Ok(0xcafe_f00d));
    // and a read gives it back in data0
    dm.dmi_write(0x04, 0);
    assert_eq!(dm.dmi_write(0x17, 0x0220_0000), Some(()));
    assert_eq!(dm.dmi_read(0x04), Some(0xcafe_f00d));
}

#[test]
fn dmcontrol_write_drives_the_hart() {
    let mut dm = DebugModule::new(machine());
    dm.hart0.harts[0].cpu.debug_state.havereset = true;
    // dmactive, haltreq and ackhavereset
    dm.dmi_write(0x10, (1 << 31) | (1 << 28) | 1);
    assert!(dm.hart0.harts[0].cpu.debug_state.haltreq_signal);
    assert!(!dm.hart0.harts[0].cpu.debug_state.havereset);
    // resumereq without haltreq asks the hart to resume
    dm.dmi_write(0x10, (1 << 30) | 1);
    assert!(!dm.hart0.harts[0].cpu.debug_state.haltreq_signal);
    assert!(dm.hart0.harts[0].cpu.debug_state.resumereq_flag);
    // hartreset alone asks the hart to reset
    dm.dmi_write(0x10, (1 << 29) | 1);
    assert!(dm.hart0.harts[0].cpu.debug_state.resetreq_signal);
    dm.dmi_write(0x10, 1);
    assert!(!dm.hart0.harts[0].cpu.debug_state.resetreq_signal);
    // so does ndmreset
    dm.dmi_write(0x10, 2 | 1);
    assert!(dm.hart0.harts[0].cpu.debug_state.resetreq_signal);
}

#[test]
fn dmstatus_shows_a_halted_hart() {
    let mut dm = DebugModule::new(machine());
    dm.dmi_write(0x10, 1);
    let running = dm.dmi_read(0x11).unwrap();
    assert_eq!((running >> 8) & 3, 0);
    assert_eq!((running >> 10) & 3, 3);
    dm.hart0.harts[0].cpu.cpu_state = CpuState::Haltd;
    let halted = dm.dmi_read(0x11).unwrap();
    assert_eq!((halted >> 8) & 3, 3);
    assert_eq!((halted >> 10) & 3, 0);
}

#[test]
fn bitbang_reads_idcode_bits() {
    let mut jtag = JtagDriver::new(DebugModule::new(machine()));
    let mut out = Vec::new();
    // Test-Logic-Reset -> Run-Test/Idle -> Select-DR-Scan -> Capture-DR -> Shift-DR,
    // then read TDO and shift, eight times
    let mut cmds: Vec<u8> = b"04260404".to_vec();
    for _ in 0..8 {
        cmds.extend_from_slice(b"0R4");
    }
    assert_eq!(process_commands(&mut jtag, &cmds, &mut out), Ok(()));
    assert_eq!(out, b"11110111".to_vec());
    assert_eq!(jtag.state, JtagState::ShiftDr);
}

#[test]
fn bitbang_reset_command_resets_the_tap() {
    let mut jtag = JtagDriver::new(DebugModule::new(machine()));
    let mut out = vec![b'x'];
    assert_eq!(process_commands(&mut jtag, b"0426r", &mut out), Ok(()));
    assert_eq!(jtag.state, JtagState::TestLogicReset);
    // earlier bytes of the buffer stay
    assert_eq!(out, vec![b'x']);
}
