use riscv64_emu::config::Config;
use riscv64_emu::device::device_am_rtc::DeviceRTC;
use riscv64_emu::device::device_am_uart::DeviceUart;
use riscv64_emu::device::device_am_vga::DeviceVGA;
use riscv64_emu::device::device_dram::DeviceDram;
use riscv64_emu::device::device_enum::Device;
use riscv64_emu::device::device_trait::DeviceBase;
use riscv64_emu::rv64core::bus::{Bus, DeviceType};
use riscv64_emu::rv64core::cpu_core::{CpuCoreBuild, CpuState};
use riscv64_emu::rv64core::csr_regs::{SLOT_TIME, SLOT_XIP};
use riscv64_emu::rv64core::inst_base::{FesvrCmd, RVerr, CSR_TIME};
use riscv64_emu::rvsim::{LoadError, RVsim};
use riscv64_emu::tools::FifoUnbounded;

const BASE: u64 = 0x8000_0000;

fn platform() -> Bus<Device> {
    let mut bus = Bus::new();
    bus.add_device(DeviceType { start: BASE, len: 0x2000, instance: Device::Dram(DeviceDram::new(0x2000)), name: "DRAM" });
    bus.add_device(DeviceType { start: 0xa000_03f8, len: 1, instance: Device::AmUart(DeviceUart::new(FifoUnbounded::new())), name: "AM_UART" });
    bus.add_device(DeviceType { start: 0xa000_0048, len: 8, instance: Device::Rtc(DeviceRTC::new()), name: "RTC" });
    bus
}

#[test]
fn device_enum_dispatches() {
    let mut bus = platform();
    bus.write(BASE + 8, 0x1122_3344, 4).unwrap();
    assert_eq!(bus.read(BASE + 8, 4), Ok(0x1122_3344));
    assert_eq!(bus.read(BASE + 9, 1), Ok(0x33));
    bus.write(0xa000_03f8, b'h' as u64, 1).unwrap();
    match &bus.devices[1].instance {
        Device::AmUart(u) => assert_eq!(u.txfifo.len(), 1),
        _ => panic!("not the uart"),
    }
    assert_eq!(bus.devices[2].instance.get_name(), "RTC");
    assert_eq!(bus.read(0xa000_1000, 4), Err(RVerr::NotFindDevice));
}

#[test]
fn rtc_latches_low_word() {
    let mut rtc = DeviceRTC::new();
    rtc.set_clock(0x1_0000_0005);
    assert_eq!(rtc.do_read(4, 4), 0);
    assert_eq!(rtc.do_read(0, 4), 5);
    assert_eq!(rtc.do_read(4, 4), 1);
    rtc.set_clock(0x2_0000_0000);
    // the high word keeps the latched time until the low word is read again
    assert_eq!(rtc.do_read(4, 4), 1);
    assert!(!rtc.can_write(0, 0, 4));
    assert!(!rtc.can_read(8, 4));
}

#[test]
fn vga_frame_buffer() {
    assert_eq!(DeviceVGA::get_size(), 400 * 300 * 4);
    let mut vga = DeviceVGA::new();
    vga.do_write(400 * 4, 0x00ff_00ff, 4);
    assert_eq!(vga.do_read(400 * 4, 4), 0x00ff_00ff);
    assert_eq!(vga.get_name(), "AM_VGA_FB");
    assert!(!vga.can_read(DeviceVGA::get_size() as u64, 1));
}

#[test]
fn fesvr_commands() {
    assert_eq!(FesvrCmd(1).syscall_device(), Some(true));
    assert_eq!(FesvrCmd(7).syscall_device(), Some(false));
    assert_eq!(FesvrCmd(7).exit_code(), 3);
    assert_eq!(FesvrCmd(0).syscall_device(), None);
    let c = (1u64 << 56) | (1u64 << 48) | b'A' as u64;
    assert_eq!(FesvrCmd(c).character_device_write(), Some(b'A'));
    assert_eq!(FesvrCmd(c).syscall_device(), None);
}

#[test]
fn build_hart_and_sync_lines() {
    let mut bus = platform();
    let hart = CpuCoreBuild::new(Config::new()).with_boot_pc(BASE + 0x100).with_hart_id(0).build(&mut bus);
    assert_eq!(hart.cpu.pc, BASE + 0x100);
    assert_eq!(hart.cpu.cpu_state, CpuState::Stop);
    assert_eq!((hart.links.clint_hart, hart.links.plic_m, hart.links.plic_s), (0, 0, Some(1)));
    let mut cpu = hart.cpu;
    // a timer interrupt: mtimecmp 5, then time passes
    bus.write(0x0200_4000, 5, 8).unwrap();
    bus.update(100);
    bus.update(100);
    cpu.sync_lines(&bus, &hart.links);
    assert_eq!(cpu.csr_regs.file.get(SLOT_TIME), 20);
    assert_eq!(cpu.csr_regs.file.get(SLOT_XIP) & 0x80, 0x80);
    assert_eq!(cpu.csr_regs.read_raw(CSR_TIME), 20);
}

fn elf_image(machine: u16) -> Vec<u8> {
    let mut v = vec![0u8; 128];
    v[0..4].copy_from_slice(&[0x7f, b'E', b'L', b'F']);
    v[4] = 2;
    v[5] = 1;
    v[6] = 1;
    v[16..18].copy_from_slice(&2u16.to_le_bytes());
    v[18..20].copy_from_slice(&machine.to_le_bytes());
    v[20..24].copy_from_slice(&1u32.to_le_bytes());
    v[24..32].copy_from_slice(&BASE.to_le_bytes());
    v[32..40].copy_from_slice(&64u64.to_le_bytes());
    v[52..54].copy_from_slice(&64u16.to_le_bytes());
    v[54..56].copy_from_slice(&56u16.to_le_bytes());
    v[56..58].copy_from_slice(&1u16.to_le_bytes());
    v[58..60].copy_from_slice(&64u16.to_le_bytes());
    // the program header
    v[64..68].copy_from_slice(&1u32.to_le_bytes());
    v[68..72].copy_from_slice(&5u32.to_le_bytes());
    v[72..80].copy_from_slice(&120u64.to_le_bytes());
    v[80..88].copy_from_slice(&(BASE + 0x40).to_le_bytes());
    v[88..96].copy_from_slice(&(BASE + 0x40).to_le_bytes());
    v[96..104].copy_from_slice(&8u64.to_le_bytes());
    v[104..112].copy_from_slice(&8u64.to_le_bytes());
    v[112..120].copy_from_slice(&4u64.to_le_bytes());
    v[120..128].copy_from_slice(&0x0123_4567_89ab_cdefu64.to_le_bytes());
    v
}

fn new_sim() -> RVsim<Device> {
    let mut bus = platform();
    let hart = CpuCoreBuild::new(Config::new()).build(&mut bus);
    RVsim::new(vec![hart], bus)
}

#[test]
fn load_elf_segments() {
    let mut sim = new_sim();
    assert_eq!(sim.load_elf(&elf_image(243), true), Ok(()));
    assert_eq!(sim.bus.read(BASE + 0x40, 8), Ok(0x0123_4567_89ab_cdef));
    assert_eq!(sim.tohost, None);
    let mut sim = new_sim();
    assert_eq!(sim.load_elf(&elf_image(62), true), Err(LoadError::NotRiscv));
    assert_eq!(sim.bus.read(BASE + 0x40, 8), Ok(0));
}

#[test]
fn load_raw_image_at_boot_pc() {
    let mut sim = new_sim();
    assert_eq!(sim.load_image_from_slice(&[1, 2, 3, 4]), Ok(()));
    assert_eq!(sim.bus.read(BASE, 4), Ok(0x0403_0201));
}

#[test]
fn tohost_ends_the_run() {
    let mut sim = new_sim();
    assert_eq!(sim.check_to_host(), None);
    sim.tohost = Some(BASE + 0x1000);
    sim.prepare_to_run();
    assert!(!sim.is_finish());
    sim.bus.write(BASE + 0x1000, (1u64 << 56) | (1u64 << 48) | b'k' as u64, 8).unwrap();
    assert_eq!(sim.check_to_host(), Some(b'k'));
    assert_eq!(sim.bus.read(BASE + 0x1000, 8), Ok(0));
    assert!(!sim.is_finish());
    sim.bus.write(BASE + 0x1000, 1, 8).unwrap();
    assert_eq!(sim.check_to_host(), None);
    assert!(sim.is_finish());
    assert!(sim.is_exit_normal());
    sim.prepare_to_run();
    sim.bus.write(BASE + 0x1000, 3, 8).unwrap();
    sim.check_to_host();
    assert_eq!(sim.harts[0].cpu.cpu_state, CpuState::Abort);
    assert!(!sim.is_exit_normal());
}

#[test]
fn signature_words_read_the_range() {
    let mut sim = new_sim();
    sim.bus.write(BASE + 0x20, 0xaabb_ccdd, 4).unwrap();
    sim.bus.write(BASE + 0x24, 0x1122_3344, 4).unwrap();
    sim.signature_range = Some((BASE + 0x20, BASE + 0x28));
    assert_eq!(sim.signature_words(), vec![0xaabb_ccdd, 0x1122_3344]);
    // a range that runs past the memory stops at its end
    sim.signature_range = Some((BASE + 0x1ffc, BASE + 0x2008));
    assert_eq!(sim.signature_words().len(), 1);
}

#[test]
fn machine_rounds() {
    let mut sim = new_sim();
    // addi x1, x1, 1; jal x0, -4
    for (k, w) in [0x00108093u32, 0xffdff06f].iter().enumerate() {
        sim.bus.write(BASE + 4 * k as u64, *w as u64, 4).unwrap();
    }
    // a stopped hart makes no turn; the devices are still updated
    sim.step();
    assert_eq!(sim.harts[0].cpu.gpr.read(1), 0);
    assert_eq!(sim.harts[0].cpu.csr_regs.file.get(SLOT_TIME), 1);
    sim.prepare_to_run();
    sim.step();
    assert_eq!(sim.harts[0].cpu.gpr.read(1), 1);
    assert_eq!(sim.harts[0].cpu.csr_regs.file.get(SLOT_TIME), 2);
    // a round: 5000 turns, half of them adds, and 500 timer ticks
    sim.run_once();
    assert_eq!(sim.harts[0].cpu.gpr.read(1), 2501);
    assert_eq!(sim.harts[0].cpu.csr_regs.file.get(SLOT_TIME), 502);
}
