use riscv64_emu::device::device_dram::DeviceDram;
use riscv64_emu::difftest::difftest_trait::Difftest;
use riscv64_emu::rv64core::bus::{Bus, DeviceType};
use riscv64_emu::rv64core::cpu_core::CpuCore;
use riscv64_emu::rv64core::csr_regs::{SLOT_MCAUSE, SLOT_MEPC};

const BASE: u64 = 0x8000_0000;

fn new_bus() -> Bus<DeviceDram> {
    let mut bus = Bus::new();
    bus.add_device(DeviceType { start: BASE, len: 0x1000, instance: DeviceDram::new(0x1000), name: "DRAM" });
    bus
}

#[test]
fn difftest_registers_and_pc() {
    let mut cpu = CpuCore::new(0, BASE);
    cpu.set_reg(5, 42);
    assert_eq!(cpu.get_reg(5), 42);
    cpu.set_reg(0, 42);
    assert_eq!(cpu.get_reg(0), 0);
    assert_eq!(cpu.get_pc(), BASE);
    cpu.set_pc(BASE + 0x40);
    assert_eq!(cpu.npc, BASE + 0x40);
    assert_eq!(cpu.get_pc(), BASE);
}

#[test]
fn difftest_csrs() {
    let mut cpu = CpuCore::new(3, BASE);
    // mscratch
    cpu.set_csr(0x340, 0x1234);
    assert_eq!(cpu.get_csr(0x340), 0x1234);
    // mhartid
    assert_eq!(cpu.get_csr(0xf14), 3);
    // no CSR there
    assert_eq!(cpu.get_csr(0x7ff), 0);
    assert_eq!(cpu.get_csr(0x1_0000), 0);
}

#[test]
fn difftest_memory() {
    let mut bus = new_bus();
    let mut cpu = CpuCore::new(0, BASE);
    cpu.set_mem(&mut bus, BASE + 8, 0x1122_3344_5566_7788, 8);
    assert_eq!(cpu.get_mem(&mut bus, BASE + 8, 8), 0x1122_3344_5566_7788);
    assert_eq!(cpu.get_mem(&mut bus, BASE + 12, 2), 0x3344);
    // nothing there: the read gives 0, the write is dropped
    cpu.set_mem(&mut bus, 0x10, 5, 8);
    assert_eq!(cpu.get_mem(&mut bus, 0x10, 8), 0);
}

#[test]
fn difftest_raise_interrupt() {
    let mut cpu = CpuCore::new(0, BASE);
    // mtvec, mie.MTIE, mstatus.MIE
    cpu.set_csr(0x305, BASE + 0x100);
    cpu.set_csr(0x304, 1 << 7);
    cpu.set_csr(0x300, 1 << 3);
    cpu.raise_intr(7);
    assert_eq!(cpu.npc, BASE + 0x100);
    assert_eq!(cpu.csr_regs.file.get(SLOT_MCAUSE), (1 << 63) | 7);
    assert_eq!(cpu.csr_regs.file.get(SLOT_MEPC), BASE);
}
