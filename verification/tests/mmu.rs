use riscv64_emu::config::Config;
use riscv64_emu::device::device_memory::DeviceMemory;
use riscv64_emu::rv64core::bus::{Bus, DeviceType};
use riscv64_emu::rv64core::csr_regs_define::{SatpIn, XstatusIn};
use riscv64_emu::rv64core::inst_base::{AccessType, PrivilegeLevels};
use riscv64_emu::rv64core::mmu::cpu_mmu::Mmu;
use riscv64_emu::rv64core::traptype::TrapType;

const BASE: u64 = 0x8000_0000;

fn put(bus: &mut Bus<DeviceMemory>, addr: u64, v: u64) {
    bus.write(addr, v, 8).unwrap();
}

/// Page tables for Sv39: root at page 0, then page 1, then page 2, whose
/// entry 1 maps virtual page 1 to physical page 3 (R, W, A, D, V).
fn tables() -> Bus<DeviceMemory> {
    let mut bus: Bus<DeviceMemory> = Bus::new();
    bus.add_device(DeviceType { start: BASE, len: 0x4000, instance: DeviceMemory::new(0x4000), name: "RAM" });
    put(&mut bus, BASE, (0x80001u64 << 10) | 1);
    put(&mut bus, BASE + 0x1000, (0x80002u64 << 10) | 1);
    put(&mut bus, BASE + 0x2000 + 8, (0x80003u64 << 10) | 0xc7);
    bus
}

fn mmu(tlb: usize) -> Mmu {
    let mut config = Config::new();
    config.set_tlb_size(tlb);
    Mmu::new(PrivilegeLevels::Supervisor, XstatusIn(0), SatpIn((8u64 << 60) | 0x80000), &config)
}

#[test]
fn sv39_walk_translates_and_checks() {
    let mut mem = tables();
    let mut m = mmu(0);
    m.update_access_type(&AccessType::Load(0x1234));
    assert_eq!(m.translate(0x1234, 4, &mut mem), Ok(0x8000_3234));
    m.update_access_type(&AccessType::Store(0x1238));
    assert_eq!(m.translate(0x1238, 8, &mut mem), Ok(0x8000_3238));
    m.update_access_type(&AccessType::Fetch(0x1234));
    assert_eq!(m.translate(0x1234, 4, &mut mem), Err(TrapType::InstructionPageFault(0x1234)));
    m.update_access_type(&AccessType::Load(0x1235));
    assert_eq!(m.translate(0x1235, 4, &mut mem), Err(TrapType::LoadAddressMisaligned(0x1235)));
    // an unmapped page
    m.update_access_type(&AccessType::Load(0x5000));
    assert_eq!(m.translate(0x5000, 4, &mut mem), Err(TrapType::LoadPageFault(0x5000)));
    // M-mode does not translate
    m.cur_priv = PrivilegeLevels::Machine;
    assert_eq!(m.translate(0x5000, 4, &mut mem), Ok(0x5000));
}

#[test]
fn sv39_tables_outside_memory_fault_access() {
    let mut mem = tables();
    let mut config = Config::new();
    config.set_tlb_size(0);
    let mut m = Mmu::new(PrivilegeLevels::User, XstatusIn(0), SatpIn((8u64 << 60) | 0x90000), &config);
    m.update_access_type(&AccessType::Load(0x1000));
    assert_eq!(m.translate(0x1000, 4, &mut mem), Err(TrapType::LoadAccessFault(0x1000)));
}

#[test]
fn tlb_caches_and_fences() {
    let mut mem = tables();
    let mut m = mmu(4);
    m.update_access_type(&AccessType::Load(0x1234));
    assert_eq!(m.translate(0x1234, 4, &mut mem), Ok(0x8000_3234));
    assert!(m.fast_path(0x1000).is_some());
    // the cached translation is used even after the table changes
    put(&mut mem, BASE + 0x2000 + 8, 0);
    assert_eq!(m.translate(0x1234, 4, &mut mem), Ok(0x8000_3234));
    m.fence_vma(0x1000, 0);
    assert!(m.fast_path(0x1000).is_none());
    assert_eq!(m.translate(0x1234, 4, &mut mem), Err(TrapType::LoadPageFault(0x1234)));
    put(&mut mem, BASE + 0x2000 + 8, (0x80003u64 << 10) | 0xc7);
    assert_eq!(m.translate(0x1234, 4, &mut mem), Ok(0x8000_3234));
    m.fence_vma(0, 0);
    assert!(m.fast_path(0x1000).is_none());
}
