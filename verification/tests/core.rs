use std::str::FromStr;

use riscv64_emu::config::Config;
use riscv64_emu::device::device_dram::DeviceDram;
use riscv64_emu::device::device_memory::DeviceMemory;
use riscv64_emu::rv64core::bus::{Bus, DeviceType};
use riscv64_emu::rv64core::cpu_core::{CpuCore, CpuState, DebugState};
use riscv64_emu::rv64core::csr_regs::{CsrRegs, SLOT_XIE, SLOT_XIP, SLOT_MTVEC, SLOT_MEDELEG, SLOT_STVEC, SLOT_XSTATUS, SLOT_DPC};
use riscv64_emu::rv64core::csr_regs_define::{Csr, CsrFile, Mcounteren, StapMode, Xstatus, XtvecIn, XipIn, XstatusIn, SatpIn};
use riscv64_emu::rv64core::gpr::{Gpr, GprName};
use riscv64_emu::rv64core::inst_base::{PrivilegeLevels, RVerr, AccessType, CSR_MSTATUS, CSR_SSTATUS, CSR_MHARTID, CSR_SATP, CSR_MEPC, CSR_MISA};
use riscv64_emu::rv64core::mmu::vm_info::{zero_mask, PageSize, TLBEntry, PTEenume, VAenume};
use riscv64_emu::rv64core::mmu::sv39::{Sv39PTE, Sv39VA};
use riscv64_emu::rv64core::traptype::{TrapType, DebugCause};
use riscv64_emu::inst_rv64a::LrScReservation;
use riscv64_emu::clint::Clint;
use riscv64_emu::rv64core::cache::cpu_dcache::CacheLine;

#[test]
fn bus_test1() {
    let dram_u = DeviceType {
        start: 0x8000_0000,
        len: 1024,
        instance: DeviceDram::new(1024),
        name: "DRAM",
    };

    let mut bus_u = Bus::new();
    bus_u.add_device(dram_u);

    let data = 0xDEADBEEF;
    let data1 = 0xDEADBEEFDEADBEEF_u128;
    let len = 4;

    let addr = 0x8000_0000;
    bus_u.write(addr, data, len).unwrap();
    bus_u.write(addr + 4, data, len).unwrap();

    let result = bus_u.read(addr, len).unwrap();
    assert_eq!(result, data);

    let result = bus_u.read(addr, 1).unwrap();
    assert_eq!(result, data & 0xff);
    let result = bus_u.read(addr, 2).unwrap();
    assert_eq!(result, data & 0xffff);
    let result = bus_u.read(addr, 4).unwrap();
    assert_eq!(result, data);
    let result = bus_u.read(addr, 8).unwrap();
    println!("{result:x}\n{data1:x}");
    assert_eq!(result as u128, data1);
}

#[test]
fn bus_errors_and_routing() {
    let mut bus: Bus<DeviceMemory> = Bus::new();
    bus.add_device(DeviceType { start: 0x1000, len: 0x100, instance: DeviceMemory::new(0x100), name: "A" });
    bus.add_device(DeviceType { start: 0x1080, len: 0x100, instance: DeviceMemory::new(0x100), name: "B" });
    assert_eq!(bus.read(0x1001, 2), Err(RVerr::AddrMisalign));
    assert_eq!(bus.read(0x1000, 3), Err(RVerr::AddrMisalign));
    assert_eq!(bus.read(0x9000, 4), Err(RVerr::NotFindDevice));
    // 0x1080 lies in both windows: the first device added takes it
    bus.write(0x1080, 0x55, 1).unwrap();
    assert_eq!(bus.devices[0].instance.data[0x80], 0x55);
    assert_eq!(bus.devices[1].instance.data[0], 0);
    // the CLINT answers at its window
    bus.clint.instance.add_hart(XipIn(0));
    bus.write(0x0200_4000, 10, 8).unwrap();
    assert_eq!(bus.read(0x0200_4000, 8), Ok(10));
    let mut out = [0u8; 2];
    bus.copy_from_slice(0x1100, &[7, 8]).unwrap();
    bus.copy_to_slice(0x1100, &mut out).unwrap();
    assert_eq!(out, [7, 8]);
    assert_eq!(bus.copy_from_slice(0x9000, &[1]), Err(RVerr::NotFindDevice));
}

#[test]
fn bus_update_ticks_timer() {
    let mut bus: Bus<DeviceMemory> = Bus::new();
    bus.clint.instance.add_hart(XipIn(0));
    bus.update(100);
    assert_eq!(bus.clint.instance.mitme, 10);
    bus.update(5);
    assert_eq!(bus.clint.instance.mitme, 11);
    Bus::<DeviceMemory>::check_aligned(8, 8);
}

#[test]
fn gpr_test1() {
    let test1 = GprName::zero.to_string();
    assert_eq!(test1, "zero");
}

#[test]
fn test2() {
    let test2 = GprName::zero;
    assert_eq!(test2 as u64, 0);
}

#[test]
fn test3() {
    let reg_name_var = GprName::from_str("a0").expect("a0");
    assert_eq!(reg_name_var, GprName::a0);

    let reg_name_var = GprName::from_str("a1").expect("a1");
    assert_eq!(reg_name_var, GprName::a1);
}

#[test]
fn test4() {
    let mut gpr = Gpr::new();
    gpr.write(1, 1);
    gpr.write(0, 1);
    gpr.write(10, 10);
    let x10 = gpr.read(10);
    let x0 = gpr.read(0);
    let x1 = gpr.read(1);
    assert_eq!(x0, 0);
    assert_eq!(x1, 1);
    assert_eq!(x10, 10);
    for i in 0..32 {
        println!("{}:{}", Gpr::get_register_name(i), gpr.read(i));
    }
}

#[test]
fn test5() {
    let x = Gpr::get_register_idx("a2");
    assert_eq!(x, GprName::a2);
}

#[test]
fn gpr_names_and_read_by_name() {
    let mut gpr = Gpr::new();
    gpr.write(2, 0x8000);
    assert_eq!(gpr.read_by_name("sp"), 0x8000);
    assert_eq!(Gpr::get_register_name(31), "t6");
    assert_eq!(GprName::s11.index(), 27);
    assert_eq!(GprName::from_index(8), GprName::s0);
    assert!(GprName::from_str("x99").is_err());
    assert_eq!(GprName::t3.name(), "t3");
}

#[test]
fn config_isa_test() {
    let mut config = Config::new();
    config.set_isa("RV64IMAC_zicsr");

    assert!(config.is_enable_isa(b'i'));
    assert!(config.is_enable_isa(b'm'));
    assert!(config.is_enable_isa(b'a'));
    assert!(config.is_enable_isa(b'c'));

    assert!(!config.is_enable_isa(b'f'));
    assert!(!config.is_enable_isa(b'd'));
}

#[test]
fn config_sizes_and_mmu_type() {
    let mut config = Config::new();
    assert_eq!(config.icache_size(), None);
    config.set_icache_size(16);
    config.set_dcache_size(32);
    config.set_decode_cache_size(64);
    config.set_tlb_size(8);
    assert_eq!(config.icache_size(), Some(16));
    assert_eq!(config.dcache_size(), Some(32));
    assert_eq!(config.decode_cache_size(), Some(64));
    assert_eq!(config.tlb_size(), Some(8));
    assert_eq!(config.get_mmu_type(), StapMode::Bare);
    config.set_mmu_type("SV39");
    assert_eq!(config.get_mmu_type(), StapMode::Sv39);
    config.set_mmu_type("sv57");
    assert_eq!(config.get_mmu_type(), StapMode::Sv57);
}

#[test]
fn zero_mast_test() {
    assert_eq!(zero_mask(0), u64::MAX);
    assert_eq!(zero_mask(1), u64::MAX << 1);
    assert_eq!(zero_mask(2), u64::MAX << 2);
    assert_eq!(zero_mask(64), 0);
}

#[test]
fn inst_rv64i_tset1() {
    let x = 1 < 2;
    println!("x:{}", x as u64);
}

#[test]
fn page_sizes_and_translation() {
    assert_eq!(PageSize::from_i(1), PageSize::P2M);
    assert_eq!(PageSize::P4K.get_mask(), u64::MAX << 12);
    // leaf entry with ppn 0x80200 (pa 0x8020_0000), R W X V
    let pte = PTEenume::Sv39PTE(Sv39PTE((0x80200u64 << 10) | 0xf));
    let va = VAenume::Sv39VA(Sv39VA(0x0040_1234));
    let e4k = TLBEntry::new(pte, PageSize::P4K, 0);
    assert_eq!(e4k.get_pa(&va), 0x8020_0234);
    let e2m = TLBEntry::new(pte, PageSize::P2M, 0);
    assert_eq!(e2m.get_pa(&va), 0x8020_1234);
}

#[test]
fn lr_sc_reservation() {
    let mut r = LrScReservation::new();
    r.set(0x1000);
    assert!(!r.check_and_clear(0x2000));
    r.set(0x1000);
    assert!(r.check_and_clear(0x1000));
    assert!(!r.check_and_clear(0x1000));
    r.set(8);
    r.clear();
    assert!(!r.check_and_clear(8));
}

#[test]
fn simple_clint() {
    let mut c = Clint::new();
    c.do_write(0x4000, 4, 8);
    assert!(!c.is_interrupt());
    c.do_update();
    c.do_update();
    assert!(c.is_interrupt());
    assert_eq!(c.do_read(0xBFF8, 8), 4);
    assert_eq!(c.do_read(0, 4), 0);
}

#[test]
fn cache_line_access() {
    let mut l = CacheLine::new();
    assert!(!l.hit(0));
    l.write(8, 0x1122_3344, 4);
    assert!(l.dirty());
    assert_eq!(l.read(8, 2), 0x3344);
    assert_eq!(l.lru, 2);
    l.clear();
    assert!(!l.dirty());
}

#[test]
fn csr_regs_access_checks() {
    let mut regs = CsrRegs::new(3);
    assert_eq!(regs.read(CSR_MHARTID, PrivilegeLevels::Machine), Ok(3));
    // M-mode CSR from S-mode: illegal
    assert_eq!(regs.read(CSR_MSTATUS, PrivilegeLevels::Supervisor), Err(TrapType::IllegalInstruction(0)));
    // read-only CSR written: illegal
    assert_eq!(regs.write(CSR_MHARTID, 1, PrivilegeLevels::Machine), Err(TrapType::IllegalInstruction(0)));
    // no CSR there
    assert_eq!(regs.read(0x7c0, PrivilegeLevels::Machine), Err(TrapType::IllegalInstruction(0)));
    // sstatus writes only its bits of mstatus
    regs.write(CSR_SSTATUS, u64::MAX, PrivilegeLevels::Supervisor).unwrap();
    let m = regs.read(CSR_MSTATUS, PrivilegeLevels::Machine).unwrap();
    assert_eq!(m, 0x8000_0000_000d_e762 | 0xa_0000_0000);
    regs.write(CSR_MEPC, 0x8000_0004, PrivilegeLevels::Machine).unwrap();
    assert_eq!(regs.read_raw(CSR_MEPC), 0x8000_0004);
    regs.write_raw(CSR_MEPC, 8);
    assert_eq!(regs.read_raw(CSR_MEPC), 8);
    assert_eq!(regs.read_raw(0x7c0), 0);
    assert_eq!(regs.read_raw(CSR_MISA) >> 62, 2);
    // satp: a write naming Sv48 keeps the mode
    regs.write(CSR_SATP, (8u64 << 60) | 5, PrivilegeLevels::Supervisor).unwrap();
    regs.write(CSR_SATP, (9u64 << 60) | 6, PrivilegeLevels::Supervisor).unwrap();
    assert_eq!(regs.read_raw(CSR_SATP), (8u64 << 60) | 6);
}

#[test]
fn csr_views() {
    let mut file = CsrFile::new();
    let s = file.add_register(0);
    let view = Xstatus::new(s, 0xff, 0x0f);
    view.write(&mut file, 0xab);
    assert_eq!(view.read(&file), 0x0b);
    assert!(view.check_permission(&file, CSR_SSTATUS, PrivilegeLevels::User, AccessType::Load(0)).is_err());
    let xs = XstatusIn(1 << 8);
    assert_eq!(xs.get_spp_priv(), PrivilegeLevels::Supervisor);
    assert_eq!(XstatusIn(3 << 11).get_mpp_priv(), PrivilegeLevels::Machine);
    assert_eq!(XipIn((1 << 7) | (1 << 9)).get_priority_interupt(), TrapType::MachineTimerInterrupt);
    assert_eq!(XtvecIn(0x8000_0001).get_trap_pc(TrapType::MachineTimerInterrupt), 0x8000_0000 + 28);
    assert_eq!(XtvecIn(0x8000_0001).get_trap_pc(TrapType::Breakpoint(0)), 0x8000_0000);
    assert_eq!(XtvecIn::get_write_mask(2), u64::MAX);
    assert_eq!(XtvecIn::get_write_mask(1), 0xFFFF_FFFF_FFFF_FFFC);
    assert!(SatpIn(9u64 << 60).unsupport_mod());
}

#[test]
fn exception_entry_delegated_and_not() {
    let mut core = CpuCore::new(0, 0x8000_0000);
    core.csr_regs.file.set(SLOT_MTVEC, 0x8000_0100);
    core.csr_regs.file.set(SLOT_STVEC, 0x8000_0200);
    core.csr_regs.file.set(SLOT_MEDELEG, 1 << 8);
    // an ecall from U-mode, delegated: S-mode entry
    core.cur_priv = PrivilegeLevels::User;
    core.pc = 0x1000;
    core.handle_exceptions(TrapType::EnvironmentCallFromUMode);
    assert_eq!(core.cur_priv, PrivilegeLevels::Supervisor);
    assert_eq!(core.npc, 0x8000_0200);
    assert_eq!(core.csr_regs.read_raw(0x141), 0x1000);
    assert_eq!(core.csr_regs.read_raw(0x142), 8);
    // an illegal instruction from S-mode, not delegated: M-mode entry, MPP = S
    core.pc = 0x2000;
    core.handle_exceptions(TrapType::IllegalInstruction(0x33));
    assert_eq!(core.cur_priv, PrivilegeLevels::Machine);
    assert_eq!(core.npc, 0x8000_0100);
    assert_eq!(core.csr_regs.read_raw(0x341), 0x2000);
    assert_eq!(core.csr_regs.read_raw(0x342), 2);
    assert_eq!(core.csr_regs.read_raw(0x343), 0x33);
    assert_eq!((core.csr_regs.file.get(SLOT_XSTATUS) >> 11) & 3, 1);
}

#[test]
fn interrupt_entry() {
    let mut core = CpuCore::new(0, 0x8000_0000);
    core.csr_regs.file.set(SLOT_MTVEC, 0x8000_0101);
    core.npc = 0x8000_0040;
    // nothing pending: no change
    core.handle_interrupt();
    assert_eq!(core.npc, 0x8000_0040);
    // timer pending and enabled, M-mode with MIE clear: not taken
    core.csr_regs.file.set(SLOT_XIP, 1 << 7);
    core.csr_regs.file.set(SLOT_XIE, 1 << 7);
    core.handle_interrupt();
    assert_eq!(core.npc, 0x8000_0040);
    // MIE set: taken, vectored
    core.csr_regs.file.set(SLOT_XSTATUS, 1 << 3);
    core.handle_interrupt();
    assert_eq!(core.npc, 0x8000_0100 + 4 * 7);
    assert_eq!(core.csr_regs.read_raw(0x342), (1u64 << 63) | 7);
    assert_eq!(core.csr_regs.read_raw(0x341), 0x8000_0040);
    assert_eq!(core.csr_regs.file.get(SLOT_XSTATUS) & (1 << 3), 0);
    assert_eq!(core.csr_regs.file.get(SLOT_XSTATUS) & (1 << 7), 1 << 7);
}

#[test]
fn debug_mode_entry() {
    let mut core = CpuCore::new(0, 0x8000_0000);
    core.cur_priv = PrivilegeLevels::Supervisor;
    core.enter_debug_mode(DebugCause::HaltReq, 0x8000_0010);
    assert!(core.debug_state.debug_mode);
    assert_eq!(core.cpu_state, CpuState::Haltd);
    assert_eq!(core.cur_priv, PrivilegeLevels::Machine);
    assert_eq!(core.csr_regs.file.get(SLOT_DPC), 0x8000_0010);
    assert_eq!(core.csr_regs.read_raw(0x7b0), (3 << 6) | 1);
    let d = DebugState::new();
    assert!(!d.havereset);
}

#[test]
fn csr_new1() {
    let mut csr_regs = CsrRegs::new(0);

    let x = csr_regs.read(0x0305, PrivilegeLevels::Machine);
    println!("{:?}", x);
    assert_eq!(x, Ok(0));

    let y = csr_regs.write(0x0305, 0x1234, PrivilegeLevels::Machine);
    println!("{:?}", y);
    assert_eq!(y, Ok(()));
    assert_eq!(csr_regs.read(0x0305, PrivilegeLevels::Machine), Ok(0x1234));
}

#[test]
fn gpr_name_and_index_are_inverse() {
    for n in 0..32u64 {
        assert_eq!(Gpr::get_register_idx(Gpr::get_register_name(n)).index(), n);
    }
    assert_eq!(Gpr::get_register_name(0), "zero");
    assert_eq!(Gpr::get_register_name(2), "sp");
    assert_eq!(Gpr::get_register_name(8), "s0");
    assert_eq!(Gpr::get_register_name(10), "a0");
    assert_eq!(Gpr::get_register_name(18), "s2");
    let mut g = Gpr::new();
    g.write(10, 0xabcd);
    assert_eq!(g.read_by_name("a0"), 0xabcd);
    assert_eq!(g.read_by_name("zero"), 0);
}

#[test]
fn gpr_write_leaves_other_registers() {
    let mut g = Gpr::new();
    for i in 1..32u64 {
        g.write(i, i * 3);
    }
    g.write(7, 0xffff);
    g.write(0, 5);
    for j in 0..32u64 {
        let expected = if j == 7 { 0xffff } else if j == 0 { 0 } else { j * 3 };
        assert_eq!(g.read(j), expected);
    }
}

#[test]
fn mpp_round_trip() {
    for p in [PrivilegeLevels::User, PrivilegeLevels::Supervisor, PrivilegeLevels::Machine] {
        let code = match p {
            PrivilegeLevels::User => 0u8,
            PrivilegeLevels::Supervisor => 1,
            _ => 3,
        };
        assert_eq!(XstatusIn::new().with_mpp(code).get_mpp_priv(), p);
        assert_eq!(XstatusIn(u64::MAX).with_mpp(code).get_mpp_priv(), p);
    }
}

#[test]
fn set_hmp_sets_one_bit_and_is_idempotent() {
    let mut m = Mcounteren(0xffff_0000_0000_0005);
    m.set_hmp(9);
    assert!(m.hmp(9));
    assert!(!m.hmp(8) && !m.hmp(10));
    assert_eq!(m.0, 0xffff_0000_0000_0005 | (1 << 9));
    let once = m.0;
    m.set_hmp(9);
    assert_eq!(m.0, once);
}

#[test]
fn bus_added_device_takes_free_addresses() {
    let mut bus: Bus<DeviceMemory> = Bus::new();
    bus.add_device(DeviceType { start: 0x1000, len: 0x100, instance: DeviceMemory::new(0x100), name: "A" });
    assert_eq!(bus.read(0x2000, 4), Err(RVerr::NotFindDevice));
    bus.add_device(DeviceType { start: 0x2000, len: 0x100, instance: DeviceMemory::new(0x100), name: "B" });
    bus.write(0x2004, 0x1234_5678, 4).unwrap();
    assert_eq!(bus.devices[1].instance.data[4], 0x78);
    assert_eq!(bus.read(0x2004, 4), Ok(0x1234_5678));
}

#[test]
fn bus_copy_round_trip() {
    let mut bus: Bus<DeviceMemory> = Bus::new();
    bus.add_device(DeviceType { start: 0x1000, len: 0x100, instance: DeviceMemory::new(0x100), name: "A" });
    let data = [1u8, 2, 3, 4, 5, 6, 7];
    assert_eq!(bus.copy_from_slice(0x1010, &data), Ok(()));
    let mut buf = [0u8; 7];
    assert_eq!(bus.copy_to_slice(0x1010, &mut buf), Ok(()));
    assert_eq!(buf, data);
}

#[test]
fn cache_line_write_then_read() {
    let mut l = CacheLine::new();
    l.write(56, 0x0102_0304_0506_0708, 8);
    assert_eq!(l.read(56, 8), 0x0102_0304_0506_0708);
    assert_eq!(l.read(56, 4), 0x0506_0708);
    assert_eq!(l.data.len(), 64);
}
