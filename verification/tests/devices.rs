use riscv64_emu::device::device_16550a::Device16550aUART;
use riscv64_emu::device::device_am_uart::DeviceUart;
use riscv64_emu::device::device_dram::DeviceDram;
use riscv64_emu::device::device_memory::DeviceMemory;
use riscv64_emu::device::device_mouse::{DeviceMouse, DeviceMouseItem};
use riscv64_emu::device::device_sifive_clint::{Clint, ClintHart};
use riscv64_emu::device::device_sifive_plic::{IrqPending, IrqPriority, IrqThreshold, PlicContext, SifvePlic};
use riscv64_emu::device::device_sifive_uart::DeviceSifiveUart;
use riscv64_emu::device::device_trait::DeviceBase;
use riscv64_emu::device::device_vgactl::DeviceVGACTL;
use riscv64_emu::rv64core::csr_regs_define::XipIn;
use riscv64_emu::tools::{Fifobounded, FifoUnbounded};

#[test]
fn device_dram_test_do_read() {
    let mut dram = DeviceDram::new(1024);
    let data = 0xDEADBEEF;
    let data1 = 0xDEADBEEFDEADBEEF_u128;
    let len = 4;

    let addr = 0x100;
    dram.do_write(addr, data, len);
    dram.do_write(addr + 4, data, len);

    let result = dram.do_read(addr, len);
    assert_eq!(result, data);

    let result = dram.do_read(addr, 1);
    assert_eq!(result, data & 0xff);
    let result = dram.do_read(addr, 2);
    assert_eq!(result, data & 0xffff);
    let result = dram.do_read(addr, 4);
    assert_eq!(result, data);
    let result = dram.do_read(addr, 8);
    assert_eq!(result as u128, data1);
}

#[test]
fn device_memory_test_do_read() {
    let mut dram = DeviceMemory::new(1024);
    let data = 0xDEADBEEF;
    let data1 = 0xDEADBEEFDEADBEEF_u128;
    let len = 4;

    let addr = 0x100;
    dram.do_write(addr, data, len);
    dram.do_write(addr + 4, data, len);

    let result = dram.do_read(addr, len);
    assert_eq!(result, data);

    let result = dram.do_read(addr, 1);
    assert_eq!(result, data & 0xff);
    let result = dram.do_read(addr, 2);
    assert_eq!(result, data & 0xffff);
    let result = dram.do_read(addr, 4);
    assert_eq!(result, data);
    let result = dram.do_read(addr, 8);
    assert_eq!(result as u128, data1);
}

#[test]
fn test_do_read_slice() {
    let vec_data = vec![0_u8; 1024];
    let mut dram = DeviceMemory::from_boxed_slice(vec_data.into_boxed_slice());

    let data = 0xDEADBEEF;
    let data1 = 0xDEADBEEFDEADBEEF_u128;
    let len = 4;

    let addr = 0x100;
    dram.do_write(addr, data, len);
    dram.do_write(addr + 4, data, len);

    let result = dram.do_read(addr, len);
    assert_eq!(result, data);

    let result = dram.do_read(addr, 1);
    assert_eq!(result, data & 0xff);
    let result = dram.do_read(addr, 2);
    assert_eq!(result, data & 0xffff);
    let result = dram.do_read(addr, 4);
    assert_eq!(result, data);
    let result = dram.do_read(addr, 8);
    assert_eq!(result as u128, data1);
}

#[test]
fn device_uart_tset1() {
    let mut uart = DeviceUart::new(FifoUnbounded::new());
    let hello = "hello\n";
    for s in hello.chars() {
        uart.do_write(0, s as u64, 1);
    }
    assert_eq!(uart.txfifo.len(), 6);
}

#[test]
fn memory_read_after_write_other_bytes_kept() {
    let mut mem = DeviceMemory::new(16);
    mem.do_write(0, 0x1122_3344_5566_7788, 8);
    mem.do_write(2, 0xaabb, 2);
    assert_eq!(mem.do_read(0, 8), 0x1122_3344_aabb_7788);
    assert_eq!(mem.do_read(2, 2), 0xaabb);
}

#[test]
fn memory_copy_slices() {
    let mut mem = DeviceMemory::new(16);
    mem.copy_from_slice(4, &[1, 2, 3, 4]);
    let mut out = [0u8; 6];
    mem.copy_to_slice(3, &mut out);
    assert_eq!(out, [0, 1, 2, 3, 4, 0]);
    assert!(mem.can_copy_from(12, &[1, 2, 3, 4]));
    assert!(!mem.can_copy_from(13, &[1, 2, 3, 4]));
    assert!(!mem.can_read(15, 2));
}

#[test]
fn memory_load_binary() {
    let mut mem = DeviceMemory::new(8);
    mem.load_binary(&[9, 8, 7]);
    assert_eq!(mem.do_read(0, 4), 0x0007_0809);
    assert_eq!(mem.size(), 8);
}

#[test]
fn am_uart_queues_bytes() {
    let mut uart = DeviceUart::new(FifoUnbounded::new());
    assert!(uart.can_write(0, 0x41, 1));
    assert!(!uart.can_write(1, 0x41, 1));
    assert!(!uart.can_read(0, 1));
    uart.do_write(0, 0x141, 1);
    assert_eq!(uart.txfifo.pop(), Some(0x41));
}

#[test]
fn vgactl_sync_flag() {
    let mut ctl = DeviceVGACTL::new(false);
    assert!(ctl.can_write(4, 1, 4));
    assert!(!ctl.can_write(0, 1, 4));
    ctl.do_write(4, 1, 4);
    assert!(ctl.tx);
}

#[test]
fn mouse_reads_latest_report() {
    let mut q = Fifobounded::new(2);
    q.force_push(DeviceMouseItem { mouse_btn_state: 1, x: 10, y: 20 });
    q.force_push(DeviceMouseItem { mouse_btn_state: 0, x: 30, y: 40 });
    let dropped = q.force_push(DeviceMouseItem { mouse_btn_state: 3, x: 50, y: 60 });
    assert_eq!(dropped, Some(DeviceMouseItem { mouse_btn_state: 1, x: 10, y: 20 }));
    let mut mouse = DeviceMouse::new(q);
    assert_eq!(mouse.do_read(8, 4), 30);
    assert_eq!(mouse.do_read(12, 4), 60);
    assert_eq!(mouse.do_read(0, 4), 3);
    assert_eq!(mouse.do_read(8, 4), 50);
    assert!(!mouse.can_read(4, 4));
}

#[test]
fn clint_timer_interrupt_and_registers() {
    let mut clint = Clint::new();
    let h = clint.add_hart(XipIn(0));
    assert_eq!(h, 0);
    // mtimecmp low then high word
    clint.do_write(0x4000, 100, 8);
    assert_eq!(clint.do_read(0x4000, 8), 100);
    clint.do_write(0x4004, 1, 4);
    assert_eq!(clint.do_read(0x4004, 4), 1);
    assert_eq!(clint.do_read(0x4000, 8), (1u64 << 32) | 100);
    clint.do_write(0x4000, 100, 8);
    clint.tick(99);
    assert!(!clint.harts[0].xip.mtip());
    clint.tick(1);
    assert!(clint.harts[0].xip.mtip());
    assert_eq!(clint.do_read(0xbff8, 8), 100);
    // software interrupt
    clint.do_write(0, 1, 4);
    assert_eq!(clint.do_read(0, 4), 1);
    assert!(clint.harts[0].xip.msip());
    clint.do_write(0, 2, 4);
    assert_eq!(clint.do_read(0, 4), 0);
    // mtime write
    clint.do_write(0xbff8, 5, 8);
    assert_eq!(clint.do_read(0xbffc, 4), 0);
    assert!(!clint.can_read(0x4008, 8));
    assert!(!clint.can_write(0xbffc, 1, 4));
}

#[test]
fn clint_hart_registers() {
    let mut h = ClintHart::new(XipIn(0));
    assert_eq!(h.mtimecmp_read(), u64::MAX);
    h.mtimecmp_write(0x1_0000_0002);
    assert_eq!(h.mtimecmph_read(), 1);
    h.mtimecmph_write(7);
    assert_eq!(h.mtimecmp_read(), 0x7_0000_0002);
    h.msip_write(1);
    assert_eq!(h.msip_read(), 1);
}

#[test]
fn plic_claim_picks_highest_priority_lowest_id() {
    let mut plic = SifvePlic::new();
    plic.register_irq_source(3, true);
    plic.register_irq_source(5, true);
    plic.register_irq_source(4, true);
    plic.register_irq_source(7, false);
    assert!(plic.is_registered(5));
    assert!(!plic.is_registered(6));
    let ctx = plic.add_context(XipIn(0), true);
    assert_eq!(ctx, 0);
    // priorities: 3 -> 2, 4 -> 5, 5 -> 5, 7 -> 7 (not pending)
    plic.do_write(3 * 4, 2, 4);
    plic.do_write(4 * 4, 5, 4);
    plic.do_write(5 * 4, 5, 4);
    plic.do_write(7 * 4, 7, 4);
    assert_eq!(plic.do_read(4 * 4, 4), 5);
    // enable sources 3, 4, 5, 7 for context 0
    plic.do_write(0x2000, (1 << 3) | (1 << 4) | (1 << 5) | (1 << 7) | 1, 4);
    assert_eq!(plic.do_read(0x2000, 4), (1 << 3) | (1 << 4) | (1 << 5) | (1 << 7));
    plic.tick();
    assert!(plic.context_xip(0).meip());
    assert_eq!(plic.do_read(0x1000, 4), (1 << 3) | (1 << 4) | (1 << 5));
    // claim: 4 and 5 share priority 5; the lower number wins
    assert_eq!(plic.do_read(0x20_0004, 4), 4);
    // claimed again before completion: 5 is next
    assert_eq!(plic.do_read(0x20_0004, 4), 5);
    // complete 4, its line is low now: 3 is next
    plic.do_write(0x20_0004, 4, 4);
    assert_eq!(plic.do_read(0x20_0004, 4), 3);
    // threshold
    plic.do_write(0x20_0000, 6, 4);
    assert_eq!(plic.do_read(0x20_0000, 4), 6);
    assert!(!plic.can_write(0x20_0000, 9, 4));
    assert!(!plic.can_read(0x20_0008, 4));
}

#[test]
fn plic_tick_drives_context_line() {
    let mut plic = SifvePlic::new();
    plic.register_irq_source(10, false);
    plic.add_context(XipIn(0), false);
    plic.do_write(10 * 4, 1, 4);
    plic.do_write(0x2000, 1 << 10, 4);
    plic.tick();
    assert!(!plic.context_xip(0).seip());
    plic.set_source_pending(10, true);
    plic.tick();
    assert!(plic.context_xip(0).seip());
    // threshold at the priority masks it
    plic.do_write(0x20_0000, 1, 4);
    plic.tick();
    assert!(!plic.context_xip(0).seip());
}

#[test]
fn plic_registers_words() {
    let mut p = IrqPending::new();
    p.set_bool(3, true);
    assert!(p.get_bit(3));
    p.set_bit(31);
    assert_eq!(p.get_all(), (1 << 31) | (1 << 3));
    p.clear_bit(3);
    assert_eq!(p.get_all(), 1 << 31);
    p.set_all(5);
    assert_eq!(p.get_all(), 5);
    let mut pr = IrqPriority::new();
    pr.set(6);
    assert_eq!(pr.get(), 6);
    let mut t = IrqThreshold::new();
    t.set_all(3);
    assert_eq!(t.get_all(), 3);
    let mut c = PlicContext::new(XipIn(0), false);
    c.update_xip(true);
    assert!(c.xip.seip());
    assert!(!c.get_enable_by_id(1));
}

#[test]
fn sifive_uart_tx_rx_and_watermarks() {
    let mut rx = FifoUnbounded::new();
    rx.push(0x61u8);
    let mut uart = DeviceSifiveUart::new(FifoUnbounded::new(), rx);
    uart.do_write(0x00, 0x41, 4);
    assert_eq!(uart.txfifo.pop(), Some(0x41));
    assert_eq!(uart.do_read(0x04, 4), 0x61);
    assert_eq!(uart.do_read(0x04, 4), 0x8000_0000);
    // rx watermark: more than rxcnt (0) bytes waiting, enabled
    uart.rxfifo.push(1);
    uart.do_write(0x10, 2, 4);
    uart.do_update();
    assert_eq!(uart.do_read(0x14, 4), 2);
    assert!(uart.irq_pending);
    uart.do_write(0x18, 7, 4);
    assert_eq!(uart.do_read(0x18, 4), 7);
    assert!(!uart.can_read(0x1c, 4));
}

#[test]
fn uart_16550a_registers() {
    let mut rx = FifoUnbounded::new();
    rx.push(0x7au8);
    let mut uart = Device16550aUART::new(FifoUnbounded::new(), rx);
    assert_eq!(uart.do_read(2, 1), 0xc1);
    assert_eq!(uart.do_read(3, 1), 0x03);
    assert_eq!(uart.do_read(5, 1) & 1, 1);
    assert_eq!(uart.do_read(0, 1), 0x7a);
    assert_eq!(uart.do_read(5, 1) & 1, 0);
    assert_eq!(uart.do_read(0, 1), 0);
    uart.do_write(0, 0x42, 1);
    assert_eq!(uart.txfifo.pop(), Some(0x42));
    assert_eq!(uart.do_read(5, 1) & 0x20, 0x20);
    uart.do_write(7, 0x55, 1);
    assert_eq!(uart.do_read(7, 1), 0x55);
    assert!(!uart.can_read(4, 1));
    assert!(uart.can_write(4, 0, 1));
}

#[test]
fn plic_enable_word_bits() {
    let mut plic = SifvePlic::new();
    plic.add_context(XipIn(0), true);
    plic.do_write(0x2000, 0xffff_ffff, 4);
    assert_eq!(plic.do_read(0x2000, 4), 0xffff_fffe);
    plic.do_write(0x2004, 0x8000_0001, 4);
    assert_eq!(plic.do_read(0x2004, 4), 0x8000_0001);
    assert_eq!(plic.do_read(0x2000, 4), 0xffff_fffe);
}

#[test]
fn plic_tick_copies_source_lines() {
    let mut plic = SifvePlic::new();
    plic.register_irq_source(3, true);
    plic.register_irq_source(40, true);
    plic.register_irq_source(5, false);
    plic.tick();
    assert_eq!(plic.do_read(0x1000, 4), 1 << 3);
    assert_eq!(plic.do_read(0x1004, 4), 1 << 8);
}
