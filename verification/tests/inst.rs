use riscv64_emu::config::Config;
use riscv64_emu::device::device_dram::DeviceDram;
use riscv64_emu::rv64core::bus::{Bus, DeviceType};
use riscv64_emu::rv64core::cpu_core::{CpuCore, CpuState};
use riscv64_emu::rv64core::csr_regs::{SLOT_MCAUSE, SLOT_MEPC, SLOT_MSCRATCH, SLOT_MTVEC, SLOT_CYCLE, SLOT_INSTRET, SLOT_XSTATUS, SLOT_SATP, SLOT_MTVAL};
use riscv64_emu::rv64core::inst::inst_exec::alu_compute;
use riscv64_emu::rv64core::inst::inst_format::{
    parse_format_b, parse_format_i, parse_format_j, parse_format_s, parse_format_u, is_compressed_instruction,
    parse_format_c,
};
use riscv64_emu::rv64core::inst::inst_op::{
    InstOp, instructions_i, instructions_m, instructions_a, instructions_z, instructions_c, MASK_ADD, MATCH_ADD,
};
use riscv64_emu::rv64core::inst_base::PrivilegeLevels;
use riscv64_emu::rv64core::inst_decode::InstDecode;
use riscv64_emu::rv64core::cache::cpu_icache::CpuIcache;
use riscv64_emu::rv64core::traptype::TrapType;

const BASE: u64 = 0x8000_0000;

fn alu_compute_for_tests(op: InstOp, a: u64, b: u64) -> u64 {
    alu_compute(op, 0, 0, a, b)
}

fn new_bus() -> Bus<DeviceDram> {
    let mut bus = Bus::new();
    bus.add_device(DeviceType { start: BASE, len: 0x1000, instance: DeviceDram::new(0x1000), name: "DRAM" });
    bus
}

fn load(bus: &mut Bus<DeviceDram>, at: u64, prog: &[u32]) {
    for (k, w) in prog.iter().enumerate() {
        bus.write(at + 4 * k as u64, *w as u64, 4).unwrap();
    }
}

fn rv64ima() -> Config {
    let mut c = Config::new();
    c.set_isa("rv64ima");
    c
}

#[test]
fn format_immediates() {
    // addi x2, x0, -7
    let f = parse_format_i(0xff900113);
    assert_eq!((f.rd, f.rs1, f.imm), (2, 0, (-7i64) as u64));
    // sd x3, 64(x5)
    let f = parse_format_s(0x0432b023);
    assert_eq!((f.rs1, f.rs2, f.imm), (5, 3, 64));
    // bne x1, x2, -4
    let f = parse_format_b(0xfe209ee3);
    assert_eq!((f.rs1, f.rs2, f.imm), (1, 2, (-4i64) as u64));
    // jal x10, 8
    let f = parse_format_j(0x0080056f);
    assert_eq!((f.rd, f.imm), (10, 8));
    // lui x1, 0x80000: the immediate is sign-extended from bit 31
    let f = parse_format_u(0x800000b7);
    assert_eq!((f.rd, f.imm), (1, 0xffff_ffff_8000_0000));
    assert!(!is_compressed_instruction(0x00500093));
    assert!(is_compressed_instruction(0x4501));
}

#[test]
fn alu_values() {
    let m = u64::MAX;
    let min = 0x8000_0000_0000_0000u64;
    assert_eq!(alu_compute_for_tests(InstOp::Add, m, 2), 1);
    assert_eq!(alu_compute_for_tests(InstOp::Sub, 0, 1), m);
    assert_eq!(alu_compute_for_tests(InstOp::Slt, m, 0), 1);
    assert_eq!(alu_compute_for_tests(InstOp::Sltu, m, 0), 0);
    assert_eq!(alu_compute_for_tests(InstOp::Sra, min, 63), m);
    assert_eq!(alu_compute_for_tests(InstOp::Srl, min, 63), 1);
    assert_eq!(alu_compute_for_tests(InstOp::Sll, 1, 65), 2);
    assert_eq!(alu_compute_for_tests(InstOp::Addw, 0x7fff_ffff, 1), 0xffff_ffff_8000_0000);
    assert_eq!(alu_compute_for_tests(InstOp::Srlw, 0xffff_ffff_8000_0000, 31), 1);
    assert_eq!(alu_compute_for_tests(InstOp::Sraw, 0x8000_0000, 31), m);
    assert_eq!(alu_compute_for_tests(InstOp::Mul, m, m), 1);
    assert_eq!(alu_compute_for_tests(InstOp::Mulh, m, m), 0);
    assert_eq!(alu_compute_for_tests(InstOp::Mulhu, m, m), m - 1);
    assert_eq!(alu_compute_for_tests(InstOp::Mulhsu, m, m), m);
    assert_eq!(alu_compute_for_tests(InstOp::Mulh, min, min), 0x4000_0000_0000_0000);
    assert_eq!(alu_compute_for_tests(InstOp::Div, 7, 0), m);
    assert_eq!(alu_compute_for_tests(InstOp::Div, min, m), min);
    assert_eq!(alu_compute_for_tests(InstOp::Div, (-7i64) as u64, 2), (-3i64) as u64);
    assert_eq!(alu_compute_for_tests(InstOp::Rem, (-7i64) as u64, 2), m);
    assert_eq!(alu_compute_for_tests(InstOp::Rem, 7, 0), 7);
    assert_eq!(alu_compute_for_tests(InstOp::Rem, min, m), 0);
    assert_eq!(alu_compute_for_tests(InstOp::Divu, 7, 0), m);
    assert_eq!(alu_compute_for_tests(InstOp::Remu, 7, 0), 7);
    assert_eq!(alu_compute_for_tests(InstOp::Divw, 0x8000_0000, m), 0xffff_ffff_8000_0000);
    assert_eq!(alu_compute_for_tests(InstOp::Remw, 0x1_8000_0005, 0), 0xffff_ffff_8000_0005);
    assert_eq!(alu_compute_for_tests(InstOp::Divuw, 0x1_0000_0008, 0x1_0000_0002), 4);
    assert_eq!(alu_compute_for_tests(InstOp::Remuw, 0xffff_ffff, 0), m);
    assert_eq!(alu_compute_for_tests(InstOp::Mulw, 0x10000, 0x10000), 0);
}

#[test]
fn decode_tables() {
    assert_eq!(instructions_i().len(), 49);
    assert_eq!(instructions_m().len(), 13);
    assert_eq!(instructions_a().len(), 22);
    assert_eq!(instructions_z().len(), 14);
    let mut d = InstDecode::new(&Config::new());
    assert_eq!(d.fast_path(0x002081b3), Some(InstOp::Add));
    assert_eq!(0x002081b3 & MASK_ADD, MATCH_ADD);
    // mul needs the M extension
    assert_eq!(d.fast_path(0x02208233), None);
    let mut d = InstDecode::new(&rv64ima());
    assert_eq!(d.fast_path(0x02208233), Some(InstOp::Mul));
    assert_eq!(d.fast_path(0x1002b82f), Some(InstOp::LrD));
    assert_eq!(d.fast_path(0x30200073), Some(InstOp::Mret));
    assert_eq!(d.fast_path(0xffff_ffff), None);
}

#[test]
fn decode_cache_counts() {
    let mut c = rv64ima();
    c.set_decode_cache_size(4);
    let mut d = InstDecode::new(&c);
    assert_eq!(d.fast_path(0x00500093), Some(InstOp::Addi));
    assert_eq!((d.hit, d.miss), (0, 1));
    assert_eq!(d.fast_path(0x00500093), Some(InstOp::Addi));
    assert_eq!((d.hit, d.miss), (1, 1));
    d.reset();
    assert_eq!((d.hit, d.miss), (0, 0));
}

#[test]
fn run_program() {
    let prog: [u32; 19] = [
        0x00500093, // addi x1, x0, 5
        0xff900113, // addi x2, x0, -7
        0x002081b3, // add x3, x1, x2
        0x02208233, // mul x4, x1, x2
        0x00000297, // auipc x5, 0
        0x0432b023, // sd x3, 64(x5)
        0x0402b303, // ld x6, 64(x5)
        0x0402a383, // lw x7, 64(x5)
        0x0402c403, // lbu x8, 64(x5)
        0x00108463, // beq x1, x1, 8
        0x00100493, // addi x9, x0, 1 (skipped)
        0x0080056f, // jal x10, 8
        0x00100493, // addi x9, x0, 1 (skipped)
        0x340095f3, // csrrw x11, mscratch, x1
        0x34002673, // csrrs x12, mscratch, x0
        0xf14026f3, // csrrs x13, mhartid, x0
        0x0200c733, // div x14, x1, x0
        0x4011579b, // sraiw x15, x2, 1
        0x00000073, // ecall
    ];
    let mut bus = new_bus();
    load(&mut bus, BASE, &prog);
    let mut cpu = CpuCore::new(0, BASE);
    cpu.csr_regs.file.set(SLOT_MTVEC, BASE + 0x100);
    let mut decode = InstDecode::new(&rv64ima());
    for _ in 0..16 {
        assert!(cpu.step(&mut bus, &mut decode));
    }
    let x = |cpu: &CpuCore, r: u64| cpu.gpr.read(r);
    assert_eq!(x(&cpu, 1), 5);
    assert_eq!(x(&cpu, 2), (-7i64) as u64);
    assert_eq!(x(&cpu, 3), (-2i64) as u64);
    assert_eq!(x(&cpu, 4), (-35i64) as u64);
    assert_eq!(x(&cpu, 5), BASE + 0x10);
    assert_eq!(x(&cpu, 6), (-2i64) as u64);
    assert_eq!(x(&cpu, 7), (-2i64) as u64);
    assert_eq!(x(&cpu, 8), 0xfe);
    assert_eq!(x(&cpu, 9), 0);
    assert_eq!(x(&cpu, 10), BASE + 0x30);
    assert_eq!(x(&cpu, 11), 0);
    assert_eq!(x(&cpu, 12), 5);
    assert_eq!(x(&cpu, 13), 0);
    assert_eq!(x(&cpu, 14), u64::MAX);
    assert_eq!(x(&cpu, 15), (-4i64) as u64);
    assert_eq!(cpu.csr_regs.file.get(SLOT_MSCRATCH), 5);
    assert_eq!(cpu.csr_regs.file.get(SLOT_CYCLE), 16);
    assert_eq!(cpu.csr_regs.file.get(SLOT_INSTRET), 16);
    assert_eq!(cpu.npc, BASE + 0x48);
    // the environment call traps to mtvec
    assert!(cpu.step(&mut bus, &mut decode));
    assert_eq!(cpu.csr_regs.file.get(SLOT_MCAUSE), 11);
    assert_eq!(cpu.csr_regs.file.get(SLOT_MEPC), BASE + 0x48);
    assert_eq!(cpu.npc, BASE + 0x100);
    assert_eq!(cpu.csr_regs.file.get(SLOT_INSTRET), 16);
    assert_eq!(cpu.csr_regs.file.get(SLOT_CYCLE), 17);
}

#[test]
fn illegal_and_misaligned() {
    let mut bus = new_bus();
    // an unknown word, then a branch to a misaligned target
    load(&mut bus, BASE, &[0xffff_ffff]);
    let mut cpu = CpuCore::new(0, BASE);
    cpu.csr_regs.file.set(SLOT_MTVEC, BASE + 0x200);
    let mut decode = InstDecode::new(&rv64ima());
    assert!(cpu.step(&mut bus, &mut decode));
    assert_eq!(cpu.csr_regs.file.get(SLOT_MCAUSE), 2);
    assert_eq!(cpu.npc, BASE + 0x200);
    // beq x0, x0, 6
    load(&mut bus, BASE + 0x200, &[0x00000363]);
    assert!(cpu.step(&mut bus, &mut decode));
    assert_eq!(cpu.csr_regs.file.get(SLOT_MCAUSE), 0);
    assert_eq!(cpu.csr_regs.file.get(SLOT_MEPC), BASE + 0x200);
    // a load from an address no device holds
    // ld x1, 0(x0)
    load(&mut bus, BASE + 0x200, &[0x00003083]);
    cpu.npc = BASE + 0x200;
    assert!(cpu.step(&mut bus, &mut decode));
    assert_eq!(cpu.csr_regs.file.get(SLOT_MCAUSE), 5);
}

#[test]
fn mret_returns_to_mpp() {
    let mut bus = new_bus();
    load(&mut bus, BASE, &[0x30200073]);
    let mut cpu = CpuCore::new(0, BASE);
    // MPP = S, MPIE = 1
    let m = cpu.csr_regs.file.get(SLOT_XSTATUS);
    cpu.csr_regs.file.set(SLOT_XSTATUS, (m & !(3 << 11)) | (1 << 11) | (1 << 7));
    cpu.csr_regs.file.set(SLOT_MEPC, BASE + 0x40);
    let mut decode = InstDecode::new(&rv64ima());
    assert!(cpu.step(&mut bus, &mut decode));
    assert_eq!(cpu.cur_priv, PrivilegeLevels::Supervisor);
    assert_eq!(cpu.npc, BASE + 0x40);
    let m = cpu.csr_regs.file.get(SLOT_XSTATUS);
    assert_eq!((m >> 11) & 3, 0);
    assert_eq!((m >> 3) & 1, 1);
    assert_eq!((m >> 7) & 1, 1);
}

#[test]
fn atomics() {
    let prog: [u32; 4] = [
        0x00000297, // auipc x5, 0
        0x1002b82f, // lr.d x16, (x5)
        0x1812b8af, // sc.d x17, x1, (x5)
        0x0012a92f, // amoadd.w x18, x1, (x5)
    ];
    let mut bus = new_bus();
    load(&mut bus, BASE, &prog);
    let mut cpu = CpuCore::new(0, BASE);
    cpu.gpr.write(1, 3);
    let mut decode = InstDecode::new(&rv64ima());
    for _ in 0..4 {
        assert!(cpu.step(&mut bus, &mut decode));
    }
    assert_eq!(cpu.gpr.read(16), 0x1002b82f_00000297);
    // the store-conditional succeeded and stored 3
    assert_eq!(cpu.gpr.read(17), 0);
    assert_eq!(cpu.gpr.read(18), 3);
    assert_eq!(bus.read(BASE, 8).unwrap(), 6);
    assert_eq!(bus.lr_sc_set.val, u64::MAX);
}

#[test]
fn halt_and_resume() {
    let mut bus = new_bus();
    load(&mut bus, BASE, &[0x00500093, 0x00500093]);
    let mut cpu = CpuCore::new(0, BASE);
    let mut decode = InstDecode::new(&rv64ima());
    cpu.debug_state.haltreq_signal = true;
    assert!(cpu.step(&mut bus, &mut decode));
    assert_eq!(cpu.cpu_state, CpuState::Haltd);
    assert!(cpu.debug_state.debug_mode);
    cpu.debug_state.haltreq_signal = false;
    cpu.debug_state.resumereq_flag = true;
    assert!(cpu.step(&mut bus, &mut decode));
    assert_eq!(cpu.cpu_state, CpuState::Running);
    assert!(cpu.debug_state.resumeack);
    assert_eq!(cpu.npc, BASE);
    assert!(cpu.step(&mut bus, &mut decode));
    assert_eq!(cpu.gpr.read(1), 5);
    cpu.cpu_state = CpuState::Stop;
    assert!(!cpu.step(&mut bus, &mut decode));
}

fn rv64imac() -> Config {
    let mut c = Config::new();
    c.set_isa("rv64imac");
    c
}

fn load_halves(bus: &mut Bus<DeviceDram>, at: u64, prog: &[u16]) {
    for (k, h) in prog.iter().enumerate() {
        bus.write(at + 2 * k as u64, *h as u64, 2).unwrap();
    }
}

#[test]
fn compressed_formats() {
    // c.addi16sp sp, -64
    assert_eq!(parse_format_c(0x7139).imm_addi16sp, (-64i64) as u64);
    // c.addi4spn a0, sp, 16
    let f = parse_format_c(0x0808);
    assert_eq!((f.rs2p, f.imm_addi4spn), (10, 16));
    // c.sdsp ra, 8(sp) and c.ldsp ra, 8(sp)
    let f = parse_format_c(0xe406);
    assert_eq!((f.rs2, f.imm_sdsp), (1, 8));
    let f = parse_format_c(0x60a2);
    assert_eq!((f.rd, f.imm_ldsp), (1, 8));
    // c.swsp a0, 12(sp) and c.lwsp a1, 12(sp)
    let f = parse_format_c(0xc62a);
    assert_eq!((f.rs2, f.imm_swsp), (10, 12));
    let f = parse_format_c(0x45b2);
    assert_eq!((f.rd, f.imm_lwsp), (11, 12));
    // c.lw a5, 0(a0) and c.sw a1, 4(a0)
    let f = parse_format_c(0x411c);
    assert_eq!((f.rs1p, f.rs2p, f.imm_lw), (10, 15, 0));
    assert_eq!(parse_format_c(0xc14c).imm_lw, 4);
    // c.bnez a0, -4; c.j -2; c.j 6
    let f = parse_format_c(0xfd75);
    assert_eq!((f.rs1p, f.imm_b), (10, (-4i64) as u64));
    assert_eq!(parse_format_c(0xbffd).imm_j, (-2i64) as u64);
    assert_eq!(parse_format_c(0xa019).imm_j, 6);
    // c.lui a0, 1; c.addi sp, -16; c.srai a0, 1
    assert_eq!(parse_format_c(0x6505).imm_lui, 0x1000);
    assert_eq!(parse_format_c(0x1141).imm_i6, (-16i64) as u64);
    assert_eq!(parse_format_c(0x8505).shamt, 1);
}

#[test]
fn compressed_table() {
    assert_eq!(instructions_c().len(), 33);
    let mut d = InstDecode::new(&rv64imac());
    assert!(d.rvc);
    // the special encodings win over the general ones they overlap
    assert_eq!(d.fast_path(0x0001), Some(InstOp::CNop));
    assert_eq!(d.fast_path(0x9002), Some(InstOp::CEbreak));
    assert_eq!(d.fast_path(0x7139), Some(InstOp::CAddi16sp));
    assert_eq!(d.fast_path(0x6505), Some(InstOp::CLui));
    assert_eq!(d.fast_path(0x9502), Some(InstOp::CJalr));
    assert_eq!(d.fast_path(0x952e), Some(InstOp::CAdd));
    assert_eq!(d.fast_path(0x8082), Some(InstOp::CJr));
    assert_eq!(d.fast_path(0x85aa), Some(InstOp::CMv));
    // a word decodes to a compressed instruction exactly when it is one
    let mut d2 = InstDecode::new(&rv64imac());
    assert!(is_compressed_instruction(0x4501));
    assert_eq!(d2.fast_path(0x4501), Some(InstOp::CLi));
    assert!(!is_compressed_instruction(0x00500093));
    assert_eq!(d2.fast_path(0x00500093), Some(InstOp::Addi));
    // without the C extension a compressed word decodes to nothing
    let mut d = InstDecode::new(&rv64ima());
    assert!(!d.rvc);
    assert_eq!(d.fast_path(0x4501), None);
}

#[test]
fn run_compressed_program() {
    let prog: [u16; 24] = [
        0x4501, // c.li a0, 0
        0x0505, // c.addi a0, 1
        0x050a, // c.slli a0, 2
        0x85aa, // c.mv a1, a0
        0x952e, // c.add a0, a1
        0x8d0d, // c.sub a0, a1
        0x7139, // c.addi16sp sp, -64
        0x0808, // c.addi4spn a0, sp, 16
        0xe10c, // c.sd a1, 0(a0)
        0x6110, // c.ld a2, 0(a0)
        0xc62a, // c.swsp a0, 12(sp)
        0x45b2, // c.lwsp a1, 12(sp)
        0x8905, // c.andi a0, 1
        0xc501, // c.beqz a0, 8
        0x0001, // c.nop (skipped)
        0x0001, // c.nop (skipped)
        0x0001, // c.nop (skipped)
        0x2505, // c.addiw a0, 1
        0x6505, // c.lui a0, 1
        0x8505, // c.srai a0, 1
        0x0001, // c.nop
        0x0293, 0x0050, // addi x5, x0, 5, at an address aligned to 2 bytes only
        0x9002, // c.ebreak
    ];
    let mut bus = new_bus();
    load_halves(&mut bus, BASE, &prog);
    let mut cpu = CpuCore::new(0, BASE);
    cpu.gpr.write(2, BASE + 0x800);
    cpu.csr_regs.file.set(SLOT_MTVEC, BASE + 0x100);
    let mut decode = InstDecode::new(&rv64imac());
    for _ in 0..14 {
        assert!(cpu.step(&mut bus, &mut decode));
    }
    assert_eq!(cpu.gpr.read(2), BASE + 0x7c0);
    assert_eq!(cpu.gpr.read(12), 4);
    assert_eq!(bus.read(BASE + 0x7d0, 8).unwrap(), 4);
    assert_eq!(cpu.gpr.read(11), 0xffff_ffff_8000_07d0);
    assert_eq!(cpu.gpr.read(10), 0);
    assert_eq!(cpu.npc, BASE + 0x22);
    for _ in 0..5 {
        assert!(cpu.step(&mut bus, &mut decode));
    }
    assert_eq!(cpu.gpr.read(10), 0x800);
    assert_eq!(cpu.gpr.read(5), 5);
    assert_eq!(cpu.npc, BASE + 0x2e);
    assert_eq!(cpu.csr_regs.file.get(SLOT_INSTRET), 19);
    // c.ebreak raises a breakpoint at its own address
    assert!(cpu.step(&mut bus, &mut decode));
    assert_eq!(cpu.csr_regs.file.get(SLOT_MCAUSE), 3);
    assert_eq!(cpu.csr_regs.file.get(SLOT_MEPC), BASE + 0x2e);
    assert_eq!(cpu.npc, BASE + 0x100);
}

#[test]
fn compressed_jumps() {
    let mut bus = new_bus();
    // c.jalr a0; c.j -2
    load_halves(&mut bus, BASE, &[0x9502, 0xbffd]);
    // c.jr ra
    load_halves(&mut bus, BASE + 0x40, &[0x8082]);
    let mut cpu = CpuCore::new(0, BASE);
    cpu.gpr.write(10, BASE + 0x40);
    cpu.csr_regs.file.set(SLOT_MTVEC, BASE + 0x100);
    let mut decode = InstDecode::new(&rv64imac());
    assert!(cpu.step(&mut bus, &mut decode));
    assert_eq!(cpu.npc, BASE + 0x40);
    assert_eq!(cpu.gpr.read(1), BASE + 2);
    assert!(cpu.step(&mut bus, &mut decode));
    assert_eq!(cpu.npc, BASE + 2);
    assert!(cpu.step(&mut bus, &mut decode));
    assert_eq!(cpu.npc, BASE);
    // a jump to an odd address: the fetch there is misaligned
    cpu.gpr.write(10, BASE + 0x41);
    assert!(cpu.step(&mut bus, &mut decode));
    assert_eq!(cpu.npc, BASE + 0x41);
    assert!(cpu.step(&mut bus, &mut decode));
    assert_eq!(cpu.csr_regs.file.get(SLOT_MCAUSE), 0);
    assert_eq!(cpu.npc, BASE + 0x100);
}

#[test]
fn misaligned_fetch_without_compressed() {
    let mut bus = new_bus();
    let mut cpu = CpuCore::new(0, BASE + 2);
    cpu.csr_regs.file.set(SLOT_MTVEC, BASE + 0x100);
    let mut decode = InstDecode::new(&rv64ima());
    assert!(cpu.step(&mut bus, &mut decode));
    assert_eq!(cpu.csr_regs.file.get(SLOT_MCAUSE), 4);
    assert_eq!(cpu.npc, BASE + 0x100);
}

#[test]
fn execute_runs_turns() {
    let mut bus = new_bus();
    // addi x1, x0, 5; addi x1, x1, 5; addi x1, x1, 5
    load(&mut bus, BASE, &[0x00500093, 0x00508093, 0x00508093]);
    let mut cpu = CpuCore::new(0, BASE);
    let mut decode = InstDecode::new(&rv64ima());
    cpu.execute(&mut bus, &mut decode, 2);
    assert_eq!(cpu.gpr.read(1), 10);
    assert_eq!(cpu.npc, BASE + 8);
    // a halted hart that is not asked to resume stays halted
    cpu.cpu_state = CpuState::Haltd;
    cpu.execute(&mut bus, &mut decode, 3);
    assert_eq!(cpu.npc, BASE + 8);
    // a stopped hart ends the run
    cpu.cpu_state = CpuState::Stop;
    cpu.execute(&mut bus, &mut decode, 3);
    assert_eq!(cpu.npc, BASE + 8);
    assert_eq!(cpu.gpr.read(1), 10);
    cpu.cpu_state = CpuState::Running;
    cpu.execute(&mut bus, &mut decode, 1);
    assert_eq!(cpu.gpr.read(1), 15);
}

#[test]
fn execute_as_ref_steps() {
    let mut bus = new_bus();
    // addi x1, x0, 5; ecall
    load(&mut bus, BASE, &[0x00500093, 0x00000073]);
    let mut cpu = CpuCore::new(0, BASE);
    cpu.csr_regs.file.set(SLOT_MTVEC, BASE + 0x100);
    let mut decode = InstDecode::new(&rv64ima());
    cpu.execute_as_ref(&mut bus, &mut decode, 2);
    assert_eq!(cpu.gpr.read(1), 5);
    assert_eq!(cpu.csr_regs.file.get(SLOT_MCAUSE), 11);
    assert_eq!(cpu.npc, BASE + 0x100);
    assert_eq!(cpu.csr_regs.file.get(SLOT_INSTRET), 1);
    assert_eq!(cpu.csr_regs.file.get(SLOT_CYCLE), 2);
    // a halted hart ends a reference run at once
    cpu.cpu_state = CpuState::Haltd;
    cpu.execute_as_ref(&mut bus, &mut decode, 2);
    assert_eq!(cpu.csr_regs.file.get(SLOT_CYCLE), 2);
}

#[test]
fn icache_keeps_words() {
    let mut bus = new_bus();
    load(&mut bus, BASE, &[0x1111_1111, 0x2222_2222]);
    let mut ic = CpuIcache::new(1);
    assert_eq!(ic.read(&mut bus, BASE, 4), Ok(0x1111_1111));
    assert_eq!((ic.hit, ic.miss), (0, 1));
    // the word is kept: a change of memory is not seen
    load(&mut bus, BASE, &[0x3333_3333]);
    assert_eq!(ic.read(&mut bus, BASE, 4), Ok(0x1111_1111));
    assert_eq!((ic.hit, ic.miss), (1, 1));
    // a cache of one word makes room for the next
    assert_eq!(ic.read(&mut bus, BASE + 4, 4), Ok(0x2222_2222));
    assert_eq!(ic.inst_hash.len(), 1);
    assert_eq!(ic.read(&mut bus, BASE, 4), Ok(0x3333_3333));
    assert_eq!(ic.miss, 3);
    ic.clear();
    assert_eq!(ic.inst_hash.len(), 0);
    assert_eq!(ic.write(BASE, 0), Err(riscv64_emu::rv64core::inst_base::RVerr::NotFindDevice));
    // no cache: every read goes to the bus
    let mut none = CpuIcache::new(0);
    assert_eq!(none.read(&mut bus, BASE, 4), Ok(0x3333_3333));
    assert_eq!((none.hit, none.miss, none.inst_hash.len()), (0, 0, 0));
}

#[test]
fn fence_i_drops_cached_instructions() {
    let mut bus = new_bus();
    // addi x1, x0, 1; fence.i; jal x0, -8
    load(&mut bus, BASE, &[0x00100093, 0x0000100f, 0xff9ff06f]);
    let mut cpu = CpuCore::new(0, BASE);
    cpu.icache = CpuIcache::new(16);
    let mut decode = InstDecode::new(&rv64ima());
    assert!(cpu.step(&mut bus, &mut decode));
    assert_eq!(cpu.gpr.read(1), 1);
    // addi x1, x0, 2 written over the first instruction
    load(&mut bus, BASE, &[0x00200093]);
    cpu.npc = BASE;
    assert!(cpu.step(&mut bus, &mut decode));
    assert_eq!(cpu.gpr.read(1), 1);
    // fence.i, then the jump back: the new instruction is fetched
    for _ in 0..3 {
        assert!(cpu.step(&mut bus, &mut decode));
    }
    assert_eq!(cpu.gpr.read(1), 2);
    assert_eq!(cpu.icache.hit, 1);
}

#[test]
fn ebreak_raises_breakpoint() {
    let mut bus = new_bus();
    // ebreak
    load(&mut bus, BASE, &[0x00100073]);
    let mut cpu = CpuCore::new(0, BASE);
    cpu.csr_regs.file.set(SLOT_MTVEC, BASE + 0x100);
    let mut decode = InstDecode::new(&rv64ima());
    assert!(cpu.step(&mut bus, &mut decode));
    assert_eq!(cpu.csr_regs.file.get(SLOT_MCAUSE), 3);
    assert_eq!(cpu.csr_regs.file.get(SLOT_MEPC), BASE);
    assert_eq!(cpu.npc, BASE + 0x100);
}

/// A hart in S-mode with Sv39 translation: virtual page 0 maps to the
/// code at `BASE`, virtual page 1 to the data page at `BASE + 0x5000`.
fn paged_machine() -> (CpuCore, Bus<DeviceDram>) {
    let mut bus = Bus::new();
    bus.add_device(DeviceType { start: BASE, len: 0x8000, instance: DeviceDram::new(0x8000), name: "DRAM" });
    let root = BASE + 0x1000;
    bus.write(root, (((BASE + 0x2000) >> 12) << 10) | 1, 8).unwrap();
    bus.write(BASE + 0x2000, (((BASE + 0x3000) >> 12) << 10) | 1, 8).unwrap();
    // code page: R, X, A, V
    bus.write(BASE + 0x3000, ((BASE >> 12) << 10) | 0x4b, 8).unwrap();
    // data page: R, W, A, D, V
    bus.write(BASE + 0x3008, (((BASE + 0x5000) >> 12) << 10) | 0xc7, 8).unwrap();
    let mut cpu = CpuCore::new(0, 0);
    cpu.csr_regs.file.set(SLOT_SATP, (8u64 << 60) | (root >> 12));
    cpu.csr_regs.file.set(SLOT_MTVEC, BASE + 0x100);
    cpu.cur_priv = PrivilegeLevels::Supervisor;
    (cpu, bus)
}

#[test]
fn hart_translates_fetch_load_and_store() {
    let (mut cpu, mut bus) = paged_machine();
    load(&mut bus, BASE, &[
        0x000010b7, // lui x1, 1
        0x0080b103, // ld x2, 8(x1)
        0x0020b823, // sd x2, 16(x1)
        0x000101b7, // lui x3, 0x10
        0x0001b203, // ld x4, 0(x3): unmapped
    ]);
    bus.write(BASE + 0x5008, 0x1122_3344_5566_7788, 8).unwrap();
    let mut decode = InstDecode::new(&rv64ima());
    for _ in 0..4 {
        assert!(cpu.step(&mut bus, &mut decode));
    }
    assert_eq!(cpu.gpr.read(1), 0x1000);
    assert_eq!(cpu.gpr.read(2), 0x1122_3344_5566_7788);
    assert_eq!(bus.read(BASE + 0x5010, 8), Ok(0x1122_3344_5566_7788));
    assert_eq!(cpu.pc, 0xc);
    // the load from an unmapped page takes a load page fault into M-mode
    assert!(cpu.step(&mut bus, &mut decode));
    assert_eq!(cpu.csr_regs.file.get(SLOT_MCAUSE), 13);
    assert_eq!(cpu.csr_regs.file.get(SLOT_MTVAL), 0x10000);
    assert_eq!(cpu.csr_regs.file.get(SLOT_MEPC), 0x10);
    assert_eq!(cpu.cur_priv, PrivilegeLevels::Machine);
}

#[test]
fn sfence_vma_drops_cached_translations() {
    let (mut cpu, mut bus) = paged_machine();
    let mut config = rv64ima();
    config.set_tlb_size(8);
    cpu.mmu = riscv64_emu::rv64core::mmu::cpu_mmu::Mmu::new(PrivilegeLevels::Supervisor,
        riscv64_emu::rv64core::csr_regs_define::XstatusIn(0), riscv64_emu::rv64core::csr_regs_define::SatpIn(0), &config);
    load(&mut bus, BASE, &[
        0x000010b7, // lui x1, 1
        0x0080b103, // ld x2, 8(x1)
        0x12000073, // sfence.vma x0, x0
        0x0080b183, // ld x3, 8(x1)
    ]);
    bus.write(BASE + 0x5008, 7, 8).unwrap();
    let mut decode = InstDecode::new(&rv64ima());
    assert!(cpu.step(&mut bus, &mut decode));
    assert!(cpu.step(&mut bus, &mut decode));
    assert_eq!(cpu.gpr.read(2), 7);
    assert!(cpu.mmu.fast_path(0x1000).is_some());
    // unmap the data page: the cached translation goes only with the fence
    bus.write(BASE + 0x3008, 0, 8).unwrap();
    assert!(cpu.step(&mut bus, &mut decode));
    assert!(cpu.mmu.fast_path(0x1000).is_none());
    assert!(cpu.step(&mut bus, &mut decode));
    assert_eq!(cpu.csr_regs.file.get(SLOT_MCAUSE), 13);
}
