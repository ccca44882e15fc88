# riscv64_emu

A RISC-V 64-bit emulator library (RV64 I, M, A, C, Zicsr and the
privileged architecture, with a JTAG debug module), written in Verus: each
function states what it does in `requires` / `ensures`, and Verus proves it.

Layout:

- `src/rv64core/`: the hart. `cpu_core.rs` holds its state, trap and
  interrupt entry, debug mode, the fetch and the run loop; `inst/` the
  instruction formats, encodings, decode tables and what each instruction
  does; `inst_decode.rs` the decoder and its cache; `csr_regs*.rs` the CSRs;
  `gpr.rs` the general registers; `bus.rs` the bus that routes accesses to
  devices; `mmu/` address translation (the Sv39/Sv48/Sv57 page table walk
  through the bus) and the TLB, which every fetch, load and store of the
  hart goes through; `cache/` the instruction cache and the data cache line.
- `src/device/`: the devices (memory, UARTs, CLINT, PLIC, RTC, VGA,
  keyboard, mouse), one type behind the `DeviceBase` trait; `src/tools.rs`
  the crossbeam queues through which they talk to the host.
- `src/dbg/`: the RISC-V debug module and the hart model it relies on
  (`dm_interface.rs`), the machine as that hart (`dm_hart.rs`), the JTAG
  TAP and the remote-bitbang command processing.
- `src/rvsim.rs`: a machine: harts and a bus, ELF loading, the `tohost`
  protocol and the test signature.
- `src/difftest/`: what a co-simulation harness reads and sets in a hart.
- `app/main.rs`: the command-line emulator: arguments, files, the console,
  the TCP remote-bitbang server and the main loop.
- `tests/`: tests of the library.
