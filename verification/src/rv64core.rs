//! The RV64 hart: its registers, traps, bus and address translation.
pub mod inst_base;
pub mod traptype;
pub mod csr_regs_define;
pub mod bus;
pub mod gpr;
pub mod cache;
pub mod csr_regs;
pub mod cpu_core;
pub mod mmu;
pub mod inst;
pub mod inst_decode;
