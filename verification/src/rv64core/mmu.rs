//! Address translation: page table entry and address layouts, and TLB entries.
pub mod sv39;
pub mod sv48;
pub mod sv57;
pub mod cpu_mmu;
pub mod tlb;
pub mod vm_info;
