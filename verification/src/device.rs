//! Memory-mapped devices of the emulated platform.
pub mod device_trait;
pub mod device_16550a;
pub mod device_am_uart;
pub mod device_vgactl;
pub mod device_mouse;
pub mod device_sifive_clint;
pub mod device_sifive_plic;
pub mod device_sifive_uart;
pub mod device_memory;
pub mod device_dram;
pub mod device_kb;
pub mod device_am_vga;
pub mod device_am_rtc;
pub mod device_enum;
