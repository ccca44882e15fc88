//! The hart's caches.
pub mod cpu_dcache;
pub mod cpu_icache;
