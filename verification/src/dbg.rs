//! The RISC-V external debug support: the debug module (DM) that a debugger
//! reaches through the debug module interface, and the JTAG debug transport
//! module (DTM) that carries those accesses.
pub mod debug_module_register;
pub mod dm_interface;
pub mod dm_hart;
pub mod debug_module;
pub mod jtag_state;
pub mod jtag_driver;
pub mod remote_bitbang;
