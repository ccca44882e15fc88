[package]
name = "riscv64_emu"
version = "0.1.0"
edition = "2021"
publish = false

[dependencies]
hashbrown = "=0.17.1"
hashlink = "*"
chrono = "*"
clap = { version = "=4.6.7", features = ["derive"] }
crossbeam-queue = "=0.3.14"
crossbeam-channel = "=0.5.17"
elf = "=0.8.0"
bitfield-struct = "=0.13.0"
