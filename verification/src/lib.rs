use vstd::prelude::*;

pub mod bits;
pub mod clint;
pub mod config;
pub mod dbg;
pub mod inst_rv64a;
pub mod device;
pub mod difftest;
pub mod le_bytes;
pub mod rv64core;
pub mod tools;
pub mod rvsim;

verus! {
} // verus!
