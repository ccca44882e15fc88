//! The RV64 instruction set: encodings, the decode tables and what each
//! instruction does to a hart.
pub mod inst_format;
pub mod inst_op;
pub mod inst_alu;
pub mod inst_exec;
pub mod inst_rvc;
pub mod inst_laws;
