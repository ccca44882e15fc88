//! What a hart offers a co-simulation harness that compares it, step by
//! step, with a reference model.
pub mod difftest_trait;
