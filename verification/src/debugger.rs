//! What the inspector shows of a machine, worked out from its state.

pub mod instructions;
pub mod meta;
