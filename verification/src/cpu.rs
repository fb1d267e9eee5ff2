//! The processor.

pub mod cpu;
pub mod laws;
pub mod listing;
pub mod machine;
pub mod opcode;
pub mod status;
pub mod word;
