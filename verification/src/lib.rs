//! A small sixteen-bit virtual machine: byte-addressed devices, a register
//! file kept in one of them, and a processor that runs one instruction per
//! step.

pub mod device;
pub mod instructions;
pub mod machine;
pub mod processor;
pub mod register;
pub mod word;

pub use crate::processor::Cpu;
pub use crate::register::Register;
