//! The virtual processor: its memory, its registers and its interpreter.

pub mod alu;
pub mod cpu;
pub mod hardware;
pub mod hive;
pub mod instruction;
pub mod interrupts;
pub mod laws;
pub mod machine;
pub mod memory;
pub mod operand;
pub mod register;
pub mod semantics;
