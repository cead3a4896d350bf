//! A cycle-paced virtual machine for a 16-bit processor.
//!
//! The machine has a flat memory of 65,536 words, twelve registers, a stack
//! that grows downward in memory, an interrupt queue and a bus of hardware
//! devices. Every public function carries a contract over the mathematical
//! model of the machine in [`vcpu::machine`] and [`vcpu::semantics`].

pub mod model;
pub mod vcpu;
pub mod version;
