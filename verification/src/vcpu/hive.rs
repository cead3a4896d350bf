//! The processor as a host embeds it.

use crate::vcpu::cpu::VCPU16;
use crate::vcpu::machine::Machine;
use crate::vcpu::memory::{image_of_words, words_of_image, ImageError};
use crate::vcpu::register::Register;
use crate::vcpu::semantics;
use crate::vcpu::semantics::Event;
use vstd::prelude::*;

verus! {

/// A processor behind the interface of observation that a host needs: its
/// memory image, its memory cells, its registers, and the cycle.
pub struct HiveCPU {
    core: VCPU16,
}

impl View for HiveCPU {
    type V = Machine;

    closed spec fn view(&self) -> Machine {
        self.core@
    }
}

impl HiveCPU {
    /// A processor as it leaves the factory.
    pub fn new() -> (cpu: HiveCPU)
        ensures
            cpu@ == Machine::initial(),
    {
        HiveCPU { core: VCPU16::new() }
    }

    /// Replaces the memory by the contents of an image of 131,072 bytes. A
    /// shorter image is rejected and changes nothing.
    pub fn load_memory(&mut self, image: &[u8]) -> (result: Result<(), ImageError>)
        ensures
            image@.len() >= 131072 ==> result == Ok::<(), ImageError>(()) && final(self)@
                == (Machine { memory: words_of_image(image@), ..old(self)@ }),
            image@.len() < 131072 ==> result == Err::<(), ImageError>(
                ImageError::Truncated { found: image@.len() as usize },
            ) && final(self)@ == old(self)@,
    {
        self.core.load_memory(image)
    }

    /// The image of the memory.
    pub fn save_memory(&self) -> (image: Vec<u8>)
        ensures
            image@ == image_of_words(self@.memory),
    {
        self.core.save_memory()
    }

    /// Stores `value` at `address`; nothing else changes.
    pub fn set_memory(&mut self, address: u16, value: u16)
        ensures
            final(self)@ == old(self)@.with_mem(address, value),
    {
        self.core.set_memory(address, value);
    }

    /// The word at `address`.
    pub fn get_memory(&self, address: u16) -> (value: u16)
        ensures
            value == self@.mem(address),
    {
        self.core.get_memory(address)
    }

    /// The stack pointer.
    pub fn get_sp(&self) -> (value: u16)
        ensures
            value == self@.reg(Register::SP),
    {
        self.core.get_sp()
    }

    /// The program counter.
    pub fn get_pc(&self) -> (value: u16)
        ensures
            value == self@.reg(Register::PC),
    {
        self.core.get_pc()
    }

    /// The excess register.
    pub fn get_ex(&self) -> (value: u16)
        ensures
            value == self@.reg(Register::EX),
    {
        self.core.get_ex()
    }

    /// The interrupt address.
    pub fn get_ia(&self) -> (value: u16)
        ensures
            value == self@.reg(Register::IA),
    {
        self.core.get_ia()
    }

    /// Register `A`.
    pub fn get_a(&self) -> (value: u16)
        ensures
            value == self@.reg(Register::A),
    {
        self.core.get_a()
    }

    /// Register `B`.
    pub fn get_b(&self) -> (value: u16)
        ensures
            value == self@.reg(Register::B),
    {
        self.core.get_b()
    }

    /// Register `C`.
    pub fn get_c(&self) -> (value: u16)
        ensures
            value == self@.reg(Register::C),
    {
        self.core.get_c()
    }

    /// Register `X`.
    pub fn get_x(&self) -> (value: u16)
        ensures
            value == self@.reg(Register::X),
    {
        self.core.get_x()
    }

    /// Register `Y`.
    pub fn get_y(&self) -> (value: u16)
        ensures
            value == self@.reg(Register::Y),
    {
        self.core.get_y()
    }

    /// Register `Z`.
    pub fn get_z(&self) -> (value: u16)
        ensures
            value == self@.reg(Register::Z),
    {
        self.core.get_z()
    }

    /// Register `I`.
    pub fn get_i(&self) -> (value: u16)
        ensures
            value == self@.reg(Register::I),
    {
        self.core.get_i()
    }

    /// Register `J`.
    pub fn get_j(&self) -> (value: u16)
        ensures
            value == self@.reg(Register::J),
    {
        self.core.get_j()
    }

    /// One cycle of the processor; see [`VCPU16::step`].
    pub fn step(&mut self) -> (event: Event)
        ensures
            (final(self)@, event) == semantics::tick(old(self)@),
    {
        self.core.step()
    }
}

} // verus!
