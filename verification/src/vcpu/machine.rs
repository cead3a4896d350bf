//! The mathematical model of the machine: what a processor is, as a value.

use crate::vcpu::register::Register;
use vstd::prelude::*;

verus! {

/// Most interrupts that may wait in the queue.
pub const QUEUE_LIMIT: usize = 256;

/// Most devices that the bus holds, so that their number fits in a word.
pub const DEVICE_LIMIT: usize = 65535;

/// What the processor is doing between two cycles.
#[derive(Clone, Copy, Debug, PartialEq, Eq, Structural)]
pub enum ExecState {
    /// Ready to fetch the next instruction.
    Active,
    /// The effects of an instruction are applied; this many cycles of its
    /// latency remain.
    Busy(u32),
    /// This many cycles of a requested sleep remain.
    Sleeping(u16),
    /// Idle until an interrupt is pending delivery.
    Hibernating,
    /// Stopped for good.
    Halted,
}

/// The identity of an attached hardware device.
#[derive(Clone, Copy, Debug, PartialEq, Eq, Structural)]
pub struct Device {
    /// Hardware type.
    pub hardware_id: u32,
    /// Hardware version.
    pub version: u16,
    /// Manufacturer.
    pub manufacturer_id: u32,
}

/// The two's-complement truncation of an integer to a word.
pub open spec fn word(x: int) -> u16 {
    (x % 0x10000) as u16
}

/// The signed reading of a word.
pub open spec fn signed(x: u16) -> int {
    if x < 0x8000 {
        x as int
    } else {
        x - 0x10000
    }
}

/// The low half of a 32-bit identifier.
pub open spec fn low_half(x: u32) -> u16 {
    (x % 0x10000) as u16
}

/// The high half of a 32-bit identifier.
pub open spec fn high_half(x: u32) -> u16 {
    (x / 0x10000) as u16
}

/// The whole state of a processor.
#[verifier::ext_equal]
pub struct Machine {
    /// The register file, indexed by [`Register::index`].
    pub registers: Seq<u16>,
    /// The memory, one word per address.
    pub memory: Seq<u16>,
    /// The execution state.
    pub state: ExecState,
    /// Whether triggered interrupts are held back in the queue.
    pub queueing: bool,
    /// The interrupts that wait, oldest first.
    pub queue: Seq<u16>,
    /// The attached devices; a device's position is its hardware number.
    pub devices: Seq<Device>,
}

impl Machine {
    /// The shape that every processor has.
    pub open spec fn wf(self) -> bool {
        &&& self.registers.len() == 12
        &&& self.memory.len() == 65536
        &&& self.queue.len() <= 256
        &&& self.devices.len() <= 65535
    }

    /// A processor as it is created: everything zero, nothing queued, nothing
    /// attached, ready to fetch.
    pub open spec fn initial() -> Machine {
        Machine {
            registers: Seq::new(12, |i: int| 0u16),
            memory: Seq::new(65536, |i: int| 0u16),
            state: ExecState::Active,
            queueing: false,
            queue: Seq::empty(),
            devices: Seq::empty(),
        }
    }

    /// The value of a register.
    pub open spec fn reg(self, r: Register) -> u16 {
        self.registers[r.index()]
    }

    /// The machine after a register has been set.
    pub open spec fn with_reg(self, r: Register, value: u16) -> Machine {
        Machine { registers: self.registers.update(r.index(), value), ..self }
    }

    /// The word at an address.
    pub open spec fn mem(self, address: u16) -> u16 {
        self.memory[address as int]
    }

    /// The machine after a word has been stored.
    pub open spec fn with_mem(self, address: u16, value: u16) -> Machine {
        Machine { memory: self.memory.update(address as int, value), ..self }
    }

    /// The machine in another execution state.
    pub open spec fn with_state(self, state: ExecState) -> Machine {
        Machine { state, ..self }
    }

    /// The program counter.
    pub open spec fn pc(self) -> u16 {
        self.reg(Register::PC)
    }

    /// The stack pointer.
    pub open spec fn sp(self) -> u16 {
        self.reg(Register::SP)
    }

    /// NEXT: the word at the program counter, and the machine with the
    /// program counter moved past it.
    pub open spec fn next_word(self) -> (u16, Machine) {
        (self.mem(self.pc()), self.with_reg(Register::PC, word(self.pc() + 1)))
    }

    /// The machine after `value` has been pushed: the stack pointer moves
    /// down by one, then the word is stored where it points.
    pub open spec fn push(self, value: u16) -> Machine {
        let sp = word(self.sp() - 1);
        self.with_reg(Register::SP, sp).with_mem(sp, value)
    }

    /// The word on top of the stack, and the machine with the stack pointer
    /// moved up by one.
    pub open spec fn pop(self) -> (u16, Machine) {
        (self.mem(self.sp()), self.with_reg(Register::SP, word(self.sp() + 1)))
    }
}

} // verus!
