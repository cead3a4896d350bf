//! Operands: the fields of an instruction word, the two operand tables, and
//! what a decoded operand is.

use crate::vcpu::machine::{word, Machine};
use crate::vcpu::register::Register;
use vstd::prelude::*;

verus! {

/// A decoded operand: where it lives, and the value it had when it was
/// decoded. An instruction works on that captured value, so that the side
/// effects of decoding happen once.
#[derive(Clone, Copy, Debug, PartialEq, Eq, Structural)]
pub enum Operand {
    /// A register.
    Register { register: Register, value: u16 },
    /// A memory cell.
    Memory { address: u16, value: u16 },
    /// A literal; writes to it are dropped.
    Literal { value: u16 },
}

impl Operand {
    /// The value captured when the operand was decoded.
    pub open spec fn value(self) -> u16 {
        match self {
            Operand::Register { register, value } => value,
            Operand::Memory { address, value } => value,
            Operand::Literal { value } => value,
        }
    }

    /// The register that the operand names.
    pub open spec fn of_register(m: Machine, register: Register) -> Operand {
        Operand::Register { register, value: m.reg(register) }
    }

    /// The memory cell that the operand names.
    pub open spec fn of_memory(m: Machine, address: u16) -> Operand {
        Operand::Memory { address, value: m.mem(address) }
    }

    /// The machine after `value` has been written to the operand.
    pub open spec fn store(self, m: Machine, value: u16) -> Machine {
        match self {
            Operand::Register { register, value: captured } => m.with_reg(register, value),
            Operand::Memory { address, value: captured } => m.with_mem(address, value),
            Operand::Literal { value: captured } => m,
        }
    }

    /// The value captured when the operand was decoded.
    pub fn captured(&self) -> (v: u16)
        ensures
            v == self.value(),
    {
        match self {
            Operand::Register { register, value } => *value,
            Operand::Memory { address, value } => *value,
            Operand::Literal { value } => *value,
        }
    }
}

/// The result of a decoding step together with the cycles it costs.
#[derive(Debug)]
pub struct Decoded<T> {
    /// What was decoded.
    pub result: T,
    /// The cycles that it costs.
    pub time: u32,
}

/// The opcode of an instruction word: its low five bits.
pub open spec fn opcode_field(w: u16) -> u16 {
    w % 32
}

/// The b-operand code of an instruction word: the five bits above the opcode.
pub open spec fn b_field(w: u16) -> u16 {
    (w / 32) % 32
}

/// The a-operand code of an instruction word: its high six bits.
pub open spec fn a_field(w: u16) -> u16 {
    w / 1024
}

/// Whether an operand code names NEXT, the word behind the instruction.
pub open spec fn uses_next(code: u16) -> bool {
    0x10 <= code <= 0x17 || code == 0x1A || code == 0x1E || code == 0x1F
}

/// The rows that the two operand tables share: every code below `0x20` but
/// `0x18`.
#[verifier::opaque]
pub open spec fn operand_shared(m: Machine, code: u16) -> (Decoded<Operand>, Machine) {
    if code < 0x08 {
        (Decoded { result: Operand::of_register(m, Register::general(code as int)), time: 0 }, m)
    } else if code < 0x10 {
        (
            Decoded {
                result: Operand::of_memory(m, m.reg(Register::general(code as int))),
                time: 0,
            },
            m,
        )
    } else if code < 0x18 {
        let (next, after) = m.next_word();
        (
            Decoded {
                result: Operand::of_memory(m, word(m.reg(Register::general(code as int)) + next)),
                time: 1,
            },
            after,
        )
    } else if code == 0x19 {
        (Decoded { result: Operand::of_memory(m, m.sp()), time: 0 }, m)
    } else if code == 0x1A {
        let (next, after) = m.next_word();
        (Decoded { result: Operand::of_memory(m, word(m.sp() + next)), time: 1 }, after)
    } else if code == 0x1B {
        (Decoded { result: Operand::of_register(m, Register::SP), time: 0 }, m)
    } else if code == 0x1C {
        (Decoded { result: Operand::of_register(m, Register::PC), time: 0 }, m)
    } else if code == 0x1D {
        (Decoded { result: Operand::of_register(m, Register::EX), time: 0 }, m)
    } else if code == 0x1E {
        let (next, after) = m.next_word();
        (Decoded { result: Operand::of_memory(m, next), time: 1 }, after)
    } else {
        let (next, after) = m.next_word();
        (Decoded { result: Operand::Literal { value: next }, time: 1 }, after)
    }
}

/// The a-operand table, of six-bit codes. Code `0x18` is POP: the cell at the
/// stack pointer, which then moves up by one. Codes from `0x20` are the
/// literals -1 to 30.
pub open spec fn operand_a(m: Machine, code: u16) -> (Decoded<Operand>, Machine) {
    if code == 0x18 {
        (
            Decoded { result: Operand::of_memory(m, m.sp()), time: 0 },
            m.with_reg(Register::SP, word(m.sp() + 1)),
        )
    } else if code >= 0x20 {
        (Decoded { result: Operand::Literal { value: word(code - 0x21) }, time: 0 }, m)
    } else {
        operand_shared(m, code)
    }
}

/// The b-operand table, of five-bit codes. Code `0x18` is PUSH: the stack
/// pointer moves down by one, and the operand is the cell where it then
/// points.
pub open spec fn operand_b(m: Machine, code: u16) -> (Decoded<Operand>, Machine) {
    if code == 0x18 {
        let sp = word(m.sp() - 1);
        (Decoded { result: Operand::of_memory(m, sp), time: 0 }, m.with_reg(Register::SP, sp))
    } else {
        operand_shared(m, code)
    }
}

/// The opcode of an instruction word.
pub fn opcode_of(w: u16) -> (code: u16)
    ensures
        code == opcode_field(w),
        code < 32,
{
    assert(w & 0x001F == w % 32) by (bit_vector);
    w & 0x001F
}

/// The b-operand code of an instruction word.
pub fn b_code_of(w: u16) -> (code: u16)
    ensures
        code == b_field(w),
        code < 32,
{
    assert((w & 0x03E0) >> 5 == (w / 32) % 32) by (bit_vector);
    (w & 0x03E0) >> 5
}

/// The a-operand code of an instruction word.
pub fn a_code_of(w: u16) -> (code: u16)
    ensures
        code == a_field(w),
        code < 64,
{
    assert((w & 0xFC00) >> 10 == w / 1024) by (bit_vector);
    (w & 0xFC00) >> 10
}

} // verus!
