//! The identities of the twelve registers.

use vstd::prelude::*;

verus! {

/// A register of the machine. `A` to `J` are general; `PC`, `SP`, `EX` and
/// `IA` are special.
#[derive(Clone, Copy, Debug, PartialEq, Eq, Structural)]
pub enum Register {
    A,
    B,
    C,
    X,
    Y,
    Z,
    I,
    J,
    /// Program counter.
    PC,
    /// Stack pointer.
    SP,
    /// Excess: the overflow of arithmetic and shifts.
    EX,
    /// Interrupt address; zero disables delivery.
    IA,
}

impl Register {
    /// The fixed index of the register in the register file, `0x0` to `0xB`.
    pub open spec fn index(self) -> int {
        match self {
            Register::A => 0,
            Register::B => 1,
            Register::C => 2,
            Register::X => 3,
            Register::Y => 4,
            Register::Z => 5,
            Register::I => 6,
            Register::J => 7,
            Register::PC => 8,
            Register::SP => 9,
            Register::EX => 10,
            Register::IA => 11,
        }
    }

    /// Whether the register is one of the eight general ones.
    pub open spec fn is_general(self) -> bool {
        self.index() < 8
    }

    /// The general register that the low three bits of `code` select.
    pub open spec fn general(code: int) -> Register {
        let n = code % 8;
        if n == 0 {
            Register::A
        } else if n == 1 {
            Register::B
        } else if n == 2 {
            Register::C
        } else if n == 3 {
            Register::X
        } else if n == 4 {
            Register::Y
        } else if n == 5 {
            Register::Z
        } else if n == 6 {
            Register::I
        } else {
            Register::J
        }
    }

    /// The index of the register, for the register file.
    pub fn slot(self) -> (i: usize)
        ensures
            i == self.index(),
            i < 12,
    {
        match self {
            Register::A => 0,
            Register::B => 1,
            Register::C => 2,
            Register::X => 3,
            Register::Y => 4,
            Register::Z => 5,
            Register::I => 6,
            Register::J => 7,
            Register::PC => 8,
            Register::SP => 9,
            Register::EX => 10,
            Register::IA => 11,
        }
    }

    /// The general register selected by an operand code, whose low three bits
    /// count.
    pub fn from_code(code: u16) -> (r: Register)
        ensures
            r == Register::general(code as int),
            r.is_general(),
            r.index() == code % 8,
    {
        let n: u16 = code % 8;
        if n == 0 {
            Register::A
        } else if n == 1 {
            Register::B
        } else if n == 2 {
            Register::C
        } else if n == 3 {
            Register::X
        } else if n == 4 {
            Register::Y
        } else if n == 5 {
            Register::Z
        } else if n == 6 {
            Register::I
        } else {
            Register::J
        }
    }
}

} // verus!
