//! Instructions: the operations, their codes and base cycles, and how an
//! instruction word is decoded.

use crate::vcpu::machine::Machine;
use crate::vcpu::operand::{
    a_code_of, a_field, b_code_of, b_field, opcode_field, opcode_of, operand_a, operand_b,
    uses_next, Decoded, Operand,
};
use vstd::prelude::*;

verus! {

/// The operations that take one operand.
#[derive(Clone, Copy, Debug, PartialEq, Eq, Structural)]
pub enum UnaryOp {
    /// Jump to a subroutine.
    JSR,
    /// Sleep for a number of cycles.
    SLP,
    /// Trigger a software interrupt.
    INT,
    /// Read the interrupt address.
    IAG,
    /// Set the interrupt address.
    IAS,
    /// Return from an interrupt handler.
    RFI,
    /// Switch interrupt queueing on or off.
    IAQ,
    /// Count the attached devices.
    HWN,
    /// Query a device's identity.
    HWQ,
    /// Send an interrupt to a device.
    HWI,
}

/// The operations that take a destination and a source.
#[derive(Clone, Copy, Debug, PartialEq, Eq, Structural)]
pub enum BinaryOp {
    SET,
    ADD,
    SUB,
    MUL,
    MLI,
    DIV,
    DVI,
    MOD,
    MDI,
    AND,
    BOR,
    XOR,
    SHR,
    ASR,
    SHL,
    IFB,
    IFC,
    IFE,
    IFN,
    IFG,
    IFA,
    IFL,
    IFU,
    ADX,
    SBX,
    STI,
    STD,
}

/// A decoded instruction. Operands carry the values captured at decoding.
#[derive(Clone, Copy, Debug, PartialEq, Eq, Structural)]
#[allow(inconsistent_fields)]
pub enum Instruction {
    /// No operation.
    NOP,
    /// Hibernate until interrupted.
    HIB,
    /// A reserved encoding; it does nothing but is reported.
    ERR,
    /// An operation on one operand.
    Unary { op: UnaryOp, operand: Operand },
    /// An operation that reads `src` and `dst` and writes `dst`.
    Binary { op: BinaryOp, dst: Operand, src: Operand },
}

impl UnaryOp {
    /// The operation that a b-field selects in a word whose opcode is zero.
    pub open spec fn of_code(code: u16) -> Option<UnaryOp> {
        if code == 0x01 {
            Some(UnaryOp::JSR)
        } else if code == 0x02 {
            Some(UnaryOp::SLP)
        } else if code == 0x08 {
            Some(UnaryOp::INT)
        } else if code == 0x09 {
            Some(UnaryOp::IAG)
        } else if code == 0x0A {
            Some(UnaryOp::IAS)
        } else if code == 0x0B {
            Some(UnaryOp::RFI)
        } else if code == 0x0C {
            Some(UnaryOp::IAQ)
        } else if code == 0x10 {
            Some(UnaryOp::HWN)
        } else if code == 0x11 {
            Some(UnaryOp::HWQ)
        } else if code == 0x12 {
            Some(UnaryOp::HWI)
        } else {
            None
        }
    }

    /// The cycles of the operation before those of its operand.
    pub open spec fn base_cycles(self) -> u32 {
        match self {
            UnaryOp::JSR => 3,
            UnaryOp::SLP => 1,
            UnaryOp::INT => 4,
            UnaryOp::IAG => 1,
            UnaryOp::IAS => 1,
            UnaryOp::RFI => 3,
            UnaryOp::IAQ => 2,
            UnaryOp::HWN => 2,
            UnaryOp::HWQ => 4,
            UnaryOp::HWI => 4,
        }
    }

    /// Looks up the operation that a b-field selects.
    pub fn from_code(code: u16) -> (op: Option<UnaryOp>)
        ensures
            op == UnaryOp::of_code(code),
    {
        match code {
            0x01 => Some(UnaryOp::JSR),
            0x02 => Some(UnaryOp::SLP),
            0x08 => Some(UnaryOp::INT),
            0x09 => Some(UnaryOp::IAG),
            0x0A => Some(UnaryOp::IAS),
            0x0B => Some(UnaryOp::RFI),
            0x0C => Some(UnaryOp::IAQ),
            0x10 => Some(UnaryOp::HWN),
            0x11 => Some(UnaryOp::HWQ),
            0x12 => Some(UnaryOp::HWI),
            _ => None,
        }
    }

    /// The cycles of the operation before those of its operand.
    pub fn cycles(self) -> (n: u32)
        ensures
            n == self.base_cycles(),
            1 <= n <= 4,
    {
        match self {
            UnaryOp::JSR => 3,
            UnaryOp::SLP => 1,
            UnaryOp::INT => 4,
            UnaryOp::IAG => 1,
            UnaryOp::IAS => 1,
            UnaryOp::RFI => 3,
            UnaryOp::IAQ => 2,
            UnaryOp::HWN => 2,
            UnaryOp::HWQ => 4,
            UnaryOp::HWI => 4,
        }
    }
}

impl BinaryOp {
    /// The operation that a non-zero opcode selects.
    pub open spec fn of_code(code: u16) -> Option<BinaryOp> {
        if code == 0x01 {
            Some(BinaryOp::SET)
        } else if code == 0x02 {
            Some(BinaryOp::ADD)
        } else if code == 0x03 {
            Some(BinaryOp::SUB)
        } else if code == 0x04 {
            Some(BinaryOp::MUL)
        } else if code == 0x05 {
            Some(BinaryOp::MLI)
        } else if code == 0x06 {
            Some(BinaryOp::DIV)
        } else if code == 0x07 {
            Some(BinaryOp::DVI)
        } else if code == 0x08 {
            Some(BinaryOp::MOD)
        } else if code == 0x09 {
            Some(BinaryOp::MDI)
        } else if code == 0x0A {
            Some(BinaryOp::AND)
        } else if code == 0x0B {
            Some(BinaryOp::BOR)
        } else if code == 0x0C {
            Some(BinaryOp::XOR)
        } else if code == 0x0D {
            Some(BinaryOp::SHR)
        } else if code == 0x0E {
            Some(BinaryOp::ASR)
        } else if code == 0x0F {
            Some(BinaryOp::SHL)
        } else if code == 0x10 {
            Some(BinaryOp::IFB)
        } else if code == 0x11 {
            Some(BinaryOp::IFC)
        } else if code == 0x12 {
            Some(BinaryOp::IFE)
        } else if code == 0x13 {
            Some(BinaryOp::IFN)
        } else if code == 0x14 {
            Some(BinaryOp::IFG)
        } else if code == 0x15 {
            Some(BinaryOp::IFA)
        } else if code == 0x16 {
            Some(BinaryOp::IFL)
        } else if code == 0x17 {
            Some(BinaryOp::IFU)
        } else if code == 0x1A {
            Some(BinaryOp::ADX)
        } else if code == 0x1B {
            Some(BinaryOp::SBX)
        } else if code == 0x1E {
            Some(BinaryOp::STI)
        } else if code == 0x1F {
            Some(BinaryOp::STD)
        } else {
            None
        }
    }

    /// Whether the operation is one of the eight tests, `IFB` to `IFU`.
    pub open spec fn is_conditional(self) -> bool {
        match self {
            BinaryOp::IFB
            | BinaryOp::IFC
            | BinaryOp::IFE
            | BinaryOp::IFN
            | BinaryOp::IFG
            | BinaryOp::IFA
            | BinaryOp::IFL
            | BinaryOp::IFU => true,
            _ => false,
        }
    }

    /// The cycles of the operation before those of its operands.
    pub open spec fn base_cycles(self) -> u32 {
        match self {
            BinaryOp::SET | BinaryOp::AND | BinaryOp::BOR | BinaryOp::XOR => 1,
            BinaryOp::SHR | BinaryOp::ASR | BinaryOp::SHL => 1,
            BinaryOp::ADD | BinaryOp::SUB | BinaryOp::MUL | BinaryOp::MLI => 2,
            BinaryOp::STI | BinaryOp::STD => 2,
            BinaryOp::DIV | BinaryOp::DVI | BinaryOp::MOD | BinaryOp::MDI => 3,
            BinaryOp::ADX | BinaryOp::SBX => 3,
            _ => 2,
        }
    }

    /// Looks up the operation that an opcode selects.
    pub fn from_code(code: u16) -> (op: Option<BinaryOp>)
        ensures
            op == BinaryOp::of_code(code),
    {
        match code {
            0x01 => Some(BinaryOp::SET),
            0x02 => Some(BinaryOp::ADD),
            0x03 => Some(BinaryOp::SUB),
            0x04 => Some(BinaryOp::MUL),
            0x05 => Some(BinaryOp::MLI),
            0x06 => Some(BinaryOp::DIV),
            0x07 => Some(BinaryOp::DVI),
            0x08 => Some(BinaryOp::MOD),
            0x09 => Some(BinaryOp::MDI),
            0x0A => Some(BinaryOp::AND),
            0x0B => Some(BinaryOp::BOR),
            0x0C => Some(BinaryOp::XOR),
            0x0D => Some(BinaryOp::SHR),
            0x0E => Some(BinaryOp::ASR),
            0x0F => Some(BinaryOp::SHL),
            0x10 => Some(BinaryOp::IFB),
            0x11 => Some(BinaryOp::IFC),
            0x12 => Some(BinaryOp::IFE),
            0x13 => Some(BinaryOp::IFN),
            0x14 => Some(BinaryOp::IFG),
            0x15 => Some(BinaryOp::IFA),
            0x16 => Some(BinaryOp::IFL),
            0x17 => Some(BinaryOp::IFU),
            0x1A => Some(BinaryOp::ADX),
            0x1B => Some(BinaryOp::SBX),
            0x1E => Some(BinaryOp::STI),
            0x1F => Some(BinaryOp::STD),
            _ => None,
        }
    }

    /// Whether the operation is one of the eight tests.
    pub fn conditional(self) -> (yes: bool)
        ensures
            yes == self.is_conditional(),
    {
        match self {
            BinaryOp::IFB
            | BinaryOp::IFC
            | BinaryOp::IFE
            | BinaryOp::IFN
            | BinaryOp::IFG
            | BinaryOp::IFA
            | BinaryOp::IFL
            | BinaryOp::IFU => true,
            _ => false,
        }
    }

    /// The cycles of the operation before those of its operands.
    pub fn cycles(self) -> (n: u32)
        ensures
            n == self.base_cycles(),
            1 <= n <= 3,
    {
        match self {
            BinaryOp::SET | BinaryOp::AND | BinaryOp::BOR | BinaryOp::XOR => 1,
            BinaryOp::SHR | BinaryOp::ASR | BinaryOp::SHL => 1,
            BinaryOp::ADD | BinaryOp::SUB | BinaryOp::MUL | BinaryOp::MLI => 2,
            BinaryOp::STI | BinaryOp::STD => 2,
            BinaryOp::DIV | BinaryOp::DVI | BinaryOp::MOD | BinaryOp::MDI => 3,
            BinaryOp::ADX | BinaryOp::SBX => 3,
            _ => 2,
        }
    }
}

impl Instruction {
    /// Whether the instruction is one of the eight tests.
    pub open spec fn is_conditional(self) -> bool {
        self matches Instruction::Binary { op, .. } && op.is_conditional()
    }
}

/// Whether a word has no operand at all: opcode and b-field are zero.
pub open spec fn is_nullary(w: u16) -> bool {
    opcode_field(w) == 0 && b_field(w) == 0
}

/// Whether a word has one operand: the opcode is zero, the b-field is not.
pub open spec fn is_unary(w: u16) -> bool {
    opcode_field(w) == 0 && b_field(w) != 0
}

/// The instruction without operands that an a-field selects. It costs one
/// cycle.
pub open spec fn nullary(w: u16) -> Decoded<Instruction> {
    let code = a_field(w);
    Decoded {
        result: if code == 0x00 {
            Instruction::NOP
        } else if code == 0x01 {
            Instruction::HIB
        } else {
            Instruction::ERR
        },
        time: 1,
    }
}

/// The instruction that a b-field selects for a decoded operand. A reserved
/// code gives `ERR` at the cost of one cycle; either way the operand's
/// cycles are added.
pub open spec fn unary(w: u16, operand: Decoded<Operand>) -> Decoded<Instruction> {
    match UnaryOp::of_code(b_field(w)) {
        Some(op) => Decoded {
            result: Instruction::Unary { op, operand: operand.result },
            time: (op.base_cycles() + operand.time) as u32,
        },
        None => Decoded { result: Instruction::ERR, time: (1 + operand.time) as u32 },
    }
}

/// The instruction that an opcode selects for two decoded operands. A
/// reserved opcode gives `ERR` at the cost of one cycle; either way the
/// operands' cycles are added.
pub open spec fn binary(w: u16, dst: Decoded<Operand>, src: Decoded<Operand>) -> Decoded<
    Instruction,
> {
    match BinaryOp::of_code(opcode_field(w)) {
        Some(op) => Decoded {
            result: Instruction::Binary { op, dst: dst.result, src: src.result },
            time: (op.base_cycles() + dst.time + src.time) as u32,
        },
        None => Decoded { result: Instruction::ERR, time: (1 + dst.time + src.time) as u32 },
    }
}

/// Decoding a word with one operand: the a-operand is decoded, then the
/// b-field selects the operation.
pub open spec fn decode_unary(m: Machine, w: u16) -> (Decoded<Instruction>, Machine) {
    let (operand, after) = operand_a(m, a_field(w));
    (unary(w, operand), after)
}

/// Decoding a word with two operands: the destination, the b-operand, is
/// decoded first, then the source, the a-operand; then the opcode selects the
/// operation.
pub open spec fn decode_binary(m: Machine, w: u16) -> (Decoded<Instruction>, Machine) {
    let (dst, between) = operand_b(m, b_field(w));
    let (src, after) = operand_a(between, a_field(w));
    (binary(w, dst, src), after)
}

/// Decoding an instruction word whose own fetch has already moved the
/// program counter.
pub open spec fn decode_word(m: Machine, w: u16) -> (Decoded<Instruction>, Machine) {
    if is_nullary(w) {
        (nullary(w), m)
    } else if is_unary(w) {
        decode_unary(m, w)
    } else {
        decode_binary(m, w)
    }
}

/// Decoding the next instruction: the word at the program counter is
/// fetched, then decoded with all the NEXT words that it names.
pub open spec fn decode(m: Machine) -> (Decoded<Instruction>, Machine) {
    let (w, fetched) = m.next_word();
    decode_word(fetched, w)
}

/// The number of NEXT words that an operand code names.
pub open spec fn next_words(code: u16) -> int {
    if uses_next(code) {
        1
    } else {
        0
    }
}

/// The number of words that an instruction occupies: its own word and the
/// NEXT words of its operands.
#[verifier::opaque]
pub open spec fn length(w: u16) -> int {
    if is_nullary(w) {
        1
    } else if is_unary(w) {
        1 + next_words(a_field(w))
    } else {
        1 + next_words(b_field(w)) + next_words(a_field(w))
    }
}

/// Whether a word encodes one of the eight tests.
pub open spec fn is_conditional_word(w: u16) -> bool {
    0x10 <= opcode_field(w) <= 0x17
}

/// Whether an operand code names NEXT.
pub fn names_next(code: u16) -> (yes: bool)
    ensures
        yes == uses_next(code),
{
    (0x10 <= code && code <= 0x17) || code == 0x1A || code == 0x1E || code == 0x1F
}

/// The number of words that the instruction with this first word occupies.
pub fn instruction_length(w: u16) -> (n: u16)
    ensures
        n == length(w),
        1 <= n <= 3,
{
    reveal(length);
    let a: u16 = if names_next(a_code_of(w)) {
        1
    } else {
        0
    };
    let b: u16 = if names_next(b_code_of(w)) {
        1
    } else {
        0
    };
    if opcode_of(w) != 0 {
        1 + b + a
    } else if b_code_of(w) != 0 {
        1 + a
    } else {
        1
    }
}

/// Whether a word encodes one of the eight tests.
pub fn conditional_word(w: u16) -> (yes: bool)
    ensures
        yes == is_conditional_word(w),
{
    let code: u16 = opcode_of(w);
    0x10 <= code && code <= 0x17
}

} // verus!
