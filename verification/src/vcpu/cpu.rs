//! The processor itself.

use crate::vcpu::alu;
use crate::vcpu::hardware::HardwareRegistry;
use crate::vcpu::instruction;
use crate::vcpu::instruction::{
    conditional_word, instruction_length, BinaryOp, Instruction, UnaryOp,
};
use crate::vcpu::interrupts::InterruptController;
use crate::vcpu::machine::{word, Device, ExecState, Machine};
use crate::vcpu::memory::{image_of_words, words_of_image, ImageError, Memory};
use crate::vcpu::operand::{
    a_code_of, a_field, b_code_of, b_field, opcode_of, operand_a, operand_b, operand_shared,
    Decoded, Operand,
};
use crate::vcpu::register::Register;
use crate::vcpu::semantics;
use crate::vcpu::semantics::{Event, SKIP_LIMIT};
use vstd::prelude::*;

verus! {

/// What executing an instruction reports: the event, and the number of
/// instructions that were skipped behind a failed test.
#[derive(Clone, Copy, Debug, PartialEq, Eq, Structural)]
pub struct Executed {
    pub event: Event,
    pub skipped: u32,
}

/// What running to the next instruction boundary reports: the cycles that
/// it took, and the event of the first of them.
#[derive(Clone, Copy, Debug, PartialEq, Eq, Structural)]
pub struct Run {
    pub cycles: u64,
    pub event: Event,
}

/// A 16-bit virtual processor with its memory, its interrupt controller and
/// its hardware bus.
pub struct VCPU16 {
    registers: [u16; 12],
    memory: Memory,
    state: ExecState,
    interrupts: InterruptController,
    hardware: HardwareRegistry,
}

impl View for VCPU16 {
    type V = Machine;

    closed spec fn view(&self) -> Machine {
        Machine {
            registers: self.registers@,
            memory: self.memory@,
            state: self.state,
            queueing: self.interrupts@.queueing,
            queue: self.interrupts@.queue,
            devices: self.hardware@,
        }
    }
}

impl VCPU16 {
    /// A processor as it leaves the factory: registers and memory zero,
    /// ready to fetch, no interrupt waiting, no device attached.
    pub fn new() -> (cpu: VCPU16)
        ensures
            cpu@ == Machine::initial(),
    {
        VCPU16 {
            registers: [0u16; 12],
            memory: Memory::new(),
            state: ExecState::Active,
            interrupts: InterruptController::new(),
            hardware: HardwareRegistry::new(),
        }
    }

    /// Every processor has the shape of a machine: twelve registers, 65,536
    /// words of memory, at most 256 waiting interrupts and at most 65,535
    /// devices. Calling this does nothing when the program runs; it makes the
    /// fact known where a proof needs it.
    pub fn shape(&self)
        ensures
            self@.wf(),
    {
        proof {
            use_type_invariant(&self.interrupts);
            use_type_invariant(&self.hardware);
            self.interrupts.lemma_bounded();
            self.hardware.lemma_bounded();
            self.memory.lemma_len();
        }
    }

    /// The value of a register.
    pub fn get_register(&self, register: Register) -> (value: u16)
        ensures
            value == self@.reg(register),
    {
        self.registers[register.slot()]
    }

    /// Sets a register; nothing else changes.
    pub fn set_register(&mut self, register: Register, value: u16)
        ensures
            final(self)@ == old(self)@.with_reg(register, value),
    {
        self.registers[register.slot()] = value;
    }

    /// Stores `value` at `address`; nothing else changes.
    pub fn set_memory(&mut self, address: u16, value: u16)
        ensures
            final(self)@ == old(self)@.with_mem(address, value),
    {
        self.memory.set_memory(address, value);
    }

    /// The word at `address`.
    pub fn get_memory(&self, address: u16) -> (value: u16)
        ensures
            value == self@.mem(address),
    {
        self.memory.get_memory(address)
    }

    /// NEXT: reads the word at the program counter and moves the program
    /// counter past it.
    fn fetch(&mut self) -> (next: u16)
        ensures
            (next, final(self)@) == old(self)@.next_word(),
    {
        let pc: u16 = self.registers[Register::PC.slot()];
        let next: u16 = self.memory.get_memory(pc);
        self.registers[Register::PC.slot()] = pc.wrapping_add(1);
        next
    }

    /// The operand that is a register.
    fn register_operand(&self, register: Register) -> (operand: Operand)
        ensures
            operand == Operand::of_register(self@, register),
    {
        Operand::Register { register, value: self.registers[register.slot()] }
    }

    /// The operand that is the memory cell at `address`.
    fn memory_operand(&self, address: u16) -> (operand: Operand)
        ensures
            operand == Operand::of_memory(self@, address),
    {
        Operand::Memory { address, value: self.memory.get_memory(address) }
    }

    /// Decodes an operand code by the rows that both tables share.
    fn decode_shared(&mut self, code: u16) -> (d: Decoded<Operand>)
        requires
            code < 0x20,
            code != 0x18,
        ensures
            (d, final(self)@) == operand_shared(old(self)@, code),
            d.time <= 1,
    {
        reveal(operand_shared);
        if code < 0x08 {
            Decoded { result: self.register_operand(Register::from_code(code)), time: 0 }
        } else if code < 0x10 {
            let address: u16 = self.registers[Register::from_code(code).slot()];
            Decoded { result: self.memory_operand(address), time: 0 }
        } else if code < 0x18 {
            let base: u16 = self.registers[Register::from_code(code).slot()];
            let offset: u16 = self.fetch();
            Decoded { result: self.memory_operand(base.wrapping_add(offset)), time: 1 }
        } else if code == 0x19 {
            let address: u16 = self.registers[Register::SP.slot()];
            Decoded { result: self.memory_operand(address), time: 0 }
        } else if code == 0x1A {
            let base: u16 = self.registers[Register::SP.slot()];
            let offset: u16 = self.fetch();
            Decoded { result: self.memory_operand(base.wrapping_add(offset)), time: 1 }
        } else if code == 0x1B {
            Decoded { result: self.register_operand(Register::SP), time: 0 }
        } else if code == 0x1C {
            Decoded { result: self.register_operand(Register::PC), time: 0 }
        } else if code == 0x1D {
            Decoded { result: self.register_operand(Register::EX), time: 0 }
        } else if code == 0x1E {
            let address: u16 = self.fetch();
            Decoded { result: self.memory_operand(address), time: 1 }
        } else {
            let value: u16 = self.fetch();
            Decoded { result: Operand::Literal { value }, time: 1 }
        }
    }

    /// Decodes the a-operand of an instruction word, its high six bits, and
    /// applies what decoding does to the program counter and the stack
    /// pointer.
    pub fn decode_left(&mut self, instruction_word: u16) -> (d: Decoded<Operand>)
        ensures
            (d, final(self)@) == operand_a(old(self)@, a_field(instruction_word)),
            d.time <= 1,
    {
        let code: u16 = a_code_of(instruction_word);
        if code == 0x18 {
            let address: u16 = self.registers[Register::SP.slot()];
            let operand = self.memory_operand(address);
            self.registers[Register::SP.slot()] = address.wrapping_add(1);
            Decoded { result: operand, time: 0 }
        } else if code >= 0x20 {
            Decoded { result: Operand::Literal { value: code.wrapping_sub(0x21) }, time: 0 }
        } else {
            self.decode_shared(code)
        }
    }

    /// Decodes the b-operand of an instruction word, the five bits above the
    /// opcode, and applies what decoding does to the program counter and the
    /// stack pointer.
    pub fn decode_right(&mut self, instruction_word: u16) -> (d: Decoded<Operand>)
        ensures
            (d, final(self)@) == operand_b(old(self)@, b_field(instruction_word)),
            d.time <= 1,
    {
        let code: u16 = b_code_of(instruction_word);
        if code == 0x18 {
            let address: u16 = self.registers[Register::SP.slot()].wrapping_sub(1);
            self.registers[Register::SP.slot()] = address;
            Decoded { result: self.memory_operand(address), time: 0 }
        } else {
            self.decode_shared(code)
        }
    }

    /// Decodes a word that has no operand. The processor does not change.
    pub fn decode_nullary(&mut self, instruction_word: u16) -> (d: Decoded<Instruction>)
        ensures
            d == instruction::nullary(instruction_word),
            d.time == 1,
            final(self)@ == old(self)@,
    {
        let code: u16 = a_code_of(instruction_word);
        if code == 0x00 {
            Decoded { result: Instruction::NOP, time: 1 }
        } else if code == 0x01 {
            Decoded { result: Instruction::HIB, time: 1 }
        } else {
            Decoded { result: Instruction::ERR, time: 1 }
        }
    }

    /// Decodes a word that has one operand, decoding that operand.
    pub fn decode_unary(&mut self, instruction_word: u16) -> (d: Decoded<Instruction>)
        ensures
            (d, final(self)@) == instruction::decode_unary(old(self)@, instruction_word),
            1 <= d.time <= 5,
    {
        let operand = self.decode_left(instruction_word);
        match UnaryOp::from_code(b_code_of(instruction_word)) {
            Some(op) => Decoded {
                result: Instruction::Unary { op, operand: operand.result },
                time: op.cycles() + operand.time,
            },
            None => Decoded { result: Instruction::ERR, time: 1 + operand.time },
        }
    }

    /// Decodes a word that has two operands, decoding the destination first
    /// and the source second.
    pub fn decode_binary(&mut self, instruction_word: u16) -> (d: Decoded<Instruction>)
        ensures
            (d, final(self)@) == instruction::decode_binary(old(self)@, instruction_word),
            1 <= d.time <= 5,
    {
        let dst = self.decode_right(instruction_word);
        let src = self.decode_left(instruction_word);
        match BinaryOp::from_code(opcode_of(instruction_word)) {
            Some(op) => Decoded {
                result: Instruction::Binary { op, dst: dst.result, src: src.result },
                time: op.cycles() + dst.time + src.time,
            },
            None => Decoded { result: Instruction::ERR, time: 1 + dst.time + src.time },
        }
    }

    /// Fetches and decodes the next instruction. The program counter ends
    /// behind the instruction word and all the NEXT words that it names.
    pub fn decode(&mut self) -> (d: Decoded<Instruction>)
        ensures
            (d, final(self)@) == instruction::decode(old(self)@),
            1 <= d.time <= 5,
    {
        let instruction_word: u16 = self.fetch();
        if opcode_of(instruction_word) != 0 {
            self.decode_binary(instruction_word)
        } else if b_code_of(instruction_word) != 0 {
            self.decode_unary(instruction_word)
        } else {
            self.decode_nullary(instruction_word)
        }
    }

    /// Writes a value to a decoded operand: to its register or memory cell.
    /// A write to a literal is dropped.
    pub fn write(&mut self, operand: Operand, value: u16)
        ensures
            final(self)@ == operand.store(old(self)@, value),
    {
        match operand {
            Operand::Register { register, value: captured } => {
                self.registers[register.slot()] = value;
            },
            Operand::Memory { address, value: captured } => {
                self.memory.set_memory(address, value);
            },
            Operand::Literal { value: captured } => {},
        }
    }

    /// Pushes a word: the stack pointer moves down by one, then the word is
    /// stored where it points.
    pub fn push(&mut self, value: u16)
        ensures
            final(self)@ == old(self)@.push(value),
    {
        let sp: u16 = self.registers[Register::SP.slot()].wrapping_sub(1);
        self.registers[Register::SP.slot()] = sp;
        self.memory.set_memory(sp, value);
    }

    /// Pops a word: reads where the stack pointer points, then moves the
    /// stack pointer up by one.
    pub fn pop(&mut self) -> (value: u16)
        ensures
            (value, final(self)@) == old(self)@.pop(),
    {
        let sp: u16 = self.registers[Register::SP.slot()];
        let value: u16 = self.memory.get_memory(sp);
        self.registers[Register::SP.slot()] = sp.wrapping_add(1);
        value
    }

    /// Triggers an interrupt with a message. The message joins the queue; at
    /// the next instruction boundary at which queueing is off, the oldest
    /// message is delivered. If the queue is full the message is lost, the
    /// processor halts, and `CaughtFire` is reported.
    pub fn trigger(&mut self, message: u16) -> (event: Event)
        ensures
            final(self)@ == semantics::trigger(old(self)@, message),
            event == semantics::trigger_event(old(self)@),
    {
        if self.interrupts.enqueue(message) {
            Event::Quiet
        } else {
            self.state = ExecState::Halted;
            Event::CaughtFire
        }
    }

    /// Whether an interrupt is due at the next instruction boundary.
    pub fn interrupt_pending(&self) -> (due: bool)
        ensures
            due == semantics::interrupt_pending(self@),
    {
        !self.interrupts.queueing() && self.interrupts.len() > 0
    }

    /// Services interrupts at an instruction boundary: if one is due, the
    /// oldest leaves the queue and is delivered, or dropped where `IA` is
    /// zero.
    pub fn service_interrupt(&mut self)
        ensures
            final(self)@ == semantics::service_interrupt(old(self)@),
    {
        if self.interrupt_pending() {
            let taken: Option<u16> = self.interrupts.dequeue();
            let handler: u16 = self.registers[Register::IA.slot()];
            match taken {
                Some(message) => {
                    if handler != 0 {
                        let pc: u16 = self.registers[Register::PC.slot()];
                        let a: u16 = self.registers[Register::A.slot()];
                        self.push(pc);
                        self.push(a);
                        self.registers[Register::PC.slot()] = handler;
                        self.registers[Register::A.slot()] = message;
                        self.interrupts.set_queueing(true);
                    }
                },
                None => {},
            }
        }
    }

    /// Executes an instruction with one operand.
    fn execute_unary(&mut self, op: UnaryOp, operand: Operand) -> (event: Event)
        ensures
            final(self)@ == semantics::apply_unary(old(self)@, op, operand),
            event == semantics::unary_event(old(self)@, op, operand),
    {
        let l: u16 = operand.captured();
        match op {
            UnaryOp::JSR => {
                let pc: u16 = self.registers[Register::PC.slot()];
                self.push(pc);
                self.registers[Register::PC.slot()] = l;
                Event::Quiet
            },
            UnaryOp::SLP => {
                if l != 0 {
                    self.state = ExecState::Sleeping(l);
                }
                Event::Quiet
            },
            UnaryOp::INT => self.trigger(l),
            UnaryOp::IAG => {
                let handler: u16 = self.registers[Register::IA.slot()];
                self.write(operand, handler);
                Event::Quiet
            },
            UnaryOp::IAS => {
                self.registers[Register::IA.slot()] = l;
                Event::Quiet
            },
            UnaryOp::RFI => {
                self.interrupts.set_queueing(false);
                let a: u16 = self.pop();
                let pc: u16 = self.pop();
                self.registers[Register::A.slot()] = a;
                self.registers[Register::PC.slot()] = pc;
                Event::Quiet
            },
            UnaryOp::IAQ => {
                self.interrupts.set_queueing(l != 0);
                Event::Quiet
            },
            UnaryOp::HWN => {
                let count: u16 = self.hardware.count();
                self.write(operand, count);
                Event::Quiet
            },
            UnaryOp::HWQ => {
                match self.hardware.get(l) {
                    Some(device) => {
                        self.registers[Register::A.slot()] = (device.hardware_id % 0x10000) as u16;
                        self.registers[Register::B.slot()] = (device.hardware_id / 0x10000) as u16;
                        self.registers[Register::C.slot()] = device.version;
                        self.registers[Register::X.slot()] = (device.manufacturer_id
                            % 0x10000) as u16;
                        self.registers[Register::Y.slot()] = (device.manufacturer_id
                            / 0x10000) as u16;
                        Event::Quiet
                    },
                    None => Event::HardwareIndexError { index: l },
                }
            },
            UnaryOp::HWI => {
                if l < self.hardware.count() {
                    Event::HardwareInterrupt { index: l }
                } else {
                    Event::HardwareIndexError { index: l }
                }
            },
        }
    }

    /// Steps `I` and `J` up by one.
    fn increment_indices(&mut self)
        ensures
            final(self)@ == old(self)@.with_reg(
                Register::I,
                word(old(self)@.reg(Register::I) + 1),
            ).with_reg(Register::J, word(old(self)@.reg(Register::J) + 1)),
    {
        let i: u16 = self.registers[Register::I.slot()];
        let j: u16 = self.registers[Register::J.slot()];
        self.registers[Register::I.slot()] = i.wrapping_add(1);
        self.registers[Register::J.slot()] = j.wrapping_add(1);
    }

    /// Steps `I` and `J` down by one.
    fn decrement_indices(&mut self)
        ensures
            final(self)@ == old(self)@.with_reg(
                Register::I,
                word(old(self)@.reg(Register::I) - 1),
            ).with_reg(Register::J, word(old(self)@.reg(Register::J) - 1)),
    {
        let i: u16 = self.registers[Register::I.slot()];
        let j: u16 = self.registers[Register::J.slot()];
        self.registers[Register::I.slot()] = i.wrapping_sub(1);
        self.registers[Register::J.slot()] = j.wrapping_sub(1);
    }

    /// Executes an instruction with two operands that is no test.
    fn execute_binary(&mut self, op: BinaryOp, dst: Operand, src: Operand)
        requires
            !op.is_conditional(),
        ensures
            final(self)@ == semantics::apply_binary(old(self)@, op, dst, src),
    {
        let ex: u16 = self.registers[Register::EX.slot()];
        let outcome = alu::compute(op, dst.captured(), src.captured(), ex);
        self.registers[Register::EX.slot()] = outcome.excess;
        self.write(dst, outcome.value);
        match op {
            BinaryOp::STI => {
                self.increment_indices();
            },
            BinaryOp::STD => {
                self.decrement_indices();
            },
            _ => {},
        }
    }

    /// Skips behind a failed test: moves the program counter past the next
    /// instruction and, while the skipped instruction is a test, past the one
    /// behind it. Nothing but the program counter changes.
    fn skip_instructions(&mut self) -> (skipped: u32)
        ensures
            (final(self)@.pc(), skipped as nat) == semantics::skip(
                old(self)@.memory,
                old(self)@.pc(),
                SKIP_LIMIT as nat,
            ),
            final(self)@ == old(self)@.with_reg(Register::PC, final(self)@.pc()),
            skipped <= SKIP_LIMIT,
    {
        let ghost memory = self@.memory;
        let ghost start = self@.pc();
        let mut pc: u16 = self.registers[Register::PC.slot()];
        let mut skipped: u32 = 0;
        let mut more: bool = true;
        while more && skipped < SKIP_LIMIT
            invariant
                skipped <= SKIP_LIMIT,
                self@ == old(self)@,
                memory == old(self)@.memory,
                start == old(self)@.pc(),
                more ==> semantics::skip(memory, start, SKIP_LIMIT as nat).0 == semantics::skip(
                    memory,
                    pc,
                    (SKIP_LIMIT - skipped) as nat,
                ).0,
                more ==> semantics::skip(memory, start, SKIP_LIMIT as nat).1 == semantics::skip(
                    memory,
                    pc,
                    (SKIP_LIMIT - skipped) as nat,
                ).1 + skipped,
                !more ==> semantics::skip(memory, start, SKIP_LIMIT as nat) == (pc, skipped as nat),
            decreases SKIP_LIMIT - skipped,
        {
            let w: u16 = self.memory.get_memory(pc);
            proof {
                semantics::lemma_skip_unfold(memory, pc, (SKIP_LIMIT - skipped) as nat);
            }
            more = conditional_word(w);
            pc = pc.wrapping_add(instruction_length(w));
            skipped = skipped + 1;
        }
        self.registers[Register::PC.slot()] = pc;
        skipped
    }

    /// Executes a decoded instruction: applies its effect and, behind a
    /// failed test, skips.
    pub fn execute(&mut self, instruction: Instruction) -> (done: Executed)
        ensures
            (final(self)@, done.event, done.skipped as nat) == semantics::execute(
                old(self)@,
                instruction,
            ),
            done.skipped <= SKIP_LIMIT,
    {
        match instruction {
            Instruction::NOP => Executed { event: Event::Quiet, skipped: 0 },
            Instruction::HIB => {
                self.state = ExecState::Hibernating;
                Executed { event: Event::Quiet, skipped: 0 }
            },
            Instruction::ERR => Executed { event: Event::DecodeError, skipped: 0 },
            Instruction::Unary { op, operand } => {
                let event = self.execute_unary(op, operand);
                Executed { event, skipped: 0 }
            },
            Instruction::Binary { op, dst, src } => {
                if op.conditional() {
                    if alu::condition_holds(op, dst.captured(), src.captured()) {
                        Executed { event: Event::Quiet, skipped: 0 }
                    } else {
                        let skipped: u32 = self.skip_instructions();
                        Executed { event: Event::Quiet, skipped }
                    }
                } else {
                    self.execute_binary(op, dst, src);
                    Executed { event: Event::Quiet, skipped: 0 }
                }
            },
        }
    }

    /// One cycle of the processor.
    ///
    /// A halted processor does nothing. A hibernating one wakes if an
    /// interrupt is due, and services it. A sleeping or busy one counts down.
    /// An active one services interrupts, then fetches, decodes and executes
    /// one instruction, whose effects are applied at once; the cycles that
    /// remain of its cost make the processor busy.
    ///
    /// The answer is what the host has to know of the cycle. On
    /// `HardwareInterrupt` the host runs the device's interrupt entry, which
    /// may read and write registers and memory and trigger interrupts, and
    /// hands the extra cycles that the device asks for to [`VCPU16::stall`].
    pub fn step(&mut self) -> (event: Event)
        ensures
            (final(self)@, event) == semantics::tick(old(self)@),
    {
        match self.state {
            ExecState::Halted => Event::Quiet,
            ExecState::Hibernating => {
                if self.interrupt_pending() {
                    self.state = ExecState::Active;
                    self.service_interrupt();
                }
                Event::Quiet
            },
            ExecState::Sleeping(n) => {
                self.state = if n <= 1 {
                    ExecState::Active
                } else {
                    ExecState::Sleeping(n - 1)
                };
                Event::Quiet
            },
            ExecState::Busy(n) => {
                self.state = if n <= 1 {
                    ExecState::Active
                } else {
                    ExecState::Busy(n - 1)
                };
                Event::Quiet
            },
            ExecState::Active => {
                self.service_interrupt();
                let decoded = self.decode();
                let done = self.execute(decoded.result);
                let cost: u32 = decoded.time + done.skipped;
                if cost > 1 {
                    match self.state {
                        ExecState::Active => {
                            self.state = ExecState::Busy(cost - 1);
                        },
                        _ => {},
                    }
                }
                done.event
            },
        }
    }

    /// Whether the processor is busy or sleeping.
    pub fn is_waiting(&self) -> (yes: bool)
        ensures
            yes == (semantics::waiting(self@.state) > 0),
    {
        match self.state {
            ExecState::Busy(n) => true,
            ExecState::Sleeping(n) => true,
            _ => false,
        }
    }

    /// Runs to the next instruction boundary: one cycle, then cycles until
    /// the processor is neither busy nor sleeping. A halted processor takes
    /// no cycle. From an active processor this executes one instruction and
    /// returns its cost in cycles.
    pub fn step_instruction(&mut self) -> (run: Run)
        ensures
            (final(self)@, run.event, run.cycles as nat) == semantics::run(old(self)@),
    {
        match self.state {
            ExecState::Halted => {
                return Run { cycles: 0, event: Event::Quiet };
            },
            _ => {},
        }
        let event = self.step();
        let ghost first = self@;
        let mut cycles: u64 = 1;
        while self.is_waiting()
            invariant
                semantics::rested(self@) == semantics::rested(first),
                cycles + semantics::waiting(self@.state) == 1 + semantics::waiting(first.state),
                cycles >= 1,
            decreases semantics::waiting(self@.state),
        {
            let quiet = self.step();
            cycles = cycles + 1;
        }
        Run { cycles, event }
    }

    /// Adds the extra cycles that a device asked for to the latency of the
    /// processor.
    pub fn stall(&mut self, cycles: u16)
        ensures
            final(self)@ == semantics::stall(old(self)@, cycles),
    {
        match self.state {
            ExecState::Active => {
                if cycles != 0 {
                    self.state = ExecState::Busy(cycles as u32);
                }
            },
            ExecState::Busy(n) => {
                self.state = ExecState::Busy(n.saturating_add(cycles as u32));
            },
            _ => {},
        }
    }

    /// Resets the processor: registers zero, ready to fetch, no interrupt
    /// waiting, queueing off. Memory and attached devices stay.
    pub fn reset(&mut self)
        ensures
            final(self)@ == semantics::reset(old(self)@),
    {
        self.registers = [0u16; 12];
        self.state = ExecState::Active;
        self.interrupts.clear();
    }

    /// The execution state.
    pub fn state(&self) -> (state: ExecState)
        ensures
            state == self@.state,
    {
        self.state
    }

    /// Whether triggered interrupts are held back in the queue.
    pub fn queueing_enabled(&self) -> (on: bool)
        ensures
            on == self@.queueing,
    {
        self.interrupts.queueing()
    }

    /// The number of interrupts that wait in the queue.
    pub fn queued_interrupts(&self) -> (n: usize)
        ensures
            n == self@.queue.len(),
            n <= 256,
    {
        self.interrupts.len()
    }

    /// Attaches a device behind those already there and returns its hardware
    /// number. A bus with 65,535 devices takes no more.
    pub fn attach(&mut self, device: Device) -> (index: Option<u16>)
        ensures
            old(self)@.devices.len() < 65535 ==> index == Some(old(self)@.devices.len() as u16)
                && final(self)@ == (Machine {
                devices: old(self)@.devices.push(device),
                ..old(self)@
            }),
            old(self)@.devices.len() >= 65535 ==> index.is_none() && final(self)@ == old(self)@,
    {
        self.hardware.attach(device)
    }

    /// Detaches the device with hardware number `index` and returns its
    /// identity; the devices behind it move down by one. Without such a
    /// device nothing changes.
    pub fn detach(&mut self, index: u16) -> (device: Option<Device>)
        ensures
            index < old(self)@.devices.len() ==> device == Some(old(self)@.devices[index as int])
                && final(self)@ == (Machine {
                devices: old(self)@.devices.remove(index as int),
                ..old(self)@
            }),
            index >= old(self)@.devices.len() ==> device.is_none() && final(self)@ == old(self)@,
    {
        self.hardware.detach(index)
    }

    /// The number of attached devices.
    pub fn device_count(&self) -> (n: u16)
        ensures
            n == self@.devices.len(),
    {
        self.hardware.count()
    }

    /// The identity of the device with hardware number `index`, if there is
    /// one.
    pub fn device(&self, index: u16) -> (device: Option<Device>)
        ensures
            index < self@.devices.len() ==> device == Some(self@.devices[index as int]),
            index >= self@.devices.len() ==> device.is_none(),
    {
        self.hardware.get(index)
    }

    /// Replaces the memory by the contents of an image of 131,072 bytes,
    /// little-endian word by word. A shorter image is rejected and changes
    /// nothing; bytes beyond a full image are ignored.
    pub fn load_memory(&mut self, image: &[u8]) -> (result: Result<(), ImageError>)
        ensures
            image@.len() >= 131072 ==> result == Ok::<(), ImageError>(()) && final(self)@
                == (Machine { memory: words_of_image(image@), ..old(self)@ }),
            image@.len() < 131072 ==> result == Err::<(), ImageError>(
                ImageError::Truncated { found: image@.len() as usize },
            ) && final(self)@ == old(self)@,
    {
        self.memory.load_memory(image)
    }

    /// The image of the memory: 131,072 bytes, little-endian word by word.
    pub fn save_memory(&self) -> (image: Vec<u8>)
        ensures
            image@ == image_of_words(self@.memory),
    {
        self.memory.save_memory()
    }

    /// The stack pointer.
    pub fn get_sp(&self) -> (value: u16)
        ensures
            value == self@.reg(Register::SP),
    {
        self.registers[Register::SP.slot()]
    }

    /// The program counter.
    pub fn get_pc(&self) -> (value: u16)
        ensures
            value == self@.reg(Register::PC),
    {
        self.registers[Register::PC.slot()]
    }

    /// The excess register.
    pub fn get_ex(&self) -> (value: u16)
        ensures
            value == self@.reg(Register::EX),
    {
        self.registers[Register::EX.slot()]
    }

    /// The interrupt address.
    pub fn get_ia(&self) -> (value: u16)
        ensures
            value == self@.reg(Register::IA),
    {
        self.registers[Register::IA.slot()]
    }

    /// Register `A`.
    pub fn get_a(&self) -> (value: u16)
        ensures
            value == self@.reg(Register::A),
    {
        self.registers[Register::A.slot()]
    }

    /// Register `B`.
    pub fn get_b(&self) -> (value: u16)
        ensures
            value == self@.reg(Register::B),
    {
        self.registers[Register::B.slot()]
    }

    /// Register `C`.
    pub fn get_c(&self) -> (value: u16)
        ensures
            value == self@.reg(Register::C),
    {
        self.registers[Register::C.slot()]
    }

    /// Register `X`.
    pub fn get_x(&self) -> (value: u16)
        ensures
            value == self@.reg(Register::X),
    {
        self.registers[Register::X.slot()]
    }

    /// Register `Y`.
    pub fn get_y(&self) -> (value: u16)
        ensures
            value == self@.reg(Register::Y),
    {
        self.registers[Register::Y.slot()]
    }

    /// Register `Z`.
    pub fn get_z(&self) -> (value: u16)
        ensures
            value == self@.reg(Register::Z),
    {
        self.registers[Register::Z.slot()]
    }

    /// Register `I`.
    pub fn get_i(&self) -> (value: u16)
        ensures
            value == self@.reg(Register::I),
    {
        self.registers[Register::I.slot()]
    }

    /// Register `J`.
    pub fn get_j(&self) -> (value: u16)
        ensures
            value == self@.reg(Register::J),
    {
        self.registers[Register::J.slot()]
    }
}

} // verus!
