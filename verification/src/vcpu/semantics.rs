//! What the processor does: the effect of each instruction, the skipping of
//! instructions behind a failed test, the delivery of interrupts, and the
//! cycle. All of it is stated as functions on the model of the machine.

use crate::vcpu::instruction::{
    decode, is_conditional_word, length, BinaryOp, Instruction, UnaryOp,
};
use crate::vcpu::machine::{high_half, low_half, word, ExecState, Machine};
use crate::vcpu::operand::Operand;
use crate::vcpu::register::Register;
use vstd::prelude::*;

verus! {

/// Most instructions that one failed test skips. A chain of tests that is
/// longer than the memory runs in a circle; skipping stops there.
pub const SKIP_LIMIT: u32 = 65536;

/// What a cycle reports to the host: the diagnostics of the processor, and
/// the request to run a device.
#[derive(Clone, Copy, Debug, PartialEq, Eq, Structural)]
pub enum Event {
    /// Nothing to report.
    Quiet,
    /// A reserved encoding was executed. It did nothing.
    DecodeError,
    /// `HWQ` or `HWI` named a device that is not attached. It did nothing.
    HardwareIndexError { index: u16 },
    /// The interrupt queue overflowed: the processor caught fire and halted.
    CaughtFire,
    /// `HWI` was executed: the host is to run the interrupt entry of the
    /// device with this hardware number.
    HardwareInterrupt { index: u16 },
}

/// Whether an interrupt is due at the next instruction boundary: one waits,
/// and queueing does not hold it back.
pub open spec fn interrupt_pending(m: Machine) -> bool {
    !m.queueing && m.queue.len() > 0
}

/// Whether the queue has no room for another interrupt.
pub open spec fn queue_full(m: Machine) -> bool {
    m.queue.len() >= 256
}

/// Triggering an interrupt: the message joins the queue. If the queue is
/// full the message is lost and the processor halts.
pub open spec fn trigger(m: Machine, message: u16) -> Machine {
    if queue_full(m) {
        m.with_state(ExecState::Halted)
    } else {
        Machine { queue: m.queue.push(message), ..m }
    }
}

/// What triggering an interrupt reports.
pub open spec fn trigger_event(m: Machine) -> Event {
    if queue_full(m) {
        Event::CaughtFire
    } else {
        Event::Quiet
    }
}

/// Entering the interrupt handler with a message: the program counter and
/// then `A` are pushed, the program counter becomes `IA`, `A` becomes the
/// message, and queueing is switched on.
pub open spec fn enter_handler(m: Machine, message: u16) -> Machine {
    let pushed = m.push(m.pc()).push(m.reg(Register::A));
    Machine {
        queueing: true,
        ..pushed.with_reg(Register::PC, m.reg(Register::IA)).with_reg(Register::A, message)
    }
}

/// What happens to interrupts at an instruction boundary. If one is due, the
/// oldest leaves the queue; it is dropped where `IA` is zero and delivered
/// to the handler otherwise. At most one leaves the queue.
pub open spec fn service_interrupt(m: Machine) -> Machine {
    if interrupt_pending(m) {
        let rest = Machine { queue: m.queue.skip(1), ..m };
        if m.reg(Register::IA) == 0 {
            rest
        } else {
            enter_handler(rest, m.queue[0])
        }
    } else {
        m
    }
}

/// Loading a device's identity into `A`, `B`, `C`, `X` and `Y`.
pub open spec fn query_device(m: Machine, index: int) -> Machine {
    let device = m.devices[index];
    m.with_reg(Register::A, low_half(device.hardware_id)).with_reg(
        Register::B,
        high_half(device.hardware_id),
    ).with_reg(Register::C, device.version).with_reg(
        Register::X,
        low_half(device.manufacturer_id),
    ).with_reg(Register::Y, high_half(device.manufacturer_id))
}

/// Returning from an interrupt handler: queueing is switched off, `A` is
/// popped, then the program counter is popped.
pub open spec fn return_from_handler(m: Machine) -> Machine {
    let (a, first) = m.pop();
    let (pc, second) = first.pop();
    Machine {
        queueing: false,
        ..second.with_reg(Register::A, a).with_reg(Register::PC, pc)
    }
}

/// The machine after an instruction with one operand.
pub open spec fn apply_unary(m: Machine, op: UnaryOp, operand: Operand) -> Machine {
    let l = operand.value();
    match op {
        UnaryOp::JSR => m.push(m.pc()).with_reg(Register::PC, l),
        UnaryOp::SLP => if l == 0 {
            m
        } else {
            m.with_state(ExecState::Sleeping(l))
        },
        UnaryOp::INT => trigger(m, l),
        UnaryOp::IAG => operand.store(m, m.reg(Register::IA)),
        UnaryOp::IAS => m.with_reg(Register::IA, l),
        UnaryOp::RFI => return_from_handler(m),
        UnaryOp::IAQ => Machine { queueing: l != 0, ..m },
        UnaryOp::HWN => operand.store(m, m.devices.len() as u16),
        UnaryOp::HWQ => if l < m.devices.len() {
            query_device(m, l as int)
        } else {
            m
        },
        UnaryOp::HWI => m,
    }
}

/// What an instruction with one operand reports.
pub open spec fn unary_event(m: Machine, op: UnaryOp, operand: Operand) -> Event {
    let l = operand.value();
    match op {
        UnaryOp::INT => trigger_event(m),
        UnaryOp::HWQ => if l < m.devices.len() {
            Event::Quiet
        } else {
            Event::HardwareIndexError { index: l }
        },
        UnaryOp::HWI => if l < m.devices.len() {
            Event::HardwareInterrupt { index: l }
        } else {
            Event::HardwareIndexError { index: l }
        },
        _ => Event::Quiet,
    }
}

/// The machine after an instruction with two operands. A test changes
/// nothing. Any other operation first sets the excess register, then writes
/// its result to the destination; `STI` and `STD` then step `I` and `J`.
pub open spec fn apply_binary(m: Machine, op: BinaryOp, dst: Operand, src: Operand) -> Machine {
    if op.is_conditional() {
        m
    } else {
        let b = dst.value();
        let a = src.value();
        let ex = m.reg(Register::EX);
        let written = dst.store(m.with_reg(Register::EX, op.excess(b, a, ex)), op.result(b, a, ex));
        match op {
            BinaryOp::STI => written.with_reg(
                Register::I,
                word(written.reg(Register::I) + 1),
            ).with_reg(Register::J, word(written.reg(Register::J) + 1)),
            BinaryOp::STD => written.with_reg(
                Register::I,
                word(written.reg(Register::I) - 1),
            ).with_reg(Register::J, word(written.reg(Register::J) - 1)),
            _ => written,
        }
    }
}

/// The machine after a decoded instruction, before anything is skipped.
pub open spec fn apply(m: Machine, instruction: Instruction) -> Machine {
    match instruction {
        Instruction::NOP => m,
        Instruction::HIB => m.with_state(ExecState::Hibernating),
        Instruction::ERR => m,
        Instruction::Unary { op, operand } => apply_unary(m, op, operand),
        Instruction::Binary { op, dst, src } => apply_binary(m, op, dst, src),
    }
}

/// What a decoded instruction reports.
pub open spec fn event_of(m: Machine, instruction: Instruction) -> Event {
    match instruction {
        Instruction::ERR => Event::DecodeError,
        Instruction::Unary { op, operand } => unary_event(m, op, operand),
        _ => Event::Quiet,
    }
}

/// Whether an instruction is a test that fails.
pub open spec fn fails(instruction: Instruction) -> bool {
    instruction matches Instruction::Binary { op, dst, src } && op.is_conditional() && !op.holds(
        dst.value(),
        src.value(),
    )
}

/// Skipping behind a failed test, from `pc`: the address behind the skipped
/// instructions, and their number. The instruction at `pc` is skipped; while
/// the skipped instruction is itself a test, the one behind it is skipped
/// too. Skipped instructions are measured, not executed. `fuel` bounds the
/// number of skipped instructions.
pub open spec fn skip(memory: Seq<u16>, pc: u16, fuel: nat) -> (u16, nat)
    decreases fuel,
{
    if fuel == 0 {
        (pc, 0)
    } else {
        let w = memory[pc as int];
        let next = word(pc + length(w));
        if is_conditional_word(w) {
            let (end, count) = skip(memory, next, (fuel - 1) as nat);
            (end, count + 1)
        } else {
            (next, 1)
        }
    }
}

/// One step of skipping, spelled out.
pub proof fn lemma_skip_unfold(memory: Seq<u16>, pc: u16, fuel: nat)
    requires
        fuel > 0,
    ensures
        skip(memory, pc, fuel) == (if is_conditional_word(memory[pc as int]) {
            let rest = skip(memory, word(pc + length(memory[pc as int])), (fuel - 1) as nat);
            (rest.0, rest.1 + 1)
        } else {
            (word(pc + length(memory[pc as int])), 1nat)
        }),
{
}

/// Executing a decoded instruction: its effect, and behind a failed test the
/// skipping. The result is the machine, what is reported, and the number of
/// skipped instructions, each of which costs one more cycle.
pub open spec fn execute(m: Machine, instruction: Instruction) -> (Machine, Event, nat) {
    let after = apply(m, instruction);
    let event = event_of(m, instruction);
    if fails(instruction) {
        let (pc, skipped) = skip(after.memory, after.pc(), SKIP_LIMIT as nat);
        (after.with_reg(Register::PC, pc), event, skipped)
    } else {
        (after, event, 0)
    }
}

/// The latency of an instruction that has been executed: a processor that is
/// still active is busy for the cycles that remain of its cost.
pub open spec fn with_latency(m: Machine, cost: int) -> Machine {
    if m.state == ExecState::Active && cost > 1 {
        m.with_state(ExecState::Busy((cost - 1) as u32))
    } else {
        m
    }
}

/// One instruction from fetch to effect: decoded, executed, and its cost
/// turned into latency.
pub open spec fn run_instruction(m: Machine) -> (Machine, Event) {
    let (decoded, fetched) = decode(m);
    let (after, event, skipped) = execute(fetched, decoded.result);
    (with_latency(after, decoded.time + skipped), event)
}

/// The state after one cycle of waiting with `n` cycles left.
pub open spec fn count_down(n: int, rest: ExecState) -> ExecState {
    if n <= 1 {
        ExecState::Active
    } else {
        rest
    }
}

/// One cycle.
///
/// * Halted: nothing happens.
/// * Hibernating: if an interrupt is due, the processor becomes active and
///   the interrupt is serviced; no instruction runs in that cycle.
/// * Sleeping or busy: the count goes down by one; from one it goes to
///   active.
/// * Active: interrupts are serviced, then one instruction runs.
pub open spec fn tick(m: Machine) -> (Machine, Event) {
    match m.state {
        ExecState::Halted => (m, Event::Quiet),
        ExecState::Hibernating => if interrupt_pending(m) {
            (service_interrupt(m.with_state(ExecState::Active)), Event::Quiet)
        } else {
            (m, Event::Quiet)
        },
        ExecState::Sleeping(n) => (
            m.with_state(count_down(n as int, ExecState::Sleeping((n - 1) as u16))),
            Event::Quiet,
        ),
        ExecState::Busy(n) => (
            m.with_state(count_down(n as int, ExecState::Busy((n - 1) as u32))),
            Event::Quiet,
        ),
        ExecState::Active => run_instruction(service_interrupt(m)),
    }
}

/// The cycles that a busy or sleeping processor still waits.
pub open spec fn waiting(state: ExecState) -> nat {
    match state {
        ExecState::Busy(n) => if n == 0 {
            1
        } else {
            n as nat
        },
        ExecState::Sleeping(n) => if n == 0 {
            1
        } else {
            n as nat
        },
        _ => 0,
    }
}

/// The machine after its waiting is over.
pub open spec fn rested(m: Machine) -> Machine {
    if waiting(m.state) > 0 {
        m.with_state(ExecState::Active)
    } else {
        m
    }
}

/// Running to the next instruction boundary: one cycle, then the cycles of
/// waiting that it leaves. A halted processor takes no cycle. The result is
/// the machine, what the first cycle reported, and the number of cycles.
pub open spec fn run(m: Machine) -> (Machine, Event, nat) {
    if m.state == ExecState::Halted {
        (m, Event::Quiet, 0)
    } else {
        let (after, event) = tick(m);
        (rested(after), event, 1 + waiting(after.state))
    }
}

/// Extra cycles that a device asks for: a processor that is active or busy
/// is busy for that much longer, up to what the counter holds.
pub open spec fn stall(m: Machine, cycles: u16) -> Machine {
    match m.state {
        ExecState::Active => if cycles == 0 {
            m
        } else {
            m.with_state(ExecState::Busy(cycles as u32))
        },
        ExecState::Busy(n) => m.with_state(
            ExecState::Busy(
                if n + cycles > u32::MAX {
                    u32::MAX
                } else {
                    (n + cycles) as u32
                },
            ),
        ),
        _ => m,
    }
}

/// Reset: registers zero, ready to fetch, queue empty, queueing off. Memory
/// and devices stay.
pub open spec fn reset(m: Machine) -> Machine {
    Machine {
        registers: Seq::new(12, |i: int| 0u16),
        state: ExecState::Active,
        queueing: false,
        queue: Seq::empty(),
        ..m
    }
}

} // verus!
