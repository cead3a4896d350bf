//! What holds of every machine: laws of decoding, of the program counter, of
//! the stack, of skipping, of interrupts and of reset.

use crate::vcpu::alu::lemma_excess_kept;
use crate::vcpu::instruction::{
    decode, decode_binary, decode_unary, is_conditional_word, is_nullary, is_unary, length,
    next_words, Instruction, UnaryOp,
};
use crate::vcpu::machine::{word, ExecState, Machine};
use crate::vcpu::operand::{a_field, b_field, operand_a, operand_b, operand_shared, Operand};
use crate::vcpu::register::Register;
use crate::vcpu::semantics;
use crate::vcpu::semantics::{
    apply_binary, apply_unary, enter_handler, execute, fails, interrupt_pending, reset, rested,
    return_from_handler, run, run_instruction, service_interrupt, skip, tick, waiting,
    SKIP_LIMIT,
};
use vstd::prelude::*;

verus! {

/// Whether two machines hold the same registers and the same memory.
pub open spec fn same_store(m1: Machine, m2: Machine) -> bool {
    m1.registers == m2.registers && m1.memory == m2.memory
}

/// Whether a step from `before` to `after` wrote nothing but registers.
pub open spec fn wrote_registers_only(before: Machine, after: Machine) -> bool {
    after == (Machine { registers: after.registers, ..before })
}

/// The shared rows of the operand tables read the registers and the memory
/// and nothing else, and write nothing but registers.
pub proof fn lemma_operand_shared_reads(m1: Machine, m2: Machine, code: u16)
    requires
        same_store(m1, m2),
    ensures
        operand_shared(m1, code).0 == operand_shared(m2, code).0,
        same_store(operand_shared(m1, code).1, operand_shared(m2, code).1),
        wrote_registers_only(m1, operand_shared(m1, code).1),
{
    reveal(operand_shared);
}

/// The a-operand table reads the registers and the memory and nothing else,
/// and writes nothing but registers.
pub proof fn lemma_operand_a_reads(m1: Machine, m2: Machine, code: u16)
    requires
        same_store(m1, m2),
    ensures
        operand_a(m1, code).0 == operand_a(m2, code).0,
        same_store(operand_a(m1, code).1, operand_a(m2, code).1),
        wrote_registers_only(m1, operand_a(m1, code).1),
{
    lemma_operand_shared_reads(m1, m2, code);
}

/// The b-operand table reads the registers and the memory and nothing else,
/// and writes nothing but registers.
pub proof fn lemma_operand_b_reads(m1: Machine, m2: Machine, code: u16)
    requires
        same_store(m1, m2),
    ensures
        operand_b(m1, code).0 == operand_b(m2, code).0,
        same_store(operand_b(m1, code).1, operand_b(m2, code).1),
        wrote_registers_only(m1, operand_b(m1, code).1),
{
    lemma_operand_shared_reads(m1, m2, code);
}

/// Decoding is a function of the registers and the memory alone. Two
/// machines that agree on them decode the same instruction at the same cost,
/// and decoding leaves them with the same registers: the program counter and
/// the stack pointer advance alike. Decoding writes nothing but registers.
pub proof fn lemma_decode_deterministic(m1: Machine, m2: Machine)
    requires
        m1.registers == m2.registers,
        m1.memory == m2.memory,
    ensures
        decode(m1).0 == decode(m2).0,
        decode(m1).1.registers == decode(m2).1.registers,
        decode(m1).1 == (Machine { registers: decode(m1).1.registers, ..m1 }),
{
    let (w, fetched1) = m1.next_word();
    let (w2, fetched2) = m2.next_word();
    assert(w == w2);
    assert(same_store(fetched1, fetched2));
    assert(wrote_registers_only(m1, fetched1));
    if is_nullary(w) {
    } else if is_unary(w) {
        lemma_operand_a_reads(fetched1, fetched2, a_field(w));
    } else {
        lemma_operand_b_reads(fetched1, fetched2, b_field(w));
        let between1 = operand_b(fetched1, b_field(w)).1;
        let between2 = operand_b(fetched2, b_field(w)).1;
        lemma_operand_a_reads(between1, between2, a_field(w));
    }
}

/// Whether two machines differ at most in their program counters and stack
/// pointers.
pub open spec fn same_but_pc_sp(m1: Machine, m2: Machine) -> bool {
    &&& m2 == (Machine { registers: m2.registers, ..m1 })
    &&& m2.registers.len() == m1.registers.len()
    &&& forall|r: Register|
        r != Register::PC && r != Register::SP ==> #[trigger] m2.reg(r) == m1.reg(r)
}

/// Decoding an operand by the shared rows moves the program counter past
/// the NEXT word if the code names one, costs one cycle for it, and changes
/// nothing else.
pub proof fn lemma_operand_shared(m: Machine, code: u16)
    requires
        m.wf(),
        code < 0x20,
        code != 0x18,
    ensures
        operand_shared(m, code).1.pc() == word(m.pc() + next_words(code)),
        operand_shared(m, code).1.sp() == m.sp(),
        operand_shared(m, code).0.time == next_words(code),
        same_but_pc_sp(m, operand_shared(m, code).1),
{
    reveal(operand_shared);
    let after = operand_shared(m, code).1;
    assert(after.registers.len() == 12);
    assert forall|r: Register| r != Register::PC && r != Register::SP implies #[trigger] after.reg(
        r,
    ) == m.reg(r) by {}
}

/// Decoding an a-operand moves the program counter past the NEXT word if
/// the code names one, costs one cycle for it, and changes nothing else but
/// the stack pointer.
pub proof fn lemma_operand_a(m: Machine, code: u16)
    requires
        m.wf(),
        code < 0x40,
    ensures
        operand_a(m, code).1.pc() == word(m.pc() + next_words(code)),
        operand_a(m, code).0.time == next_words(code),
        same_but_pc_sp(m, operand_a(m, code).1),
        operand_a(m, code).1.wf(),
{
    if code != 0x18 && code < 0x20 {
        lemma_operand_shared(m, code);
    } else {
        let after = operand_a(m, code).1;
        assert forall|r: Register|
            r != Register::PC && r != Register::SP implies #[trigger] after.reg(r) == m.reg(
            r,
        ) by {}
    }
}

/// Decoding a b-operand moves the program counter past the NEXT word if
/// the code names one, costs one cycle for it, and changes nothing else but
/// the stack pointer.
pub proof fn lemma_operand_b(m: Machine, code: u16)
    requires
        m.wf(),
        code < 0x20,
    ensures
        operand_b(m, code).1.pc() == word(m.pc() + next_words(code)),
        operand_b(m, code).0.time == next_words(code),
        same_but_pc_sp(m, operand_b(m, code).1),
        operand_b(m, code).1.wf(),
{
    if code != 0x18 {
        lemma_operand_shared(m, code);
    } else {
        let after = operand_b(m, code).1;
        assert forall|r: Register|
            r != Register::PC && r != Register::SP implies #[trigger] after.reg(r) == m.reg(
            r,
        ) by {}
    }
}

/// Differing at most in the program counter and the stack pointer carries
/// over two steps.
pub proof fn lemma_same_but_pc_sp_trans(m1: Machine, m2: Machine, m3: Machine)
    requires
        same_but_pc_sp(m1, m2),
        same_but_pc_sp(m2, m3),
    ensures
        same_but_pc_sp(m1, m3),
{
    assert forall|r: Register| r != Register::PC && r != Register::SP implies #[trigger] m3.reg(
        r,
    ) == m1.reg(r) by {
        assert(m2.reg(r) == m1.reg(r));
    }
}

/// Decoding a word with one operand moves the program counter past the
/// NEXT word of the operand, if it names one.
pub proof fn lemma_decode_unary(m: Machine, w: u16)
    requires
        m.wf(),
    ensures
        decode_unary(m, w).1.pc() == word(m.pc() + next_words(a_field(w))),
        same_but_pc_sp(m, decode_unary(m, w).1),
        decode_unary(m, w).1.wf(),
        1 <= decode_unary(m, w).0.time <= 5,
{
    lemma_operand_a(m, a_field(w));
}

/// Decoding a word with two operands moves the program counter past the
/// NEXT words of both operands.
pub proof fn lemma_decode_binary(m: Machine, w: u16)
    requires
        m.wf(),
    ensures
        decode_binary(m, w).1.pc() == word(
            m.pc() + next_words(b_field(w)) + next_words(a_field(w)),
        ),
        same_but_pc_sp(m, decode_binary(m, w).1),
        decode_binary(m, w).1.wf(),
        1 <= decode_binary(m, w).0.time <= 5,
{
    lemma_operand_b(m, b_field(w));
    let between = operand_b(m, b_field(w)).1;
    lemma_operand_a(between, a_field(w));
    let after = operand_a(between, a_field(w)).1;
    lemma_same_but_pc_sp_trans(m, between, after);
}

/// Decoding moves the program counter past the instruction word and the
/// NEXT words of its operands, whatever the instruction is. Decoding changes
/// nothing but the program counter and the stack pointer.
pub proof fn lemma_decode_advances(m: Machine)
    requires
        m.wf(),
    ensures
        decode(m).1.pc() == word(m.pc() + length(m.mem(m.pc()))),
        same_but_pc_sp(m, decode(m).1),
        decode(m).1.wf(),
        1 <= decode(m).0.time <= 5,
{
    reveal(length);
    let (w, fetched) = m.next_word();
    assert(fetched.wf());
    assert(same_but_pc_sp(m, fetched)) by {
        assert forall|r: Register|
            r != Register::PC && r != Register::SP implies #[trigger] fetched.reg(r) == m.reg(
            r,
        ) by {}
    }
    if is_nullary(w) {
    } else if is_unary(w) {
        lemma_decode_unary(fetched, w);
        lemma_same_but_pc_sp_trans(m, fetched, decode_unary(fetched, w).1);
    } else {
        lemma_decode_binary(fetched, w);
        lemma_same_but_pc_sp_trans(m, fetched, decode_binary(fetched, w).1);
    }
}

/// Whether an instruction writes the program counter itself: a jump to a
/// subroutine, a return from a handler, or a write to an operand that is the
/// program counter.
pub open spec fn writes_pc(instruction: Instruction) -> bool {
    match instruction {
        Instruction::Unary { op, operand } => op == UnaryOp::JSR || op == UnaryOp::RFI || ((op
            == UnaryOp::IAG || op == UnaryOp::HWN) && operand matches Operand::Register {
            register: Register::PC,
            ..
        }),
        Instruction::Binary { op, dst, src } => !op.is_conditional() && dst matches Operand::Register {
            register: Register::PC,
            ..
        },
        _ => false,
    }
}

/// An instruction that is no test and does not write the program counter
/// itself leaves it behind its own words: executing the instruction at the
/// program counter advances it by one plus the number of NEXT words.
/// Nothing is skipped.
pub proof fn lemma_pc_advance(m: Machine)
    requires
        m.wf(),
        !is_conditional_word(m.mem(m.pc())),
    ensures
        ({
            let (decoded, fetched) = decode(m);
            let (after, event, skipped) = execute(fetched, decoded.result);
            &&& skipped == 0
            &&& !writes_pc(decoded.result) ==> after.pc() == word(
                m.pc() + length(m.mem(m.pc())),
            )
        }),
{
    lemma_decode_advances(m);
}

/// The writes to the program counter that an instruction makes itself: a
/// jump to a subroutine sets it to its operand, and an operation whose
/// destination is the program counter sets it to its result.
pub proof fn lemma_pc_writes(m: Machine, instruction: Instruction)
    requires
        m.wf(),
    ensures
        instruction matches Instruction::Unary { op: UnaryOp::JSR, operand } ==> execute(
            m,
            instruction,
        ).0.pc() == operand.value(),
        instruction matches Instruction::Binary {
            op,
            dst: Operand::Register { register: Register::PC, value },
            src,
        } ==> (!op.is_conditional() ==> execute(m, instruction).0.pc() == op.result(
            value,
            src.value(),
            m.reg(Register::EX),
        )),
{
}

/// Two resets are one reset.
pub proof fn lemma_reset_idempotent(m: Machine)
    ensures
        reset(reset(m)) == reset(m),
{
}

/// A reset machine has the shape of a machine if its memory and devices do.
pub proof fn lemma_reset_wf(m: Machine)
    requires
        m.wf(),
    ensures
        reset(m).wf(),
{
}

/// The address behind `k` instructions in a row, the first at `pc`.
pub open spec fn behind(memory: Seq<u16>, pc: u16, k: nat) -> u16
    decreases k,
{
    if k == 0 {
        pc
    } else {
        behind(memory, word(pc + length(memory[pc as int])), (k - 1) as nat)
    }
}

/// Whether the `k` instructions in a row from `pc` are all tests.
pub open spec fn all_tests(memory: Seq<u16>, pc: u16, k: nat) -> bool
    decreases k,
{
    k > 0 ==> is_conditional_word(memory[pc as int]) && all_tests(
        memory,
        word(pc + length(memory[pc as int])),
        (k - 1) as nat,
    )
}

/// Skipping over a chain: where `k` tests stand in a row at `pc` and the
/// instruction behind them is no test, skipping from `pc` skips the `k`
/// tests and that instruction, `k + 1` instructions in all, and ends behind
/// them.
pub proof fn lemma_skip_chain(memory: Seq<u16>, pc: u16, k: nat, fuel: nat)
    requires
        k < fuel,
        all_tests(memory, pc, k),
        !is_conditional_word(memory[behind(memory, pc, k) as int]),
    ensures
        skip(memory, pc, fuel) == (behind(memory, pc, k + 1), k + 1),
    decreases k,
{
    let next = word(pc + length(memory[pc as int]));
    if k == 0 {
        assert(behind(memory, pc, 1) == behind(memory, next, 0));
    } else {
        lemma_skip_chain(memory, next, (k - 1) as nat, (fuel - 1) as nat);
        assert(behind(memory, pc, k + 1) == behind(memory, next, k));
    }
}

/// The cost of a failed test. Where the instruction at the program counter
/// is a test that fails, `k` tests follow it in a row, and the instruction
/// behind those is no test, then the `k` tests and that instruction are
/// skipped, nothing but the program counter changes after decoding, and the
/// whole costs the cycles of the failed test and one cycle for each of the
/// `k + 1` skipped instructions.
pub proof fn lemma_failed_test_cost(m: Machine, k: nat)
    requires
        m.wf(),
        m.state == ExecState::Active,
        fails(decode(m).0.result),
        k < SKIP_LIMIT,
        all_tests(m.memory, decode(m).1.pc(), k),
        !is_conditional_word(m.memory[behind(m.memory, decode(m).1.pc(), k) as int]),
    ensures
        ({
            let (decoded, fetched) = decode(m);
            let (after, event, skipped) = execute(fetched, decoded.result);
            &&& skipped == k + 1
            &&& after == fetched.with_reg(
                Register::PC,
                behind(m.memory, fetched.pc(), k + 1),
            )
            &&& run_instruction(m).0.state == ExecState::Busy((decoded.time + k) as u32)
        }),
{
    let (decoded, fetched) = decode(m);
    lemma_decode_advances(m);
    assert(fetched.memory == m.memory);
    assert(fetched.state == m.state);
    lemma_skip_chain(m.memory, fetched.pc(), k, SKIP_LIMIT as nat);
}

/// With the interrupt address zero, an instruction boundary delivers
/// nothing: at most one interrupt leaves the queue, the oldest, and it is
/// dropped. Registers, memory and everything else stay as they were.
pub proof fn lemma_disabled_interrupt_is_dropped(m: Machine)
    requires
        m.reg(Register::IA) == 0,
    ensures
        service_interrupt(m) == (Machine { queue: service_interrupt(m).queue, ..m }),
        interrupt_pending(m) ==> service_interrupt(m).queue == m.queue.skip(1),
        !interrupt_pending(m) ==> service_interrupt(m).queue == m.queue,
        service_interrupt(m).queue.len() + 1 >= m.queue.len(),
{
}

/// At any instruction boundary at most one interrupt leaves the queue.
pub proof fn lemma_one_interrupt_per_boundary(m: Machine)
    ensures
        service_interrupt(m).queue.len() + 1 >= m.queue.len(),
        service_interrupt(m).queue == m.queue || service_interrupt(m).queue == m.queue.skip(1),
{
}

/// PUSH then POP: writing `x` to the operand PUSH and then decoding the
/// operand POP yields `x`, and leaves the stack pointer, and every other
/// register, where it was.
pub proof fn lemma_push_pop(m: Machine, x: u16)
    requires
        m.wf(),
    ensures
        ({
            let (pushed, down) = operand_b(m, 0x18);
            let stored = pushed.result.store(down, x);
            let (popped, up) = operand_a(stored, 0x18);
            &&& popped.result.value() == x
            &&& up.sp() == m.sp()
            &&& up.registers == m.registers
        }),
        m.push(x).pop().0 == x,
        m.push(x).pop().1.registers == m.registers,
{
    let (pushed, down) = operand_b(m, 0x18);
    let stored = pushed.result.store(down, x);
    let (popped, up) = operand_a(stored, 0x18);
    assert(up.registers =~= m.registers);
    assert(m.push(x).pop().1.registers =~= m.registers);
}

/// Returning from a handler undoes the entry into it: `A`, the program
/// counter and the stack pointer are what they were before the interrupt was
/// delivered, as is every other register, and queueing is off again. Of the
/// memory only the two cells below the old stack pointer have changed.
pub proof fn lemma_handler_round_trip(m: Machine, message: u16)
    requires
        m.wf(),
    ensures
        return_from_handler(enter_handler(m, message)).registers == m.registers,
        return_from_handler(enter_handler(m, message)).queueing == false,
        return_from_handler(enter_handler(m, message)).memory == m.memory.update(
            word(m.sp() - 1) as int,
            m.pc(),
        ).update(word(m.sp() - 2) as int, m.reg(Register::A)),
        return_from_handler(enter_handler(m, message)) == (Machine {
            registers: m.registers,
            memory: return_from_handler(enter_handler(m, message)).memory,
            queueing: false,
            ..m
        }),
{
    let entered = enter_handler(m, message);
    let returned = return_from_handler(entered);
    assert(entered.sp() == word(m.sp() - 2));
    assert(entered.mem(entered.sp()) == m.reg(Register::A));
    assert(entered.mem(word(entered.sp() + 1)) == m.pc());
    assert(returned.registers =~= m.registers);
}

/// Triggering an interrupt keeps the shape of a machine: the queue never
/// grows beyond 256.
pub proof fn lemma_trigger_wf(m: Machine, message: u16)
    requires
        m.wf(),
    ensures
        semantics::trigger(m, message).wf(),
{
}

/// Servicing interrupts keeps the shape of a machine.
pub proof fn lemma_service_wf(m: Machine)
    requires
        m.wf(),
    ensures
        service_interrupt(m).wf(),
{
}

/// Executing an instruction keeps the shape of a machine.
pub proof fn lemma_execute_wf(m: Machine, instruction: Instruction)
    requires
        m.wf(),
    ensures
        execute(m, instruction).0.wf(),
{
    match instruction {
        Instruction::Unary { op, operand } => {
            assert(apply_unary(m, op, operand).wf());
        },
        Instruction::Binary { op, dst, src } => {
            assert(apply_binary(m, op, dst, src).wf());
        },
        _ => {},
    }
}

/// A cycle keeps the shape of a machine.
pub proof fn lemma_tick_wf(m: Machine)
    requires
        m.wf(),
    ensures
        tick(m).0.wf(),
{
    match m.state {
        ExecState::Active => {
            let serviced = service_interrupt(m);
            lemma_service_wf(m);
            let (decoded, fetched) = decode(serviced);
            lemma_decode_advances(serviced);
            lemma_execute_wf(fetched, decoded.result);
        },
        ExecState::Hibernating => {
            lemma_service_wf(m.with_state(ExecState::Active));
        },
        _ => {},
    }
}

/// Whether an instruction writes the excess register as its operand: the
/// destination of an operation, or the operand that `IAG` or `HWN` fills.
pub open spec fn writes_ex(instruction: Instruction) -> bool {
    match instruction {
        Instruction::Unary { op, operand } => (op == UnaryOp::IAG || op == UnaryOp::HWN)
            && operand matches Operand::Register { register: Register::EX, .. },
        Instruction::Binary { op, dst, src } => !op.is_conditional() && dst matches Operand::Register {
            register: Register::EX,
            ..
        },
        _ => false,
    }
}

/// Whether an instruction is an operation that defines the excess register.
pub open spec fn defines_excess(instruction: Instruction) -> bool {
    instruction matches Instruction::Binary { op, .. } && op.defines_excess()
}

/// The excess register changes only by the operations that define it, and
/// by a write to it as an operand. Every other instruction preserves it.
pub proof fn lemma_excess_preserved(m: Machine, instruction: Instruction)
    requires
        m.wf(),
        !defines_excess(instruction),
        !writes_ex(instruction),
    ensures
        execute(m, instruction).0.reg(Register::EX) == m.reg(Register::EX),
{
    match instruction {
        Instruction::Unary { op, operand } => {
            assert(apply_unary(m, op, operand).reg(Register::EX) == m.reg(Register::EX));
        },
        Instruction::Binary { op, dst, src } => {
            lemma_excess_kept(op, dst.value(), src.value(), m.reg(Register::EX));
            assert(apply_binary(m, op, dst, src).reg(Register::EX) == m.reg(Register::EX));
        },
        _ => {},
    }
}

/// Nothing happens inside an instruction: a cycle of a busy or sleeping
/// processor changes the execution state and nothing else, and reports
/// nothing. No interrupt is delivered then.
pub proof fn lemma_waiting_cycle_is_idle(m: Machine)
    requires
        waiting(m.state) > 0,
    ensures
        tick(m).0 == m.with_state(tick(m).0.state),
        tick(m).1 == crate::vcpu::semantics::Event::Quiet,
        waiting(tick(m).0.state) == waiting(m.state) - 1,
{
}

/// The machine after `n` cycles.
pub open spec fn after_cycles(m: Machine, n: nat) -> Machine
    decreases n,
{
    if n == 0 {
        m
    } else {
        after_cycles(tick(m).0, (n - 1) as nat)
    }
}

/// Waiting is over after as many cycles as remain of it.
pub proof fn lemma_rested_is_cycles(m: Machine)
    ensures
        after_cycles(m, waiting(m.state)) == rested(m),
    decreases waiting(m.state),
{
    if waiting(m.state) > 0 {
        lemma_waiting_cycle_is_idle(m);
        lemma_rested_is_cycles(tick(m).0);
    }
}

/// Running to the next instruction boundary is running cycle by cycle: the
/// machine that it leaves is the machine after the cycles that it counts,
/// and the processor waits no longer.
pub proof fn lemma_run_is_cycles(m: Machine)
    ensures
        run(m).0 == after_cycles(m, run(m).2),
        waiting(run(m).0.state) == 0,
{
    if m.state != ExecState::Halted {
        lemma_rested_is_cycles(tick(m).0);
    }
}

} // verus!
