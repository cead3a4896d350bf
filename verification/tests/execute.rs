use hivemind::vcpu::cpu::{Executed, Run, VCPU16};
use hivemind::vcpu::instruction::{BinaryOp, Instruction, UnaryOp};
use hivemind::vcpu::machine::ExecState;
use hivemind::vcpu::operand::Operand;
use hivemind::vcpu::register::Register;
use hivemind::vcpu::semantics::Event;

fn word(op: u16, b: u16, a: u16) -> u16 {
    (a << 10) | (b << 5) | op
}

fn literal(n: u16) -> u16 {
    0x21 + n
}

fn program(words: &[u16]) -> VCPU16 {
    let mut cpu = VCPU16::new();
    let mut address: u16 = 0;
    for w in words {
        cpu.set_memory(address, *w);
        address += 1;
    }
    cpu
}

fn quiet(cycles: u64) -> Run {
    Run { cycles, event: Event::Quiet }
}

#[test]
fn new_processor_is_zero_and_active() {
    let cpu = VCPU16::new();
    assert_eq!(cpu.get_a(), 0);
    assert_eq!(cpu.get_b(), 0);
    assert_eq!(cpu.get_c(), 0);
    assert_eq!(cpu.get_x(), 0);
    assert_eq!(cpu.get_y(), 0);
    assert_eq!(cpu.get_z(), 0);
    assert_eq!(cpu.get_i(), 0);
    assert_eq!(cpu.get_j(), 0);
    assert_eq!(cpu.get_pc(), 0);
    assert_eq!(cpu.get_sp(), 0);
    assert_eq!(cpu.get_ex(), 0);
    assert_eq!(cpu.get_ia(), 0);
    assert_eq!(cpu.get_memory(0), 0);
    assert_eq!(cpu.get_memory(0xFFFF), 0);
    assert_eq!(cpu.state(), ExecState::Active);
    assert!(!cpu.queueing_enabled());
    assert_eq!(cpu.queued_interrupts(), 0);
    assert_eq!(cpu.device_count(), 0);
}

#[test]
fn registers_are_set_and_read_one_by_one() {
    let mut cpu = VCPU16::new();
    let all = [
        Register::A,
        Register::B,
        Register::C,
        Register::X,
        Register::Y,
        Register::Z,
        Register::I,
        Register::J,
        Register::PC,
        Register::SP,
        Register::EX,
        Register::IA,
    ];
    let mut value: u16 = 0x100;
    for r in all {
        cpu.set_register(r, value);
        value += 1;
    }
    assert_eq!(cpu.get_a(), 0x100);
    assert_eq!(cpu.get_b(), 0x101);
    assert_eq!(cpu.get_c(), 0x102);
    assert_eq!(cpu.get_x(), 0x103);
    assert_eq!(cpu.get_y(), 0x104);
    assert_eq!(cpu.get_z(), 0x105);
    assert_eq!(cpu.get_i(), 0x106);
    assert_eq!(cpu.get_j(), 0x107);
    assert_eq!(cpu.get_pc(), 0x108);
    assert_eq!(cpu.get_sp(), 0x109);
    assert_eq!(cpu.get_ex(), 0x10A);
    assert_eq!(cpu.get_ia(), 0x10B);
    assert_eq!(cpu.get_register(Register::Z), 0x105);
}

#[test]
fn set_then_sub_with_small_literal() {
    // SET A, 0x10 (NEXT literal); SUB A, 1
    let mut cpu = program(&[0x7C01, 0x0010, 0x8803]);
    let first = cpu.step_instruction();
    assert_eq!(first, quiet(2));
    assert_eq!(cpu.get_a(), 0x0010);
    assert_eq!(cpu.get_pc(), 2);
    let second = cpu.step_instruction();
    assert_eq!(second, quiet(2));
    assert_eq!(cpu.get_a(), 0x000F);
    assert_eq!(cpu.get_ex(), 0);
    assert_eq!(cpu.get_pc(), 3);
    assert_eq!(first.cycles + second.cycles, 4);
}

#[test]
fn set_then_sub_of_literal_zero() {
    // The word 0x8403 is SUB A, 0: its a-field is 0x21, the literal 0.
    let mut cpu = program(&[0x7C01, 0x0010, 0x8403]);
    let cycles = cpu.step_instruction().cycles + cpu.step_instruction().cycles;
    assert_eq!(cycles, 4);
    assert_eq!(cpu.get_a(), 0x0010);
    assert_eq!(cpu.get_ex(), 0);
    assert_eq!(cpu.get_pc(), 3);
}

#[test]
fn div_by_zero_is_no_fault() {
    let mut cpu = program(&[word(0x06, 0x00, literal(0))]);
    cpu.set_register(Register::A, 5);
    cpu.set_register(Register::EX, 0x1234);
    assert_eq!(cpu.step_instruction(), quiet(3));
    assert_eq!(cpu.get_a(), 0);
    assert_eq!(cpu.get_ex(), 0);
    assert_eq!(cpu.state(), ExecState::Active);
    assert_eq!(cpu.get_pc(), 1);
}

#[test]
fn passing_test_runs_the_next_instruction() {
    // IFE A, A; SET B, 7
    let mut cpu = program(&[0x0012, 0xA021]);
    let first = cpu.step_instruction();
    assert_eq!(first, quiet(2));
    assert_eq!(cpu.get_pc(), 1);
    let second = cpu.step_instruction();
    assert_eq!(second, quiet(1));
    assert_eq!(cpu.get_b(), 7);
    assert_eq!(cpu.get_pc(), 2);
    assert_eq!(first.cycles + second.cycles, 3);
}

#[test]
fn failing_test_skips_the_next_instruction() {
    // IFN A, A; SET B, 7
    let mut cpu = program(&[0x0013, 0xA021]);
    assert_eq!(cpu.step_instruction(), quiet(3));
    assert_eq!(cpu.get_b(), 0);
    assert_eq!(cpu.get_pc(), 2);
}

#[test]
fn failing_test_skips_a_chain_of_tests() {
    // IFN A, A; IFE A, NEXT; IFG [NEXT], NEXT; SET B, 7; SET C, 9
    let mut cpu = program(&[
        0x0013,
        word(0x12, 0x00, 0x1F),
        0x1234,
        word(0x14, 0x1E, 0x1F),
        0x0100,
        0x0200,
        0xA021,
        word(0x01, 0x02, literal(9)),
    ]);
    cpu.set_register(Register::SP, 0x8000);
    assert_eq!(cpu.step_instruction(), quiet(5));
    assert_eq!(cpu.get_pc(), 7);
    assert_eq!(cpu.get_b(), 0);
    assert_eq!(cpu.get_sp(), 0x8000);
    assert_eq!(cpu.step_instruction(), quiet(1));
    assert_eq!(cpu.get_c(), 9);
    assert_eq!(cpu.get_pc(), 8);
}

#[test]
fn failing_test_with_next_words_costs_them_too() {
    // IFE [NEXT], NEXT; ADD A, NEXT; SET B, 1
    let mut cpu = program(&[
        word(0x12, 0x1E, 0x1F),
        0x0100,
        0x0001,
        word(0x02, 0x00, 0x1F),
        0x0005,
        word(0x01, 0x01, literal(1)),
    ]);
    assert_eq!(cpu.step_instruction(), quiet(5));
    assert_eq!(cpu.get_pc(), 5);
    assert_eq!(cpu.get_a(), 0);
    assert_eq!(cpu.step_instruction(), quiet(1));
    assert_eq!(cpu.get_b(), 1);
}

#[test]
fn skipping_does_not_touch_the_stack() {
    // IFN A, A; SET PUSH, POP
    let mut cpu = program(&[0x0013, word(0x01, 0x18, 0x18)]);
    cpu.set_register(Register::SP, 0x0100);
    assert_eq!(cpu.step_instruction(), quiet(3));
    assert_eq!(cpu.get_sp(), 0x0100);
    assert_eq!(cpu.get_pc(), 2);
}

#[test]
fn a_memory_full_of_failing_tests_stops_skipping() {
    // IFN A, A everywhere: the chain of tests runs in a circle.
    let mut image: Vec<u8> = Vec::with_capacity(131072);
    for _ in 0..65536 {
        image.push(0x13);
        image.push(0x00);
    }
    let mut cpu = VCPU16::new();
    cpu.load_memory(&image).unwrap();
    assert_eq!(cpu.step(), Event::Quiet);
    assert_eq!(cpu.state(), ExecState::Busy(2 + 65536 - 1));
    assert_eq!(cpu.get_pc(), 1);
}

#[test]
fn signed_remainder_keeps_the_sign_of_the_dividend() {
    // MDI A, 16 with A = -7
    let mut cpu = program(&[word(0x09, 0x00, literal(16))]);
    cpu.set_register(Register::A, 0xFFF9);
    assert_eq!(cpu.step_instruction(), quiet(3));
    assert_eq!(cpu.get_a(), 0xFFF9);
}

#[test]
fn jsr_pushes_the_return_address() {
    // At 2: JSR A, with A = 0x1000
    let mut cpu = VCPU16::new();
    cpu.set_memory(2, word(0x00, 0x01, 0x00));
    cpu.set_register(Register::PC, 2);
    cpu.set_register(Register::A, 0x1000);
    assert_eq!(cpu.step_instruction(), quiet(3));
    assert_eq!(cpu.get_memory(0xFFFF), 0x0003);
    assert_eq!(cpu.get_sp(), 0xFFFF);
    assert_eq!(cpu.get_pc(), 0x1000);
}

#[test]
fn jsr_with_next_word_returns_behind_it() {
    // At 2: JSR 0x1000, the address in the NEXT word
    let mut cpu = VCPU16::new();
    cpu.set_memory(2, word(0x00, 0x01, 0x1F));
    cpu.set_memory(3, 0x1000);
    cpu.set_register(Register::PC, 2);
    assert_eq!(cpu.step_instruction(), quiet(4));
    assert_eq!(cpu.get_memory(0xFFFF), 0x0004);
    assert_eq!(cpu.get_sp(), 0xFFFF);
    assert_eq!(cpu.get_pc(), 0x1000);
}

#[test]
fn push_then_pop_restores_the_stack() {
    // SET PUSH, 0x1234; SET A, POP
    let mut cpu = program(&[word(0x01, 0x18, 0x1F), 0x1234, word(0x01, 0x00, 0x18)]);
    cpu.set_register(Register::SP, 0x0042);
    assert_eq!(cpu.step_instruction(), quiet(2));
    assert_eq!(cpu.get_sp(), 0x0041);
    assert_eq!(cpu.get_memory(0x0041), 0x1234);
    assert_eq!(cpu.step_instruction(), quiet(1));
    assert_eq!(cpu.get_a(), 0x1234);
    assert_eq!(cpu.get_sp(), 0x0042);
}

#[test]
fn push_and_pop_by_hand() {
    let mut cpu = VCPU16::new();
    cpu.push(0xAAAA);
    cpu.push(0xBBBB);
    assert_eq!(cpu.get_sp(), 0xFFFE);
    assert_eq!(cpu.get_memory(0xFFFF), 0xAAAA);
    assert_eq!(cpu.get_memory(0xFFFE), 0xBBBB);
    assert_eq!(cpu.pop(), 0xBBBB);
    assert_eq!(cpu.pop(), 0xAAAA);
    assert_eq!(cpu.get_sp(), 0);
}

#[test]
fn destination_next_word_comes_first() {
    // SET [NEXT], NEXT
    let mut cpu = program(&[word(0x01, 0x1E, 0x1F), 0x2000, 0xBEEF]);
    assert_eq!(cpu.step_instruction(), quiet(3));
    assert_eq!(cpu.get_memory(0x2000), 0xBEEF);
    assert_eq!(cpu.get_pc(), 3);
}

#[test]
fn write_to_a_literal_is_dropped() {
    // SET 5, A: the destination is the literal NEXT
    let mut cpu = program(&[word(0x01, 0x1F, 0x00), 0x0005]);
    cpu.set_register(Register::A, 0x7777);
    assert_eq!(cpu.step_instruction(), quiet(2));
    assert_eq!(cpu.get_memory(1), 0x0005);
    assert_eq!(cpu.get_a(), 0x7777);
    assert_eq!(cpu.get_pc(), 2);

    let mut cpu = VCPU16::new();
    cpu.write(Operand::Literal { value: 1 }, 2);
    cpu.write(Operand::Register { register: Register::X, value: 0 }, 3);
    cpu.write(Operand::Memory { address: 9, value: 0 }, 4);
    assert_eq!(cpu.get_x(), 3);
    assert_eq!(cpu.get_memory(9), 4);
}

#[test]
fn write_to_the_program_counter_jumps() {
    // SET PC, 0x0200
    let mut cpu = program(&[word(0x01, 0x1C, 0x1F), 0x0200]);
    assert_eq!(cpu.step_instruction(), quiet(2));
    assert_eq!(cpu.get_pc(), 0x0200);
    // ADD PC, 2 at 0x0200 adds to the address behind the instruction
    cpu.set_memory(0x0200, word(0x02, 0x1C, literal(2)));
    assert_eq!(cpu.step_instruction(), quiet(2));
    assert_eq!(cpu.get_pc(), 0x0203);
}

#[test]
fn program_counter_advances_by_the_instruction_length() {
    // ADD [A + NEXT], [NEXT]; XOR B, PEEK; NOP
    let mut cpu = program(&[
        word(0x02, 0x10, 0x1E),
        0x0010,
        0x0020,
        word(0x0C, 0x01, 0x19),
        0x0000,
    ]);
    cpu.step_instruction();
    assert_eq!(cpu.get_pc(), 3);
    cpu.step_instruction();
    assert_eq!(cpu.get_pc(), 4);
    cpu.step_instruction();
    assert_eq!(cpu.get_pc(), 5);
}

#[test]
fn arithmetic_sets_excess_and_other_operations_keep_it() {
    // ADD A, 0xFFFF; SET B, 1; MOD A, 3
    let mut cpu = program(&[
        word(0x02, 0x00, 0x1F),
        0xFFFF,
        word(0x01, 0x01, literal(1)),
        word(0x08, 0x00, literal(3)),
    ]);
    cpu.set_register(Register::A, 5);
    cpu.step_instruction();
    assert_eq!(cpu.get_a(), 4);
    assert_eq!(cpu.get_ex(), 1);
    cpu.step_instruction();
    assert_eq!(cpu.get_ex(), 1);
    cpu.step_instruction();
    assert_eq!(cpu.get_a(), 1);
    assert_eq!(cpu.get_ex(), 1);
}

#[test]
fn result_written_to_excess_wins_over_the_flag() {
    // ADD EX, 1 with EX = 0xFFFF: the sum, 0, is written last.
    let mut cpu = program(&[word(0x02, 0x1D, literal(1))]);
    cpu.set_register(Register::EX, 0xFFFF);
    cpu.step_instruction();
    assert_eq!(cpu.get_ex(), 0);
    // SET EX, 5
    let mut cpu = program(&[word(0x01, 0x1D, literal(5))]);
    cpu.step_instruction();
    assert_eq!(cpu.get_ex(), 5);
}

#[test]
fn sti_and_std_step_i_and_j() {
    // STI A, 9; STD B, 4; STD C, 1; STD X, 1
    let mut cpu = program(&[
        word(0x1E, 0x00, literal(9)),
        word(0x1F, 0x01, literal(4)),
        word(0x1F, 0x02, literal(1)),
        word(0x1F, 0x03, literal(1)),
    ]);
    assert_eq!(cpu.step_instruction(), quiet(2));
    assert_eq!(cpu.get_a(), 9);
    assert_eq!(cpu.get_i(), 1);
    assert_eq!(cpu.get_j(), 1);
    assert_eq!(cpu.step_instruction(), quiet(2));
    assert_eq!(cpu.get_b(), 4);
    assert_eq!(cpu.get_i(), 0);
    assert_eq!(cpu.get_j(), 0);
    cpu.step_instruction();
    assert_eq!(cpu.get_i(), 0xFFFF);
    assert_eq!(cpu.get_j(), 0xFFFF);
    // STI I, 5: the write comes first, the step second
    let mut cpu = program(&[word(0x1E, 0x06, literal(5))]);
    cpu.step_instruction();
    assert_eq!(cpu.get_i(), 6);
    assert_eq!(cpu.get_j(), 1);
}

#[test]
fn execute_applies_a_decoded_instruction() {
    let mut cpu = VCPU16::new();
    cpu.set_register(Register::B, 7);
    let done = cpu.execute(Instruction::Binary {
        op: BinaryOp::MUL,
        dst: Operand::Register { register: Register::B, value: 7 },
        src: Operand::Literal { value: 6 },
    });
    assert_eq!(done, Executed { event: Event::Quiet, skipped: 0 });
    assert_eq!(cpu.get_b(), 42);
    assert_eq!(cpu.get_ex(), 0);
    assert_eq!(cpu.get_pc(), 0);

    assert_eq!(cpu.execute(Instruction::NOP), Executed { event: Event::Quiet, skipped: 0 });
    assert_eq!(cpu.execute(Instruction::ERR), Executed { event: Event::DecodeError, skipped: 0 });
    assert_eq!(cpu.state(), ExecState::Active);
    assert_eq!(cpu.execute(Instruction::HIB), Executed { event: Event::Quiet, skipped: 0 });
    assert_eq!(cpu.state(), ExecState::Hibernating);
}

#[test]
fn execute_works_on_the_captured_values() {
    let mut cpu = VCPU16::new();
    cpu.set_register(Register::A, 100);
    // The operand says that A was 5 when it was decoded.
    cpu.execute(Instruction::Binary {
        op: BinaryOp::ADD,
        dst: Operand::Register { register: Register::A, value: 5 },
        src: Operand::Literal { value: 1 },
    });
    assert_eq!(cpu.get_a(), 6);
}

#[test]
fn execute_skips_behind_a_failed_test() {
    let mut cpu = program(&[0x0000, word(0x12, 0x00, 0x01), 0x0000]);
    let done = cpu.execute(Instruction::Binary {
        op: BinaryOp::IFG,
        dst: Operand::Literal { value: 1 },
        src: Operand::Literal { value: 2 },
    });
    assert_eq!(done, Executed { event: Event::Quiet, skipped: 1 });
    assert_eq!(cpu.get_pc(), 1);
    let done = cpu.execute(Instruction::Binary {
        op: BinaryOp::IFG,
        dst: Operand::Literal { value: 1 },
        src: Operand::Literal { value: 2 },
    });
    assert_eq!(done, Executed { event: Event::Quiet, skipped: 2 });
    assert_eq!(cpu.get_pc(), 3);
    let done = cpu.execute(Instruction::Binary {
        op: BinaryOp::IFL,
        dst: Operand::Literal { value: 1 },
        src: Operand::Literal { value: 2 },
    });
    assert_eq!(done, Executed { event: Event::Quiet, skipped: 0 });
    assert_eq!(cpu.get_pc(), 3);
}

#[test]
fn reserved_encodings_are_reported_and_do_nothing() {
    // nullary 0x02, unary 0x03 with NEXT, binary 0x18 with PUSH
    let mut cpu = program(&[0x0800, word(0x00, 0x03, 0x1F), 0x4444, word(0x18, 0x18, 0x00)]);
    cpu.set_register(Register::A, 3);
    assert_eq!(cpu.step_instruction(), Run { cycles: 1, event: Event::DecodeError });
    assert_eq!(cpu.get_pc(), 1);
    assert_eq!(cpu.step_instruction(), Run { cycles: 2, event: Event::DecodeError });
    assert_eq!(cpu.get_pc(), 3);
    assert_eq!(cpu.step_instruction(), Run { cycles: 1, event: Event::DecodeError });
    assert_eq!(cpu.get_pc(), 4);
    assert_eq!(cpu.get_sp(), 0xFFFF);
    assert_eq!(cpu.get_a(), 3);
    assert_eq!(cpu.get_memory(0xFFFF), 0);
    assert_eq!(cpu.state(), ExecState::Active);
}

#[test]
fn unary_operations_on_the_interrupt_address() {
    // IAS 0x0300; IAG B; IAQ 1; IAQ 0
    let mut cpu = program(&[
        word(0x00, 0x0A, 0x1F),
        0x0300,
        word(0x00, 0x09, 0x01),
        word(0x00, 0x0C, literal(1)),
        word(0x00, 0x0C, literal(0)),
    ]);
    assert_eq!(cpu.step_instruction(), quiet(2));
    assert_eq!(cpu.get_ia(), 0x0300);
    assert_eq!(cpu.step_instruction(), quiet(1));
    assert_eq!(cpu.get_b(), 0x0300);
    assert_eq!(cpu.step_instruction(), quiet(2));
    assert!(cpu.queueing_enabled());
    assert_eq!(cpu.step_instruction(), quiet(2));
    assert!(!cpu.queueing_enabled());
    assert_eq!(
        cpu.execute(Instruction::Unary {
            op: UnaryOp::IAS,
            operand: Operand::Literal { value: 0x0077 },
        }),
        Executed { event: Event::Quiet, skipped: 0 }
    );
    assert_eq!(cpu.get_ia(), 0x0077);
}
