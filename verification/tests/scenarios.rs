// Whole programs run from the reset vector against a cycle budget.

use m6502::{Cpu, Memory};

fn boot(program: &[u8]) -> (Cpu, Memory) {
    let mut memory = Memory::new();
    memory.set_reset_vector(0x8000);
    memory.load_program(0x8000, program).unwrap();
    let mut cpu = Cpu::new();
    cpu.reset(&mut memory);
    (cpu, memory)
}

#[test]
fn reset_loads_the_program_counter_from_the_vector() {
    let mut memory = Memory::new();
    memory.set(0xFFFC, 0x34);
    memory.set(0xFFFD, 0x12);
    let mut cpu = Cpu::new();
    assert_eq!(cpu.pc, 0xFFFC);
    assert_eq!(cpu.sp, 0xFD);
    cpu.reg_a = 1;
    cpu.reg_x = 2;
    cpu.reg_y = 3;
    cpu.sp = 0x40;
    cpu.status.carry = true;
    cpu.status.negative = true;
    cpu.reset(&mut memory);
    assert_eq!(cpu.pc, 0x1234);
    assert_eq!((cpu.reg_a, cpu.reg_x, cpu.reg_y), (0, 0, 0));
    assert_eq!(cpu.sp, 0xFD);
    assert!(!cpu.status.carry && !cpu.status.negative && !cpu.status.zero);
    assert_eq!(memory.get(0xFFFC), 0x34);
}

#[test]
fn load_then_nop_then_break() {
    let (mut cpu, mut memory) = boot(&[0xA9, 0x42, 0xEA, 0x00]);
    let consumed = cpu.execute(20, &mut memory);
    assert_eq!(cpu.reg_a, 0x42);
    assert!(!cpu.status.zero);
    assert!(!cpu.status.negative);
    assert!(cpu.status.break_command);
    assert_eq!(cpu.pc, 0x8004);
    // BRK takes whatever is left of the budget.
    assert_eq!(consumed, 20);
}

#[test]
fn shift_left_moves_bit_seven_into_carry() {
    let (mut cpu, mut memory) = boot(&[0xA9, 0x80, 0x0A]);
    let consumed = cpu.execute(4, &mut memory);
    assert_eq!(consumed, 4);
    assert_eq!(cpu.reg_a, 0x00);
    assert!(cpu.status.carry);
    assert!(cpu.status.zero);
    assert!(!cpu.status.negative);
    assert_eq!(cpu.pc, 0x8003);
}

#[test]
fn add_one_and_one() {
    let (mut cpu, mut memory) = boot(&[0xA9, 0x01, 0x69, 0x01]);
    let consumed = cpu.execute(4, &mut memory);
    assert_eq!(consumed, 4);
    assert_eq!(cpu.reg_a, 0x02);
    assert!(!cpu.status.carry);
    assert!(!cpu.status.overflow);
    assert!(!cpu.status.zero);
}

#[test]
fn add_overflows_into_the_sign() {
    let (mut cpu, mut memory) = boot(&[0xA9, 0x7F, 0x69, 0x01]);
    let consumed = cpu.execute(4, &mut memory);
    assert_eq!(consumed, 4);
    assert_eq!(cpu.reg_a, 0x80);
    assert!(!cpu.status.carry);
    assert!(cpu.status.overflow);
    assert!(cpu.status.negative);
}

#[test]
fn countdown_loop_runs_until_x_is_zero() {
    // LDX #3; loop: DEX; BNE loop
    let (mut cpu, mut memory) = boot(&[0xA2, 0x03, 0xCA, 0xD0, 0xFD]);
    // 2 + (2 + 3) + (2 + 3) + (2 + 2)
    let consumed = cpu.execute(16, &mut memory);
    assert_eq!(consumed, 16);
    assert_eq!(cpu.reg_x, 0);
    assert!(cpu.status.zero);
    assert_eq!(cpu.pc, 0x8005);
}

#[test]
fn countdown_loop_stops_mid_way_on_a_short_budget() {
    let (mut cpu, mut memory) = boot(&[0xA2, 0x03, 0xCA, 0xD0, 0xFD]);
    let consumed = cpu.execute(12, &mut memory);
    assert_eq!(consumed, 12);
    assert_eq!(cpu.reg_x, 1);
    assert_eq!(cpu.pc, 0x8002);
}

#[test]
fn indirect_jump_wraps_within_the_page() {
    let (mut cpu, mut memory) = boot(&[0x6C, 0xFF, 0x02]);
    memory.set(0x02FF, 0x34);
    memory.set(0x0300, 0x12);
    memory.set(0x0200, 0x78);
    let consumed = cpu.execute(5, &mut memory);
    assert_eq!(consumed, 5);
    assert_eq!(cpu.pc, 0x7834);
}

#[test]
fn indirect_jump_off_the_page_edge_reads_the_next_byte() {
    let (mut cpu, mut memory) = boot(&[0x6C, 0xFE, 0x02]);
    memory.set(0x02FE, 0x34);
    memory.set(0x02FF, 0x12);
    memory.set(0x0200, 0x78);
    let consumed = cpu.execute(5, &mut memory);
    assert_eq!(consumed, 5);
    assert_eq!(cpu.pc, 0x1234);
}

#[test]
fn the_last_instruction_may_overdraw_the_budget() {
    // LDA $1234 takes four cycles.
    let (mut cpu, mut memory) = boot(&[0xAD, 0x34, 0x12]);
    memory.set(0x1234, 0x99);
    let consumed = cpu.execute(1, &mut memory);
    assert_eq!(consumed, 4);
    assert_eq!(cpu.reg_a, 0x99);
    assert_eq!(cpu.pc, 0x8003);
}

#[test]
fn an_empty_budget_runs_nothing() {
    let (mut cpu, mut memory) = boot(&[0xA9, 0x42]);
    assert_eq!(cpu.execute(0, &mut memory), 0);
    assert_eq!(cpu.execute(-5, &mut memory), 0);
    assert_eq!(cpu.reg_a, 0);
    assert_eq!(cpu.pc, 0x8000);
}

#[test]
fn try_execute_agrees_with_execute() {
    let (mut cpu, mut memory) = boot(&[0xA9, 0x42, 0xEA, 0x00]);
    assert_eq!(cpu.try_execute(20, &mut memory), Ok(20));
    assert_eq!(cpu.reg_a, 0x42);
    assert!(cpu.status.break_command);
    assert_eq!(cpu.pc, 0x8004);
}

#[test]
fn try_execute_reports_an_unimplemented_opcode() {
    // LDA #1, then 0x02, which is not an instruction.
    let (mut cpu, mut memory) = boot(&[0xA9, 0x01, 0x02]);
    let outcome = cpu.try_execute(20, &mut memory);
    assert_eq!(outcome, Err(m6502::UnimplementedOpcode { opcode: 0x02 }));
    // The run stopped in front of the byte, with the load done.
    assert_eq!(cpu.reg_a, 1);
    assert_eq!(cpu.pc, 0x8002);
}

#[test]
fn step_leaves_everything_alone_in_front_of_an_unimplemented_opcode() {
    let (mut cpu, mut memory) = boot(&[0xFF]);
    let before = cpu;
    let mut cycles = 10;
    let outcome = cpu.step(&mut cycles, &mut memory);
    assert_eq!(outcome, Err(m6502::UnimplementedOpcode { opcode: 0xFF }));
    assert_eq!(cpu, before);
    assert_eq!(cycles, 10);
}

#[test]
fn step_runs_exactly_one_instruction() {
    let (mut cpu, mut memory) = boot(&[0xA9, 0x42, 0xA2, 0x07]);
    let mut cycles = 10;
    assert_eq!(cpu.step(&mut cycles, &mut memory), Ok(()));
    assert_eq!(cycles, 8);
    assert_eq!(cpu.reg_a, 0x42);
    assert_eq!(cpu.reg_x, 0);
    assert_eq!(cpu.pc, 0x8002);
}

#[test]
fn store_then_load_round_trips_through_memory() {
    // LDA #$5A; STA $0200; LDX $0200; STX $10; LDY $10
    let (mut cpu, mut memory) =
        boot(&[0xA9, 0x5A, 0x8D, 0x00, 0x02, 0xAE, 0x00, 0x02, 0x86, 0x10, 0xA4, 0x10]);
    let consumed = cpu.execute(16, &mut memory);
    assert_eq!(consumed, 2 + 4 + 4 + 3 + 3);
    assert_eq!(memory.get(0x0200), 0x5A);
    assert_eq!(memory.get(0x0010), 0x5A);
    assert_eq!(cpu.reg_x, 0x5A);
    assert_eq!(cpu.reg_y, 0x5A);
}

#[test]
fn reset_vec_does_what_reset_does() {
    let mut memory = Memory::new();
    memory.set_reset_vector(0xC000);
    let mut first = Cpu::new();
    first.reg_a = 9;
    first.sp = 0x40;
    first.status.overflow = true;
    let mut second = first;
    first.reset(&mut memory);
    second.reset_vec(&mut memory);
    assert_eq!(first, second);
    assert_eq!(first.pc, 0xC000);
    assert_eq!(first.sp, 0xFD);
    assert_eq!(first.reg_a, 0);
    assert!(!first.status.overflow);
}

#[test]
fn next_opcode_peeks_without_fetching() {
    let (cpu, memory) = boot(&[0xEA]);
    assert_eq!(cpu.next_opcode(&memory), 0xEA);
    assert_eq!(cpu.pc, 0x8000);
}

#[test]
fn run_instruction_starts_after_the_opcode() {
    // The operand bytes of LDA $1234 at the program counter.
    let (mut cpu, mut memory) = boot(&[0x34, 0x12]);
    memory.set(0x1234, 0x80);
    let mut cycles = 10;
    let load = m6502::Instruction::new(m6502::Mnemonic::Lda, m6502::Mode::Absolute);
    cpu.run_instruction(load, &mut cycles, &mut memory);
    assert_eq!(cpu.reg_a, 0x80);
    assert!(cpu.status.negative);
    assert_eq!(cpu.pc, 0x8002);
    assert_eq!(cycles, 7);
}

#[test]
fn branch_if_compares_the_flag_with_the_expected_value() {
    for (flag, expected) in [(false, false), (false, true), (true, false), (true, true)] {
        let (mut cpu, memory) = boot(&[0x05]);
        let mut cycles = 10;
        cpu.branch_if(flag, expected, &memory, &mut cycles);
        if flag == expected {
            assert_eq!((cpu.pc, cycles), (0x8006, 8));
        } else {
            assert_eq!((cpu.pc, cycles), (0x8001, 9));
        }
    }
    // Across a page boundary the branch costs one cycle more.
    let (mut cpu, memory) = boot(&[0x80]);
    let mut cycles = 10;
    cpu.branch_if(true, true, &memory, &mut cycles);
    assert_eq!((cpu.pc, cycles), (0x7F81, 7));
}
