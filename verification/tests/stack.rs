// The stack, subroutine calls and the status byte.

use m6502::{Cpu, Memory, StatusFlags};

fn boot(program: &[u8]) -> (Cpu, Memory) {
    let mut memory = Memory::new();
    memory.set_reset_vector(0x8000);
    memory.load_program(0x8000, program).unwrap();
    let mut cpu = Cpu::new();
    cpu.reset(&mut memory);
    (cpu, memory)
}

#[test]
fn stack_pointer_designates_page_one() {
    let mut cpu = Cpu::new();
    assert_eq!(cpu.sp_to_address(), 0x01FD);
    cpu.sp = 0x00;
    assert_eq!(cpu.sp_to_address(), 0x0100);
    cpu.sp = 0xFF;
    assert_eq!(cpu.sp_to_address(), 0x01FF);
}

#[test]
fn push_writes_then_moves_down_and_pull_moves_up_then_reads() {
    let mut cpu = Cpu::new();
    let mut memory = Memory::new();
    let mut cycles = 10;
    cpu.push_byte_to_stack(&mut memory, 0xAB, &mut cycles);
    assert_eq!(memory.get(0x01FD), 0xAB);
    assert_eq!(cpu.sp, 0xFC);
    assert_eq!(cycles, 9);
    assert_eq!(cpu.pull_byte_from_stack(&memory, &mut cycles), 0xAB);
    assert_eq!(cpu.sp, 0xFD);
    assert_eq!(cycles, 8);
}

#[test]
fn the_stack_pointer_wraps_within_page_one() {
    let mut cpu = Cpu::new();
    let mut memory = Memory::new();
    let mut cycles = 10;
    cpu.sp = 0x00;
    cpu.push_byte_to_stack(&mut memory, 0x11, &mut cycles);
    assert_eq!(memory.get(0x0100), 0x11);
    assert_eq!(cpu.sp, 0xFF);
    cpu.push_byte_to_stack(&mut memory, 0x22, &mut cycles);
    assert_eq!(memory.get(0x01FF), 0x22);
    assert_eq!(cpu.sp, 0xFE);
    assert_eq!(cpu.pull_byte_from_stack(&memory, &mut cycles), 0x22);
    assert_eq!(cpu.pull_byte_from_stack(&memory, &mut cycles), 0x11);
    assert_eq!(cpu.sp, 0x00);
}

#[test]
fn a_word_goes_on_the_stack_high_byte_first() {
    let mut cpu = Cpu::new();
    let mut memory = Memory::new();
    let mut cycles = 10;
    cpu.push_word_to_stack(&mut memory, 0x1234, &mut cycles);
    assert_eq!(memory.get(0x01FD), 0x12);
    assert_eq!(memory.get(0x01FC), 0x34);
    assert_eq!(cpu.sp, 0xFB);
    assert_eq!(cycles, 8);
    assert_eq!(cpu.pull_word_from_stack(&memory, &mut cycles), 0x1234);
    assert_eq!(cpu.sp, 0xFD);
    assert_eq!(cycles, 6);
}

#[test]
fn push_pc_pushes_the_program_counter() {
    let mut cpu = Cpu::new();
    let mut memory = Memory::new();
    let mut cycles = 10;
    cpu.pc = 0xBEEF;
    cpu.push_pc_to_stack(&mut memory, &mut cycles);
    assert_eq!((memory.get(0x01FD), memory.get(0x01FC)), (0xBE, 0xEF));
    assert_eq!((cpu.sp, cpu.pc, cycles), (0xFB, 0xBEEF, 8));
}

#[test]
fn pha_pushes_a_single_byte() {
    // LDA #$42; PHA
    let (mut cpu, mut memory) = boot(&[0xA9, 0x42, 0x48]);
    memory.set(0x01FC, 0x77);
    assert_eq!(cpu.execute(5, &mut memory), 5);
    assert_eq!(memory.get(0x01FD), 0x42);
    assert_eq!(memory.get(0x01FC), 0x77);
    assert_eq!(cpu.sp, 0xFC);
}

#[test]
fn pla_pulls_what_pha_pushed() {
    // LDA #$80; PHA; LDA #$00; PLA
    let (mut cpu, mut memory) = boot(&[0xA9, 0x80, 0x48, 0xA9, 0x00, 0x68]);
    assert_eq!(cpu.execute(11, &mut memory), 2 + 3 + 2 + 4);
    assert_eq!(cpu.reg_a, 0x80);
    assert_eq!(cpu.sp, 0xFD);
    assert!(cpu.status.negative);
    assert!(!cpu.status.zero);
}

#[test]
fn pla_sets_zero_from_the_pulled_byte() {
    let (mut cpu, mut memory) = boot(&[0x68]);
    cpu.reg_a = 0x55;
    cpu.sp = 0x10;
    memory.set(0x0111, 0x00);
    assert_eq!(cpu.execute(4, &mut memory), 4);
    assert_eq!(cpu.reg_a, 0x00);
    assert_eq!(cpu.sp, 0x11);
    assert!(cpu.status.zero);
    assert!(!cpu.status.negative);
}

fn flags(bits: [bool; 7]) -> StatusFlags {
    StatusFlags {
        carry: bits[0],
        zero: bits[1],
        interrupt_disable: bits[2],
        decimal_mode: bits[3],
        break_command: bits[4],
        overflow: bits[5],
        negative: bits[6],
        unused: false,
    }
}

#[test]
fn the_status_byte_has_the_documented_layout() {
    assert_eq!(StatusFlags::default().to_byte(), 0x20);
    let masks = [0x01u8, 0x02, 0x04, 0x08, 0x10, 0x40, 0x80];
    for (i, mask) in masks.iter().enumerate() {
        let mut bits = [false; 7];
        bits[i] = true;
        assert_eq!(flags(bits).to_byte(), mask | 0x20);
    }
    assert_eq!(flags([true; 7]).to_byte(), 0xFF);
    // The unused bit reads as one whatever the field holds.
    let mut with_unused = StatusFlags::default();
    with_unused.unused = true;
    assert_eq!(with_unused.to_byte(), 0x20);
}

#[test]
fn a_pulled_status_byte_sets_six_flags() {
    for byte in 0..=255u8 {
        for kept in [false, true] {
            let mut status = StatusFlags::default();
            status.break_command = kept;
            status.unused = kept;
            status.restore_from_byte(byte);
            assert_eq!(status.carry, byte & 0x01 != 0);
            assert_eq!(status.zero, byte & 0x02 != 0);
            assert_eq!(status.interrupt_disable, byte & 0x04 != 0);
            assert_eq!(status.decimal_mode, byte & 0x08 != 0);
            assert_eq!(status.overflow, byte & 0x40 != 0);
            assert_eq!(status.negative, byte & 0x80 != 0);
            // Bits 4 and 5 of the byte are not looked at.
            assert_eq!(status.break_command, kept);
            assert_eq!(status.unused, kept);
        }
    }
}

#[test]
fn the_status_byte_round_trips() {
    for bits in 0..128u8 {
        let pushed = flags([
            bits & 1 != 0,
            bits & 2 != 0,
            bits & 4 != 0,
            bits & 8 != 0,
            bits & 16 != 0,
            bits & 32 != 0,
            bits & 64 != 0,
        ]);
        let mut pulled = pushed;
        pulled.restore_from_byte(pushed.to_byte());
        assert_eq!(pulled, pushed);

        let mut other = flags([true; 7]);
        other.break_command = false;
        other.restore_from_byte(pushed.to_byte());
        let mut expected = pushed;
        expected.break_command = false;
        assert_eq!(other, expected);
    }
}

#[test]
fn php_pushes_one_status_byte() {
    // SEC; SED; PHP
    let (mut cpu, mut memory) = boot(&[0x38, 0xF8, 0x08]);
    assert_eq!(cpu.execute(7, &mut memory), 7);
    assert_eq!(memory.get(0x01FD), 0x01 | 0x08 | 0x20);
    assert_eq!(memory.get(0x01FC), 0x00);
    assert_eq!(cpu.sp, 0xFC);
}

#[test]
fn plp_restores_the_flags() {
    let (mut cpu, mut memory) = boot(&[0x28]);
    memory.set(0x01FE, 0x80 | 0x40 | 0x02 | 0x01);
    assert_eq!(cpu.execute(4, &mut memory), 4);
    assert_eq!(cpu.sp, 0xFE);
    assert!(cpu.status.negative && cpu.status.overflow && cpu.status.zero && cpu.status.carry);
    assert!(!cpu.status.decimal_mode && !cpu.status.interrupt_disable);
    assert!(!cpu.status.break_command);
}

#[test]
fn plp_ignores_the_break_and_unused_bits() {
    let (mut cpu, mut memory) = boot(&[0x28]);
    memory.set(0x01FE, 0xFF);
    assert_eq!(cpu.execute(4, &mut memory), 4);
    assert!(cpu.status.negative && cpu.status.overflow && cpu.status.decimal_mode);
    assert!(cpu.status.interrupt_disable && cpu.status.zero && cpu.status.carry);
    assert!(!cpu.status.break_command);
    assert!(!cpu.status.unused);

    let (mut cpu, mut memory) = boot(&[0x28]);
    cpu.status.break_command = true;
    memory.set(0x01FE, 0x00);
    assert_eq!(cpu.execute(4, &mut memory), 4);
    assert!(cpu.status.break_command);
    assert!(!cpu.status.carry && !cpu.status.negative);
}

#[test]
fn php_then_plp_gives_the_flags_back() {
    // SEC; SEI; PHP; CLC; CLI; PLP
    let (mut cpu, mut memory) = boot(&[0x38, 0x78, 0x08, 0x18, 0x58, 0x28]);
    assert_eq!(cpu.execute(15, &mut memory), 2 + 2 + 3 + 2 + 2 + 4);
    assert!(cpu.status.carry);
    assert!(cpu.status.interrupt_disable);
    assert_eq!(cpu.sp, 0xFD);
}

#[test]
fn jsr_pushes_the_address_of_its_last_byte() {
    let (mut cpu, mut memory) = boot(&[0x20, 0x34, 0x12]);
    assert_eq!(cpu.execute(6, &mut memory), 6);
    assert_eq!(cpu.pc, 0x1234);
    assert_eq!(cpu.sp, 0xFB);
    assert_eq!(memory.get(0x01FD), 0x80);
    assert_eq!(memory.get(0x01FC), 0x02);
}

#[test]
fn rts_returns_to_the_instruction_after_the_call() {
    // 0x8000: JSR $9000; LDA #$42    0x9000: LDX #$07; RTS
    let (mut cpu, mut memory) = boot(&[0x20, 0x00, 0x90, 0xA9, 0x42]);
    memory.load_program(0x9000, &[0xA2, 0x07, 0x60]).unwrap();
    assert_eq!(cpu.execute(14, &mut memory), 6 + 2 + 6);
    assert_eq!(cpu.pc, 0x8003);
    assert_eq!(cpu.sp, 0xFD);
    assert_eq!(cpu.reg_x, 0x07);
    assert_eq!(cpu.execute(2, &mut memory), 2);
    assert_eq!(cpu.reg_a, 0x42);
}

#[test]
fn rts_continues_one_past_the_pulled_address() {
    let (mut cpu, mut memory) = boot(&[0x60]);
    cpu.sp = 0xFB;
    memory.set(0x01FC, 0xFF);
    memory.set(0x01FD, 0x12);
    assert_eq!(cpu.execute(6, &mut memory), 6);
    assert_eq!(cpu.pc, 0x1300);
    assert_eq!(cpu.sp, 0xFD);
}

#[test]
fn nested_calls_return_in_order() {
    // 0x8000: JSR $9000; NOP
    // 0x9000: JSR $A000; INX; RTS
    // 0xA000: INY; RTS
    let (mut cpu, mut memory) = boot(&[0x20, 0x00, 0x90, 0xEA]);
    memory.load_program(0x9000, &[0x20, 0x00, 0xA0, 0xE8, 0x60]).unwrap();
    memory.load_program(0xA000, &[0xC8, 0x60]).unwrap();
    assert_eq!(cpu.execute(6 + 6 + 2 + 6 + 2 + 6, &mut memory), 28);
    assert_eq!(cpu.pc, 0x8003);
    assert_eq!((cpu.reg_x, cpu.reg_y, cpu.sp), (1, 1, 0xFD));
}

#[test]
fn rti_pulls_status_then_the_program_counter_unadjusted() {
    let (mut cpu, mut memory) = boot(&[0x40]);
    cpu.sp = 0xFA;
    memory.set(0x01FB, 0x80 | 0x01);
    memory.set(0x01FC, 0x34);
    memory.set(0x01FD, 0x12);
    assert_eq!(cpu.execute(6, &mut memory), 6);
    assert_eq!(cpu.pc, 0x1234);
    assert_eq!(cpu.sp, 0xFD);
    assert!(cpu.status.negative && cpu.status.carry);
    assert!(!cpu.status.zero && !cpu.status.overflow);
    assert!(!cpu.status.break_command);
}

#[test]
fn txs_and_tsx_move_the_stack_pointer() {
    // LDX #$00; TXS; LDX #$55; TSX
    let (mut cpu, mut memory) = boot(&[0xA2, 0x00, 0x9A, 0xA2, 0x55, 0xBA]);
    cpu.execute(4, &mut memory);
    assert_eq!(cpu.sp, 0x00);
    // TXS left Z as LDX #0 set it.
    assert!(cpu.status.zero);
    cpu.execute(4, &mut memory);
    assert_eq!(cpu.reg_x, 0x00);
    assert!(cpu.status.zero);
}

#[test]
fn call_and_return_helpers_start_after_the_opcode() {
    // The operand of a JSR $9000 whose opcode sits at 0x7FFF.
    let (mut cpu, mut memory) = boot(&[0x00, 0x90]);
    let mut cycles = 10;
    cpu.jump_to_subroutine(&mut cycles, &mut memory);
    assert_eq!((cpu.pc, cpu.sp, cycles), (0x9000, 0xFB, 5));
    assert_eq!((memory.get(0x01FD), memory.get(0x01FC)), (0x80, 0x01));

    cpu.return_from_subroutine(&mut cycles, &memory);
    assert_eq!((cpu.pc, cpu.sp, cycles), (0x8002, 0xFD, 0));

    let mut cpu = Cpu::new();
    cpu.sp = 0xFF;
    cpu.status.break_command = true;
    let mut memory = Memory::new();
    memory.set(0x0100, 0x40 | 0x02);
    memory.set(0x0101, 0xCD);
    memory.set(0x0102, 0xAB);
    let mut cycles = 10;
    cpu.return_from_interrupt(&mut cycles, &memory);
    assert_eq!((cpu.pc, cpu.sp, cycles), (0xABCD, 0x02, 5));
    assert!(cpu.status.overflow && cpu.status.zero && cpu.status.break_command);
    assert!(!cpu.status.carry && !cpu.status.negative);
}
