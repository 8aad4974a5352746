// The addressing-mode helpers and the byte-level primitives under them.

use m6502::{Access, Cpu, Memory, Mode};

fn at(pc: u16, program: &[u8]) -> (Cpu, Memory) {
    let mut memory = Memory::new();
    for (i, byte) in program.iter().enumerate() {
        memory.set((pc as usize + i) % 0x10000, *byte);
    }
    let mut cpu = Cpu::new();
    cpu.pc = pc;
    (cpu, memory)
}

#[test]
fn fetch_byte_reads_at_the_program_counter_and_steps_it() {
    let (mut cpu, memory) = at(0x8000, &[0x11, 0x22]);
    let mut cycles = 5;
    assert_eq!(cpu.fetch_byte(&memory, &mut cycles), 0x11);
    assert_eq!(cpu.fetch_byte(&memory, &mut cycles), 0x22);
    assert_eq!(cpu.pc, 0x8002);
    assert_eq!(cycles, 3);
}

#[test]
fn fetch_wraps_the_program_counter_at_the_top_of_memory() {
    let (mut cpu, memory) = at(0xFFFF, &[0x34, 0x12]);
    let mut cycles = 5;
    assert_eq!(cpu.fetch_word(&memory, &mut cycles), 0x1234);
    assert_eq!(cpu.pc, 0x0001);
    assert_eq!(cycles, 3);
}

#[test]
fn fetch_sbyte_reads_twos_complement() {
    let (mut cpu, memory) = at(0x8000, &[0x00, 0x7F, 0x80, 0xFD, 0xFF]);
    let mut cycles = 0;
    assert_eq!(cpu.fetch_sbyte(&memory, &mut cycles), 0);
    assert_eq!(cpu.fetch_sbyte(&memory, &mut cycles), 127);
    assert_eq!(cpu.fetch_sbyte(&memory, &mut cycles), -128);
    assert_eq!(cpu.fetch_sbyte(&memory, &mut cycles), -3);
    assert_eq!(cpu.fetch_sbyte(&memory, &mut cycles), -1);
    assert_eq!(cycles, -5);
    assert_eq!(cpu.pc, 0x8005);
}

#[test]
fn read_and_write_cost_one_cycle_per_byte() {
    let cpu = Cpu::new();
    let mut memory = Memory::new();
    let mut cycles = 10;
    cpu.write_byte(&mut memory, 0x0200, 0xAB, &mut cycles);
    assert_eq!(cycles, 9);
    assert_eq!(cpu.read_byte(&memory, 0x0200, &mut cycles), 0xAB);
    assert_eq!(cycles, 8);
    cpu.write_word(&mut memory, 0x0300, 0xBEEF, &mut cycles);
    assert_eq!(cycles, 6);
    assert_eq!((memory.get(0x0300), memory.get(0x0301)), (0xEF, 0xBE));
    assert_eq!(cpu.read_word(&memory, 0x0300, &mut cycles), 0xBEEF);
    assert_eq!(cycles, 4);
}

#[test]
fn word_access_wraps_at_the_top_of_memory() {
    let cpu = Cpu::new();
    let mut memory = Memory::new();
    let mut cycles = 10;
    cpu.write_word(&mut memory, 0xFFFF, 0x1234, &mut cycles);
    assert_eq!((memory.get(0xFFFF), memory.get(0x0000)), (0x34, 0x12));
    assert_eq!(cpu.read_word(&memory, 0xFFFF, &mut cycles), 0x1234);
}

#[test]
fn zero_page_modes() {
    let (mut cpu, memory) = at(0x8000, &[0x42]);
    let mut cycles = 10;
    assert_eq!(cpu.addr_zero_page(&mut cycles, &memory), 0x0042);
    assert_eq!((cpu.pc, cycles), (0x8001, 9));

    let (mut cpu, memory) = at(0x8000, &[0x42]);
    cpu.reg_x = 0x10;
    let mut cycles = 10;
    assert_eq!(cpu.addr_zero_page_x(&mut cycles, &memory), 0x0052);
    assert_eq!((cpu.pc, cycles), (0x8001, 8));

    let (mut cpu, memory) = at(0x8000, &[0x42]);
    cpu.reg_y = 0x01;
    let mut cycles = 10;
    assert_eq!(cpu.addr_zero_page_y(&mut cycles, &memory), 0x0043);
    assert_eq!((cpu.pc, cycles), (0x8001, 8));
}

#[test]
fn zero_page_indexing_wraps_within_page_zero() {
    let (mut cpu, memory) = at(0x8000, &[0xF0]);
    cpu.reg_x = 0x20;
    let mut cycles = 10;
    assert_eq!(cpu.addr_zero_page_x(&mut cycles, &memory), 0x0010);

    let (mut cpu, memory) = at(0x8000, &[0xFF]);
    cpu.reg_y = 0xFF;
    let mut cycles = 10;
    assert_eq!(cpu.addr_zero_page_y(&mut cycles, &memory), 0x00FE);
}

#[test]
fn absolute_modes() {
    let (mut cpu, memory) = at(0x8000, &[0x34, 0x12]);
    let mut cycles = 10;
    assert_eq!(cpu.addr_absolute(&mut cycles, &memory), 0x1234);
    assert_eq!((cpu.pc, cycles), (0x8002, 8));

    let (mut cpu, memory) = at(0x8000, &[0x34, 0x12]);
    cpu.reg_x = 0x10;
    let mut cycles = 10;
    assert_eq!(cpu.addr_absolute_x(&mut cycles, &memory), 0x1244);
    assert_eq!((cpu.pc, cycles), (0x8002, 8));

    let (mut cpu, memory) = at(0x8000, &[0x34, 0x12]);
    cpu.reg_y = 0xCB;
    let mut cycles = 10;
    assert_eq!(cpu.addr_absolute_y(&mut cycles, &memory), 0x12FF);
    assert_eq!((cpu.pc, cycles), (0x8002, 8));
}

#[test]
fn absolute_indexing_pays_for_a_page_crossing_on_reads() {
    let (mut cpu, memory) = at(0x8000, &[0xF0, 0x12]);
    cpu.reg_x = 0x10;
    let mut cycles = 10;
    assert_eq!(cpu.addr_absolute_x(&mut cycles, &memory), 0x1300);
    assert_eq!(cycles, 7);

    let (mut cpu, memory) = at(0x8000, &[0xF0, 0x12]);
    cpu.reg_y = 0xFF;
    let mut cycles = 10;
    assert_eq!(cpu.addr_absolute_y(&mut cycles, &memory), 0x13EF);
    assert_eq!(cycles, 7);

    // The sum wraps at the top of memory, which is a page crossing too.
    let (mut cpu, memory) = at(0x8000, &[0xFF, 0xFF]);
    cpu.reg_x = 0x01;
    let mut cycles = 10;
    assert_eq!(cpu.addr_absolute_x(&mut cycles, &memory), 0x0000);
    assert_eq!(cycles, 7);
}

#[test]
fn absolute_indexing_for_writes_always_pays() {
    for (index, address) in [(0x00u8, 0x12F0u16), (0x0F, 0x12FF), (0x10, 0x1300)] {
        let (mut cpu, memory) = at(0x8000, &[0xF0, 0x12]);
        cpu.reg_x = index;
        let mut cycles = 10;
        assert_eq!(cpu.addr_absolute_x_5(&mut cycles, &memory), address);
        assert_eq!((cpu.pc, cycles), (0x8002, 7));

        let (mut cpu, memory) = at(0x8000, &[0xF0, 0x12]);
        cpu.reg_y = index;
        let mut cycles = 10;
        assert_eq!(cpu.addr_absolute_y_5(&mut cycles, &memory), address);
        assert_eq!((cpu.pc, cycles), (0x8002, 7));
    }
}

#[test]
fn indexed_indirect_reads_its_pointer_from_page_zero() {
    let (mut cpu, mut memory) = at(0x8000, &[0x20]);
    memory.set(0x0024, 0x74);
    memory.set(0x0025, 0x20);
    cpu.reg_x = 0x04;
    let mut cycles = 10;
    assert_eq!(cpu.addr_indirect_x(&mut cycles, &memory), 0x2074);
    assert_eq!((cpu.pc, cycles), (0x8001, 6));
}

#[test]
fn indexed_indirect_wraps_within_page_zero() {
    // Slot 0xF0 + 0x0F = 0xFF: low byte at 0xFF, high byte at 0x00.
    let (mut cpu, mut memory) = at(0x8000, &[0xF0]);
    memory.set(0x00FF, 0x34);
    memory.set(0x0000, 0x12);
    memory.set(0x0100, 0x99);
    cpu.reg_x = 0x0F;
    let mut cycles = 10;
    assert_eq!(cpu.addr_indirect_x(&mut cycles, &memory), 0x1234);

    // Slot 0xF0 + 0x20 wraps to 0x10.
    let (mut cpu, mut memory) = at(0x8000, &[0xF0]);
    memory.set(0x0010, 0x78);
    memory.set(0x0011, 0x56);
    cpu.reg_x = 0x20;
    let mut cycles = 10;
    assert_eq!(cpu.addr_indirect_x(&mut cycles, &memory), 0x5678);
}

#[test]
fn indirect_indexed_adds_y_to_the_pointer() {
    let (mut cpu, mut memory) = at(0x8000, &[0x86]);
    memory.set(0x0086, 0x28);
    memory.set(0x0087, 0x40);
    cpu.reg_y = 0x10;
    let mut cycles = 10;
    assert_eq!(cpu.addr_indirect_y(&mut cycles, &memory), 0x4038);
    assert_eq!((cpu.pc, cycles), (0x8001, 7));

    // Crossing a page costs a cycle.
    let (mut cpu, mut memory) = at(0x8000, &[0x86]);
    memory.set(0x0086, 0xF8);
    memory.set(0x0087, 0x40);
    cpu.reg_y = 0x10;
    let mut cycles = 10;
    assert_eq!(cpu.addr_indirect_y(&mut cycles, &memory), 0x4108);
    assert_eq!(cycles, 6);

    // The pointer itself wraps within page zero.
    let (mut cpu, mut memory) = at(0x8000, &[0xFF]);
    memory.set(0x00FF, 0x00);
    memory.set(0x0000, 0x30);
    memory.set(0x0100, 0x77);
    cpu.reg_y = 0x05;
    let mut cycles = 10;
    assert_eq!(cpu.addr_indirect_y(&mut cycles, &memory), 0x3005);
    assert_eq!(cycles, 7);
}

#[test]
fn indirect_indexed_for_writes_always_pays() {
    for (index, address) in [(0x00u8, 0x40F8u16), (0x07, 0x40FF), (0x08, 0x4100)] {
        let (mut cpu, mut memory) = at(0x8000, &[0x86]);
        memory.set(0x0086, 0xF8);
        memory.set(0x0087, 0x40);
        cpu.reg_y = index;
        let mut cycles = 10;
        assert_eq!(cpu.addr_indirect_y_6(&mut cycles, &memory), address);
        assert_eq!((cpu.pc, cycles), (0x8001, 6));
    }
}

#[test]
fn indirect_does_not_carry_into_the_page() {
    let (mut cpu, mut memory) = at(0x8000, &[0xFF, 0x02]);
    memory.set(0x02FF, 0x34);
    memory.set(0x0300, 0x12);
    memory.set(0x0200, 0x78);
    let mut cycles = 10;
    assert_eq!(cpu.addr_indirect_mp(&mut cycles, &memory), 0x7834);
    assert_eq!((cpu.pc, cycles), (0x8002, 6));

    let (mut cpu, mut memory) = at(0x8000, &[0x20, 0x01]);
    memory.set(0x0120, 0xFC);
    memory.set(0x0121, 0xBA);
    let mut cycles = 10;
    assert_eq!(cpu.addr_indirect_mp(&mut cycles, &memory), 0xBAFC);
    assert_eq!((cpu.pc, cycles), (0x8002, 6));
}

#[test]
fn operand_address_picks_the_helper_for_the_mode() {
    let pointer = |memory: &mut Memory| {
        memory.set(0x0010, 0xF0);
        memory.set(0x0011, 0x20);
        memory.set(0x0015, 0x00);
        memory.set(0x0016, 0x30);
        memory.set(0x10F0, 0xCD);
        memory.set(0x10F1, 0xAB);
    };
    // (mode, access, X, Y) -> (address, program counter, cycles)
    let cases = [
        ((Mode::Immediate, Access::Read, 0u8, 0u8), (0x8000u16, 0x8001u16, 0)),
        ((Mode::ZeroPage, Access::Read, 0, 0), (0x0010, 0x8001, 1)),
        ((Mode::ZeroPageX, Access::Read, 5, 0), (0x0015, 0x8001, 2)),
        ((Mode::ZeroPageY, Access::Write, 0, 6), (0x0016, 0x8001, 2)),
        ((Mode::Absolute, Access::Write, 0, 0), (0x1010, 0x8002, 2)),
        ((Mode::AbsoluteX, Access::Read, 5, 0), (0x1015, 0x8002, 2)),
        ((Mode::AbsoluteX, Access::Read, 0xF0, 0), (0x1100, 0x8002, 3)),
        ((Mode::AbsoluteX, Access::Write, 5, 0), (0x1015, 0x8002, 3)),
        ((Mode::AbsoluteY, Access::Read, 0, 5), (0x1015, 0x8002, 2)),
        ((Mode::AbsoluteY, Access::Read, 0, 0xF0), (0x1100, 0x8002, 3)),
        ((Mode::AbsoluteY, Access::Write, 0, 5), (0x1015, 0x8002, 3)),
        ((Mode::IndirectX, Access::Read, 5, 0), (0x3000, 0x8001, 4)),
        ((Mode::IndirectY, Access::Read, 0, 5), (0x20F5, 0x8001, 3)),
        ((Mode::IndirectY, Access::Read, 0, 0x10), (0x2100, 0x8001, 4)),
        ((Mode::IndirectY, Access::Write, 0, 5), (0x20F5, 0x8001, 4)),
        ((Mode::Indirect, Access::Read, 0, 0), (0x20F0, 0x8002, 4)),
    ];
    for ((mode, access, x, y), (address, pc, cost)) in cases {
        let (mut cpu, mut memory) = at(0x8000, &[0x10, 0x10]);
        pointer(&mut memory);
        if mode == Mode::Indirect {
            // The operand word 0x1010 points at the target's low byte.
            memory.set(0x1010, 0xF0);
            memory.set(0x1011, 0x20);
        }
        cpu.reg_x = x;
        cpu.reg_y = y;
        let mut cycles = 10;
        let found = cpu.operand_address(mode, access, &mut cycles, &memory);
        assert_eq!((found, cpu.pc, 10 - cycles), (address, pc, cost), "{:?} {:?}", mode, access);
    }
}

#[test]
fn a_word_in_page_zero_never_leaves_page_zero() {
    let cpu = Cpu::new();
    let mut memory = Memory::new();
    memory.set(0x0080, 0xCD);
    memory.set(0x0081, 0xAB);
    memory.set(0x00FF, 0x34);
    memory.set(0x0000, 0x12);
    memory.set(0x0100, 0x99);
    let mut cycles = 10;
    assert_eq!(cpu.read_zero_page_word(&memory, 0x80, &mut cycles), 0xABCD);
    assert_eq!(cycles, 8);
    assert_eq!(cpu.read_zero_page_word(&memory, 0xFF, &mut cycles), 0x1234);
    assert_eq!(cycles, 6);
}
