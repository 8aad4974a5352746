//! The programmer-visible state of the processor and the primitives that
//! move bytes between it and memory.
//!
//! Every primitive that touches memory charges the cycle counter it is
//! handed: one cycle for each byte read or written.

use vstd::prelude::*;
use crate::bytes::{
    as_signed, high_byte, lemma_wrap_byte_absorbs, low_byte, make_word, peek, peek_word, signed,
    split_word, word_of, wrap_byte, wrap_word,
};
use crate::memory::Memory;
use crate::status::StatusFlags;

verus! {

/// The registers of the 6502.
#[derive(Clone, Copy, Debug, PartialEq, Eq, Structural)]
pub struct Cpu {
    /// The accumulator.
    pub reg_a: u8,
    /// Index register X.
    pub reg_x: u8,
    /// Index register Y.
    pub reg_y: u8,
    /// The processor status.
    pub status: StatusFlags,
    /// The program counter.
    pub pc: u16,
    /// The stack pointer, an offset into page one.
    pub sp: u8,
}

impl Cpu {
    /// The state of a newly built processor.
    pub open spec fn power_on() -> Cpu {
        Cpu { reg_a: 0, reg_x: 0, reg_y: 0, status: StatusFlags::cleared(), pc: 0xFFFC, sp: 0xFD }
    }

    /// The state after a reset against the memory image `mem`: the program
    /// counter comes from the reset vector, A, X, Y and the flags are
    /// cleared, and the stack pointer is back at 0xFD. Nothing of the state
    /// before the reset is left.
    pub open spec fn after_reset(mem: Seq<u8>) -> Cpu {
        Cpu { pc: peek_word(mem, 0xFFFC), ..Cpu::power_on() }
    }

    /// This state with another program counter.
    pub open spec fn with_pc(self, pc: u16) -> Cpu {
        Cpu { pc, ..self }
    }

    /// This state with the program counter moved `n` bytes on, wrapping at
    /// the top of the address space.
    pub open spec fn advance(self, n: int) -> Cpu {
        Cpu { pc: wrap_word(self.pc + n), ..self }
    }

    /// This state with another stack pointer.
    pub open spec fn with_sp(self, sp: u8) -> Cpu {
        Cpu { sp, ..self }
    }

    /// This state with another status register.
    pub open spec fn with_status(self, status: StatusFlags) -> Cpu {
        Cpu { status, ..self }
    }

    /// This state after Z and N have been set from `value`.
    pub open spec fn with_zn(self, value: u8) -> Cpu {
        Cpu { status: self.status.with_zn(value), ..self }
    }

    /// This state after `value` has been loaded into A.
    pub open spec fn load_a(self, value: u8) -> Cpu {
        Cpu { reg_a: value, ..self }.with_zn(value)
    }

    /// This state after `value` has been loaded into X.
    pub open spec fn load_x(self, value: u8) -> Cpu {
        Cpu { reg_x: value, ..self }.with_zn(value)
    }

    /// This state after `value` has been loaded into Y.
    pub open spec fn load_y(self, value: u8) -> Cpu {
        Cpu { reg_y: value, ..self }.with_zn(value)
    }

    /// The address of the stack slot `depth` bytes above the stack pointer,
    /// wrapping within page one. Slot 0 is where the next push writes and
    /// slot 1 is where the next pull reads.
    pub open spec fn stack_slot(self, depth: int) -> u16 {
        (0x100 + wrap_byte(self.sp + depth)) as u16
    }

    /// The address the stack pointer designates: page one, offset `sp`.
    pub open spec fn stack_address(self) -> u16 {
        self.stack_slot(0)
    }

    /// This state after `count` bytes have been pushed: the stack pointer
    /// moves down, wrapping within page one.
    pub open spec fn pushed(self, count: int) -> Cpu {
        Cpu { sp: wrap_byte(self.sp - count), ..self }
    }

    /// This state after `count` bytes have been pulled: the stack pointer
    /// moves up, wrapping within page one.
    pub open spec fn pulled(self, count: int) -> Cpu {
        Cpu { sp: wrap_byte(self.sp + count), ..self }
    }

    /// Builds a processor with A, X and Y zero, the stack pointer at 0xFD,
    /// the program counter at the reset vector and every flag clear.
    pub fn new() -> (cpu: Cpu)
        ensures
            cpu == Cpu::power_on(),
    {
        Cpu {
            reg_a: 0,
            reg_x: 0,
            reg_y: 0,
            status: StatusFlags::default(),
            pc: 0xFFFC,
            sp: 0xFD,
        }
    }

    /// Resets the processor. See `reset_vec`.
    pub fn reset(&mut self, memory: &mut Memory)
        ensures
            *final(self) == Cpu::after_reset(old(memory)@),
            final(memory)@ == old(memory)@,
    {
        self.reset_vec(memory);
    }

    /// Loads the program counter from the little-endian word at 0xFFFC and
    /// 0xFFFD, clears A, X, Y and every flag, and puts the stack pointer
    /// back at 0xFD. Memory is not changed.
    pub fn reset_vec(&mut self, memory: &mut Memory)
        ensures
            *final(self) == Cpu::after_reset(old(memory)@),
            final(memory)@ == old(memory)@,
    {
        self.pc = make_word(memory[0xFFFC], memory[0xFFFD]);
        self.reg_a = 0;
        self.reg_x = 0;
        self.reg_y = 0;
        self.sp = 0xFD;
        self.status = StatusFlags::default();
    }

    /// Reads the byte at the program counter and steps the program counter
    /// past it. Costs one cycle.
    pub fn fetch_byte(&mut self, memory: &Memory, cycles: &mut i32) -> (data: u8)
        requires
            *old(cycles) >= i32::MIN + 1,
        ensures
            data == peek(memory@, old(self).pc),
            *final(self) == old(self).advance(1),
            *final(cycles) == *old(cycles) - 1,
    {
        let data: u8 = memory[self.pc as usize];
        self.pc = self.pc.wrapping_add(1);
        *cycles -= 1;
        data
    }

    /// Fetches a byte as `fetch_byte` does and reads it as a signed number.
    pub fn fetch_sbyte(&mut self, memory: &Memory, cycles: &mut i32) -> (data: i8)
        requires
            *old(cycles) >= i32::MIN + 1,
        ensures
            data == signed(peek(memory@, old(self).pc)),
            *final(self) == old(self).advance(1),
            *final(cycles) == *old(cycles) - 1,
    {
        as_signed(self.fetch_byte(memory, cycles))
    }

    /// Fetches a little-endian word at the program counter and steps the
    /// program counter past it. Costs two cycles.
    pub fn fetch_word(&mut self, memory: &Memory, cycles: &mut i32) -> (data: u16)
        requires
            *old(cycles) >= i32::MIN + 2,
        ensures
            data == peek_word(memory@, old(self).pc),
            *final(self) == old(self).advance(2),
            *final(cycles) == *old(cycles) - 2,
    {
        let lo: u8 = self.fetch_byte(memory, cycles);
        let hi: u8 = self.fetch_byte(memory, cycles);
        make_word(lo, hi)
    }

    /// Reads the byte at `address`. Costs one cycle.
    pub fn read_byte(&self, memory: &Memory, address: u16, cycles: &mut i32) -> (data: u8)
        requires
            *old(cycles) >= i32::MIN + 1,
        ensures
            data == peek(memory@, address),
            *final(cycles) == *old(cycles) - 1,
    {
        *cycles -= 1;
        memory[address as usize]
    }

    /// Reads the little-endian word at `address`; the high byte comes from
    /// the next address, wrapping at the top of the address space. Costs two
    /// cycles.
    pub fn read_word(&self, memory: &Memory, address: u16, cycles: &mut i32) -> (data: u16)
        requires
            *old(cycles) >= i32::MIN + 2,
        ensures
            data == peek_word(memory@, address),
            *final(cycles) == *old(cycles) - 2,
    {
        *cycles -= 2;
        let lo: u8 = memory[address as usize];
        let hi: u8 = memory[address.wrapping_add(1) as usize];
        make_word(lo, hi)
    }

    /// Writes `value` at `address`. Costs one cycle.
    pub fn write_byte(&self, memory: &mut Memory, address: u16, value: u8, cycles: &mut i32)
        requires
            *old(cycles) >= i32::MIN + 1,
        ensures
            final(memory)@ == old(memory)@.update(address as int, value),
            *final(cycles) == *old(cycles) - 1,
    {
        *cycles -= 1;
        memory.set(address as usize, value);
    }

    /// Writes `value` at `address`, low byte first; the high byte goes to
    /// the next address, wrapping at the top of the address space. Costs two
    /// cycles.
    pub fn write_word(&self, memory: &mut Memory, address: u16, value: u16, cycles: &mut i32)
        requires
            *old(cycles) >= i32::MIN + 2,
        ensures
            final(memory)@ == old(memory)@.update(address as int, low_byte(value)).update(
                wrap_word(address + 1) as int,
                high_byte(value),
            ),
            *final(cycles) == *old(cycles) - 2,
    {
        *cycles -= 2;
        let (lo, hi) = split_word(value);
        memory.set(address as usize, lo);
        memory.set(address.wrapping_add(1) as usize, hi);
    }

    /// The address the stack pointer designates, in page one.
    pub fn sp_to_address(&self) -> (address: u16)
        ensures
            address == self.stack_address(),
    {
        let sp: u16 = self.sp as u16;
        assert(0x100u16 | sp == 0x100 + sp) by (bit_vector)
            requires
                sp < 0x100,
        ;
        0x100 | sp
    }

    /// Pushes one byte: writes it at the stack address, then moves the stack
    /// pointer down. Costs one cycle.
    pub fn push_byte_to_stack(&mut self, memory: &mut Memory, value: u8, cycles: &mut i32)
        requires
            *old(cycles) >= i32::MIN + 1,
        ensures
            final(memory)@ == old(memory)@.update(old(self).stack_slot(0) as int, value),
            *final(self) == old(self).pushed(1),
            *final(cycles) == *old(cycles) - 1,
    {
        self.write_byte(memory, self.sp_to_address(), value, cycles);
        self.sp = self.sp.wrapping_sub(1);
    }

    /// Pushes a word, high byte first, so that the low byte ends up at the
    /// lower address. Costs two cycles.
    pub fn push_word_to_stack(&mut self, memory: &mut Memory, value: u16, cycles: &mut i32)
        requires
            *old(cycles) >= i32::MIN + 2,
        ensures
            final(memory)@ == old(memory)@.update(
                old(self).stack_slot(0) as int,
                high_byte(value),
            ).update(old(self).stack_slot(-1) as int, low_byte(value)),
            *final(self) == old(self).pushed(2),
            *final(cycles) == *old(cycles) - 2,
    {
        let (lo, hi) = split_word(value);
        self.push_byte_to_stack(memory, hi, cycles);
        self.push_byte_to_stack(memory, lo, cycles);
        proof {
            lemma_stack_moves_compose(*old(self), -1, -1);
        }
    }

    /// Pushes the program counter as `push_word_to_stack` does.
    pub fn push_pc_to_stack(&mut self, memory: &mut Memory, cycles: &mut i32)
        requires
            *old(cycles) >= i32::MIN + 2,
        ensures
            final(memory)@ == old(memory)@.update(
                old(self).stack_slot(0) as int,
                high_byte(old(self).pc),
            ).update(old(self).stack_slot(-1) as int, low_byte(old(self).pc)),
            *final(self) == old(self).pushed(2),
            *final(cycles) == *old(cycles) - 2,
    {
        self.push_word_to_stack(memory, self.pc, cycles);
    }

    /// Pulls one byte: moves the stack pointer up, then reads the byte it
    /// designates. Costs one cycle.
    pub fn pull_byte_from_stack(&mut self, memory: &Memory, cycles: &mut i32) -> (value: u8)
        requires
            *old(cycles) >= i32::MIN + 1,
        ensures
            value == peek(memory@, old(self).stack_slot(1)),
            *final(self) == old(self).pulled(1),
            *final(cycles) == *old(cycles) - 1,
    {
        self.sp = self.sp.wrapping_add(1);
        self.read_byte(memory, self.sp_to_address(), cycles)
    }

    /// Pulls a word, low byte first. Costs two cycles.
    pub fn pull_word_from_stack(&mut self, memory: &Memory, cycles: &mut i32) -> (value: u16)
        requires
            *old(cycles) >= i32::MIN + 2,
        ensures
            value == word_of(
                peek(memory@, old(self).stack_slot(1)),
                peek(memory@, old(self).stack_slot(2)),
            ),
            *final(self) == old(self).pulled(2),
            *final(cycles) == *old(cycles) - 2,
    {
        let lo: u8 = self.pull_byte_from_stack(memory, cycles);
        let hi: u8 = self.pull_byte_from_stack(memory, cycles);
        proof {
            lemma_stack_moves_compose(*old(self), 1, 1);
        }
        make_word(lo, hi)
    }
}

/// Moving the stack pointer in two steps is moving it once by the sum, and
/// a slot seen from a moved stack pointer is the slot that much further
/// from the first one.
pub proof fn lemma_stack_moves_compose(cpu: Cpu, first: int, second: int)
    ensures
        cpu.pulled(first).pulled(second) == cpu.pulled(first + second),
        cpu.pulled(first).stack_slot(second) == cpu.stack_slot(first + second),
        cpu.pushed(-first) == cpu.pulled(first),
{
    lemma_wrap_byte_absorbs(cpu.sp + first, second);
}

} // verus!
