//! The addressing modes: where an instruction finds its operand and what the
//! address calculation costs.
//!
//! Throughout, the processor state handed to a specification function is the
//! state just after the opcode fetch, so that `cpu.pc` designates the first
//! operand byte.

use vstd::prelude::*;
use crate::bytes::{
    make_word, on_same_page, peek, peek_word, peek_zero_page_word, same_page, word_of,
    wrap_byte, wrap_word,
};
use crate::cpu::Cpu;
use crate::decode::{Access, Mode};
use crate::memory::Memory;

verus! {

/// The byte that follows the opcode.
pub open spec fn operand_byte(cpu: Cpu, mem: Seq<u8>) -> u8 {
    peek(mem, cpu.pc)
}

/// The little-endian word that follows the opcode.
pub open spec fn operand_word(cpu: Cpu, mem: Seq<u8>) -> u16 {
    peek_word(mem, cpu.pc)
}

/// Where an indirect jump through `ptr` reads the high byte of its target.
/// When the pointer sits on the last byte of a page the high byte comes from
/// the first byte of that same page, not from the next page.
pub open spec fn indirect_high_address(ptr: u16) -> u16 {
    if ptr % 256 == 255 {
        (ptr - 255) as u16
    } else {
        (ptr + 1) as u16
    }
}

/// The address an indexed mode starts from, before the index register is
/// added. For the other modes it is the effective address.
pub open spec fn base_address(mode: Mode, cpu: Cpu, mem: Seq<u8>) -> u16 {
    match mode {
        Mode::AbsoluteX | Mode::AbsoluteY => operand_word(cpu, mem),
        Mode::IndirectY => peek_zero_page_word(mem, operand_byte(cpu, mem)),
        _ => effective_address(mode, cpu, mem),
    }
}

/// The address at which an instruction in the given mode reads or writes its
/// operand. The modes that have no operand in memory yield the address of
/// the byte after the opcode.
pub open spec fn effective_address(mode: Mode, cpu: Cpu, mem: Seq<u8>) -> u16 {
    match mode {
        Mode::ZeroPage => operand_byte(cpu, mem) as u16,
        Mode::ZeroPageX => wrap_byte(operand_byte(cpu, mem) + cpu.reg_x) as u16,
        Mode::ZeroPageY => wrap_byte(operand_byte(cpu, mem) + cpu.reg_y) as u16,
        Mode::Absolute => operand_word(cpu, mem),
        Mode::AbsoluteX => wrap_word(operand_word(cpu, mem) + cpu.reg_x),
        Mode::AbsoluteY => wrap_word(operand_word(cpu, mem) + cpu.reg_y),
        Mode::IndirectX => peek_zero_page_word(
            mem,
            wrap_byte(operand_byte(cpu, mem) + cpu.reg_x),
        ),
        Mode::IndirectY => wrap_word(
            peek_zero_page_word(mem, operand_byte(cpu, mem)) + cpu.reg_y,
        ),
        Mode::Indirect => {
            let ptr = operand_word(cpu, mem);
            word_of(peek(mem, ptr), peek(mem, indirect_high_address(ptr)))
        },
        Mode::Immediate | Mode::Relative | Mode::Implied | Mode::Accumulator => cpu.pc,
    }
}

/// Whether indexing moved the address onto another page than its base.
pub open spec fn page_crossed(mode: Mode, cpu: Cpu, mem: Seq<u8>) -> bool {
    !same_page(base_address(mode, cpu, mem), effective_address(mode, cpu, mem))
}

/// The extra cycle of the modes indexed over a full address: always charged
/// to an instruction that writes, charged to one that only reads when the
/// index crosses a page.
pub open spec fn index_penalty(mode: Mode, access: Access, cpu: Cpu, mem: Seq<u8>) -> int {
    if access is Write || page_crossed(mode, cpu, mem) {
        1
    } else {
        0
    }
}

/// The cycles an address calculation costs after the opcode fetch and
/// before the operand itself is accessed: the operand bytes fetched, the
/// pointer bytes read and the indexing cycle.
pub open spec fn addressing_cycles(mode: Mode, access: Access, cpu: Cpu, mem: Seq<u8>) -> int {
    match mode {
        Mode::ZeroPage => 1,
        Mode::ZeroPageX | Mode::ZeroPageY => 2,
        Mode::Absolute => 2,
        Mode::AbsoluteX | Mode::AbsoluteY => 2 + index_penalty(mode, access, cpu, mem),
        Mode::IndirectX => 4,
        Mode::IndirectY => 3 + index_penalty(mode, access, cpu, mem),
        Mode::Indirect => 4,
        Mode::Immediate | Mode::Relative | Mode::Implied | Mode::Accumulator => 0,
    }
}

impl Cpu {
    /// Zero page: the operand byte is the address.
    pub fn addr_zero_page(&mut self, cycles: &mut i32, memory: &Memory) -> (address: u16)
        requires
            *old(cycles) >= i32::MIN + 1,
        ensures
            address == effective_address(Mode::ZeroPage, *old(self), memory@),
            address < 0x100,
            *final(self) == old(self).advance(1),
            *final(cycles) == *old(cycles) - 1,
    {
        let zp_addr: u8 = self.fetch_byte(memory, cycles);
        zp_addr as u16
    }

    /// Absolute: the operand word is the address.
    pub fn addr_absolute(&mut self, cycles: &mut i32, memory: &Memory) -> (address: u16)
        requires
            *old(cycles) >= i32::MIN + 2,
        ensures
            address == effective_address(Mode::Absolute, *old(self), memory@),
            *final(self) == old(self).advance(2),
            *final(cycles) == *old(cycles) - 2,
    {
        self.fetch_word(memory, cycles)
    }

    /// Zero page,X: the operand byte plus X, wrapping within page zero. The
    /// addition costs a cycle.
    pub fn addr_zero_page_x(&mut self, cycles: &mut i32, memory: &Memory) -> (address: u16)
        requires
            *old(cycles) >= i32::MIN + 2,
        ensures
            address == effective_address(Mode::ZeroPageX, *old(self), memory@),
            address < 0x100,
            *final(self) == old(self).advance(1),
            *final(cycles) == *old(cycles) - 2,
    {
        let zp_addr: u8 = self.fetch_byte(memory, cycles).wrapping_add(self.reg_x);
        *cycles -= 1;
        zp_addr as u16
    }

    /// Zero page,Y: the operand byte plus Y, wrapping within page zero. The
    /// addition costs a cycle.
    pub fn addr_zero_page_y(&mut self, cycles: &mut i32, memory: &Memory) -> (address: u16)
        requires
            *old(cycles) >= i32::MIN + 2,
        ensures
            address == effective_address(Mode::ZeroPageY, *old(self), memory@),
            address < 0x100,
            *final(self) == old(self).advance(1),
            *final(cycles) == *old(cycles) - 2,
    {
        let zp_addr: u8 = self.fetch_byte(memory, cycles).wrapping_add(self.reg_y);
        *cycles -= 1;
        zp_addr as u16
    }

    /// Absolute,X for instructions that only read: the operand word plus X.
    /// Costs one cycle more when the sum lies on another page than the
    /// operand word.
    pub fn addr_absolute_x(&mut self, cycles: &mut i32, memory: &Memory) -> (address: u16)
        requires
            *old(cycles) >= i32::MIN + 3,
        ensures
            address == effective_address(Mode::AbsoluteX, *old(self), memory@),
            *final(self) == old(self).advance(2),
            *final(cycles) == *old(cycles) - 2 - (if page_crossed(
                Mode::AbsoluteX,
                *old(self),
                memory@,
            ) {
                1int
            } else {
                0int
            }),
    {
        let base: u16 = self.fetch_word(memory, cycles);
        let addr: u16 = base.wrapping_add(self.reg_x as u16);
        if !on_same_page(base, addr) {
            *cycles -= 1;
        }
        addr
    }

    /// Absolute,X for instructions that write: the operand word plus X. The
    /// indexing cycle is always charged.
    pub fn addr_absolute_x_5(&mut self, cycles: &mut i32, memory: &Memory) -> (address: u16)
        requires
            *old(cycles) >= i32::MIN + 3,
        ensures
            address == effective_address(Mode::AbsoluteX, *old(self), memory@),
            *final(self) == old(self).advance(2),
            *final(cycles) == *old(cycles) - 3,
    {
        let base: u16 = self.fetch_word(memory, cycles);
        let addr: u16 = base.wrapping_add(self.reg_x as u16);
        *cycles -= 1;
        addr
    }

    /// Absolute,Y for instructions that only read: the operand word plus Y.
    /// Costs one cycle more when the sum lies on another page than the
    /// operand word.
    pub fn addr_absolute_y(&mut self, cycles: &mut i32, memory: &Memory) -> (address: u16)
        requires
            *old(cycles) >= i32::MIN + 3,
        ensures
            address == effective_address(Mode::AbsoluteY, *old(self), memory@),
            *final(self) == old(self).advance(2),
            *final(cycles) == *old(cycles) - 2 - (if page_crossed(
                Mode::AbsoluteY,
                *old(self),
                memory@,
            ) {
                1int
            } else {
                0int
            }),
    {
        let base: u16 = self.fetch_word(memory, cycles);
        let addr: u16 = base.wrapping_add(self.reg_y as u16);
        if !on_same_page(base, addr) {
            *cycles -= 1;
        }
        addr
    }

    /// Absolute,Y for instructions that write: the operand word plus Y. The
    /// indexing cycle is always charged.
    pub fn addr_absolute_y_5(&mut self, cycles: &mut i32, memory: &Memory) -> (address: u16)
        requires
            *old(cycles) >= i32::MIN + 3,
        ensures
            address == effective_address(Mode::AbsoluteY, *old(self), memory@),
            *final(self) == old(self).advance(2),
            *final(cycles) == *old(cycles) - 3,
    {
        let base: u16 = self.fetch_word(memory, cycles);
        let addr: u16 = base.wrapping_add(self.reg_y as u16);
        *cycles -= 1;
        addr
    }

    /// Reads the little-endian word stored in page zero at slot `zp`. The
    /// high byte comes from the next slot of page zero, so the read never
    /// leaves page zero. Costs two cycles.
    pub fn read_zero_page_word(&self, memory: &Memory, zp: u8, cycles: &mut i32) -> (data: u16)
        requires
            *old(cycles) >= i32::MIN + 2,
        ensures
            data == peek_zero_page_word(memory@, zp),
            *final(cycles) == *old(cycles) - 2,
    {
        let lo: u8 = self.read_byte(memory, zp as u16, cycles);
        let hi: u8 = self.read_byte(memory, zp.wrapping_add(1) as u16, cycles);
        make_word(lo, hi)
    }

    /// (Indirect,X): the operand byte plus X, wrapping within page zero,
    /// designates the page-zero slot that holds the address. The addition
    /// costs a cycle and the two pointer bytes one cycle each.
    pub fn addr_indirect_x(&mut self, cycles: &mut i32, memory: &Memory) -> (address: u16)
        requires
            *old(cycles) >= i32::MIN + 4,
        ensures
            address == effective_address(Mode::IndirectX, *old(self), memory@),
            *final(self) == old(self).advance(1),
            *final(cycles) == *old(cycles) - 4,
    {
        let zp_addr: u8 = self.fetch_byte(memory, cycles).wrapping_add(self.reg_x);
        *cycles -= 1;
        self.read_zero_page_word(memory, zp_addr, cycles)
    }

    /// (Indirect),Y for instructions that only read: the page-zero slot at
    /// the operand byte holds a base address, to which Y is added. Costs one
    /// cycle more when the sum lies on another page than the base.
    pub fn addr_indirect_y(&mut self, cycles: &mut i32, memory: &Memory) -> (address: u16)
        requires
            *old(cycles) >= i32::MIN + 4,
        ensures
            address == effective_address(Mode::IndirectY, *old(self), memory@),
            *final(self) == old(self).advance(1),
            *final(cycles) == *old(cycles) - 3 - (if page_crossed(
                Mode::IndirectY,
                *old(self),
                memory@,
            ) {
                1int
            } else {
                0int
            }),
    {
        let zp_addr: u8 = self.fetch_byte(memory, cycles);
        let base: u16 = self.read_zero_page_word(memory, zp_addr, cycles);
        let addr: u16 = base.wrapping_add(self.reg_y as u16);
        if !on_same_page(base, addr) {
            *cycles -= 1;
        }
        addr
    }

    /// (Indirect),Y for instructions that write: the page-zero slot at the
    /// operand byte holds a base address, to which Y is added. The indexing
    /// cycle is always charged.
    pub fn addr_indirect_y_6(&mut self, cycles: &mut i32, memory: &Memory) -> (address: u16)
        requires
            *old(cycles) >= i32::MIN + 4,
        ensures
            address == effective_address(Mode::IndirectY, *old(self), memory@),
            *final(self) == old(self).advance(1),
            *final(cycles) == *old(cycles) - 4,
    {
        let zp_addr: u8 = self.fetch_byte(memory, cycles);
        let base: u16 = self.read_zero_page_word(memory, zp_addr, cycles);
        let addr: u16 = base.wrapping_add(self.reg_y as u16);
        *cycles -= 1;
        addr
    }

    /// Indirect, for JMP: the operand word points at the low byte of the
    /// target. The high byte is read from the next address, except that a
    /// pointer on the last byte of a page takes it from the first byte of
    /// the same page. The two pointer bytes cost one cycle each.
    pub fn addr_indirect_mp(&mut self, cycles: &mut i32, memory: &Memory) -> (address: u16)
        requires
            *old(cycles) >= i32::MIN + 4,
        ensures
            address == effective_address(Mode::Indirect, *old(self), memory@),
            *final(self) == old(self).advance(2),
            *final(cycles) == *old(cycles) - 4,
    {
        let ptr: u16 = self.fetch_word(memory, cycles);
        let lo: u8 = self.read_byte(memory, ptr, cycles);
        assert(((ptr & 0x00FF) == 0x00FF) == (ptr % 256 == 255) && ((ptr & 0x00FF) == 0x00FF ==> (
        ptr & 0xFF00) == ptr - 255)) by (bit_vector);
        let hi_addr: u16 = if (ptr & 0x00FF) == 0x00FF {
            ptr & 0xFF00
        } else {
            ptr.wrapping_add(1)
        };
        let hi: u8 = self.read_byte(memory, hi_addr, cycles);
        make_word(lo, hi)
    }

    /// Computes the effective address for any mode that has an operand in
    /// memory, steps the program counter past the operand bytes and charges
    /// the address calculation. In immediate mode the operand is the byte
    /// at the program counter and the calculation is free.
    pub fn operand_address(
        &mut self,
        mode: Mode,
        access: Access,
        cycles: &mut i32,
        memory: &Memory,
    ) -> (address: u16)
        requires
            mode.addresses_memory(),
            *old(cycles) >= i32::MIN + 4,
        ensures
            address == effective_address(mode, *old(self), memory@),
            *final(self) == old(self).advance(mode.operand_length()),
            *final(cycles) == *old(cycles) - addressing_cycles(
                mode,
                access,
                *old(self),
                memory@,
            ),
    {
        match mode {
            Mode::Immediate => {
                let address: u16 = self.pc;
                self.pc = self.pc.wrapping_add(1);
                address
            },
            Mode::ZeroPage => self.addr_zero_page(cycles, memory),
            Mode::ZeroPageX => self.addr_zero_page_x(cycles, memory),
            Mode::ZeroPageY => self.addr_zero_page_y(cycles, memory),
            Mode::Absolute => self.addr_absolute(cycles, memory),
            Mode::AbsoluteX => match access {
                Access::Read => self.addr_absolute_x(cycles, memory),
                Access::Write => self.addr_absolute_x_5(cycles, memory),
            },
            Mode::AbsoluteY => match access {
                Access::Read => self.addr_absolute_y(cycles, memory),
                Access::Write => self.addr_absolute_y_5(cycles, memory),
            },
            Mode::IndirectX => self.addr_indirect_x(cycles, memory),
            Mode::IndirectY => match access {
                Access::Read => self.addr_indirect_y(cycles, memory),
                Access::Write => self.addr_indirect_y_6(cycles, memory),
            },
            Mode::Indirect => self.addr_indirect_mp(cycles, memory),
            _ => self.pc,
        }
    }
}

} // verus!
