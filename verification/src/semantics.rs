//! The operational semantics of the interpreter: what one instruction does
//! to the machine.
//!
//! The contract of `Cpu::step` is stated against the functions of this
//! module, and `run` builds the meaning of a whole run on them.
//!
//! Cycles are counted per instruction, not per bus access. Every byte that
//! is fetched, read or written costs a cycle, the indexed modes cost the
//! cycles `addressing_cycles` lists, and the operations that keep the chip
//! busy without touching the bus (register operations, the modify step of a
//! read-modify-write, moving the stack pointer) cost the cycles that bring
//! the total to the count of the data sheet. BRK is cut short: it sets B
//! and takes whatever is left of the budget, so that the run ends there.

use vstd::prelude::*;
use crate::addressing::{addressing_cycles, effective_address};
use crate::alu::{asl_result, lsr_result, rol_result, ror_result};
use crate::bytes::{
    bit0, bit7, high_byte, low_byte, peek, same_page, signed, word_of, wrap_byte, wrap_word,
};
use crate::cpu::Cpu;
use crate::decode::{Instruction, Mnemonic, Mode, decode_spec};
use crate::status::StatusFlags;

verus! {

/// The whole machine: the processor, the memory image and what is left of
/// the cycle budget.
pub struct Machine {
    pub cpu: Cpu,
    pub mem: Seq<u8>,
    pub cycles: int,
}

/// The longest instruction takes seven cycles.
pub const MAX_INSTRUCTION_CYCLES: i32 = 7;

/// The machine made of a processor, a memory image and a cycle counter.
pub open spec fn machine(cpu: Cpu, mem: Seq<u8>, cycles: i32) -> Machine {
    Machine { cpu, mem, cycles: cycles as int }
}

impl Machine {
    /// This machine with another processor state.
    pub open spec fn with_cpu(self, cpu: Cpu) -> Machine {
        Machine { cpu, ..self }
    }

    /// This machine after `n` cycles have passed.
    pub open spec fn tick(self, n: int) -> Machine {
        Machine { cycles: self.cycles - n, ..self }
    }

    /// This machine after `value` has been written at `addr`, which takes a
    /// cycle.
    pub open spec fn write(self, addr: u16, value: u8) -> Machine {
        Machine { mem: self.mem.update(addr as int, value), cycles: self.cycles - 1, ..self }
    }

    /// This machine after `value` has been pushed, which takes a cycle.
    pub open spec fn push(self, value: u8) -> Machine {
        Machine {
            cpu: self.cpu.pushed(1),
            mem: self.mem.update(self.cpu.stack_slot(0) as int, value),
            cycles: self.cycles - 1,
        }
    }

    /// This machine after the word `value` has been pushed, high byte
    /// first, which takes two cycles.
    pub open spec fn push_word(self, value: u16) -> Machine {
        Machine {
            cpu: self.cpu.pushed(2),
            mem: self.mem.update(self.cpu.stack_slot(0) as int, high_byte(value)).update(
                self.cpu.stack_slot(-1) as int,
                low_byte(value),
            ),
            cycles: self.cycles - 2,
        }
    }

    /// The byte on the stack `depth` slots above the stack pointer: the
    /// byte that the `depth`-th pull from now would return.
    pub open spec fn stacked(self, depth: int) -> u8 {
        peek(self.mem, self.cpu.stack_slot(depth))
    }

    /// The word on the stack whose low byte is `depth` slots above the
    /// stack pointer.
    pub open spec fn stacked_word(self, depth: int) -> u16 {
        word_of(self.stacked(depth), self.stacked(depth + 1))
    }

    /// The opcode the program counter designates.
    pub open spec fn next_opcode(self) -> u8 {
        peek(self.mem, self.cpu.pc)
    }

    /// Whether the next opcode is an instruction.
    pub open spec fn can_step(self) -> bool {
        decode_spec(self.next_opcode()) is Some
    }

    /// What is left of the budget, counting an overdrawn budget as nothing.
    pub open spec fn budget_left(self) -> nat {
        if self.cycles > 0 {
            self.cycles as nat
        } else {
            0
        }
    }
}

/// The machine after a branch whose operand byte is `offset`. `m` is the
/// machine after the offset has been fetched. A branch that is not taken
/// costs nothing more; one that is taken moves the program counter by the
/// signed offset and costs a cycle, and another one when the target lies on
/// another page than the instruction that follows the branch.
pub open spec fn branch(m: Machine, taken: bool, offset: u8) -> Machine {
    if taken {
        let target = wrap_word(m.cpu.pc + signed(offset));
        m.with_cpu(m.cpu.with_pc(target)).tick(
            if same_page(m.cpu.pc, target) {
                1
            } else {
                2
            },
        )
    } else {
        m
    }
}

/// The machine after a shift or rotate of `source` that moved `carry_out`
/// into C and produced `result`. In accumulator mode the result goes to A
/// and the operation costs one cycle. In the memory modes the operand is
/// read, modified and written back at `addr`, one cycle each.
pub open spec fn shift(m: Machine, mode: Mode, addr: u16, carry_out: bool, result: u8) -> Machine {
    let flags = m.cpu.after_shift(carry_out, result);
    if mode is Accumulator {
        m.with_cpu(Cpu { reg_a: result, ..flags }).tick(1)
    } else {
        m.with_cpu(flags).tick(2).write(addr, result)
    }
}

/// The machine after `instr` has run. `m` is the machine just after the
/// opcode fetch, with the program counter on the first operand byte.
pub open spec fn execute_instruction(instr: Instruction, m: Machine) -> Machine {
    let mode = instr.mode;
    let addr = effective_address(mode, m.cpu, m.mem);
    let operand = peek(m.mem, addr);
    let r = Machine {
        cpu: m.cpu.advance(mode.operand_length()),
        mem: m.mem,
        cycles: m.cycles - addressing_cycles(mode, instr.mnemonic.access(), m.cpu, m.mem),
    };
    let c = r.cpu;
    let source = if mode is Accumulator {
        c.reg_a
    } else {
        operand
    };
    match instr.mnemonic {
        Mnemonic::Lda => r.with_cpu(c.load_a(operand)).tick(1),
        Mnemonic::Ldx => r.with_cpu(c.load_x(operand)).tick(1),
        Mnemonic::Ldy => r.with_cpu(c.load_y(operand)).tick(1),
        Mnemonic::Sta => r.write(addr, c.reg_a),
        Mnemonic::Stx => r.write(addr, c.reg_x),
        Mnemonic::Sty => r.write(addr, c.reg_y),
        Mnemonic::Tax => r.with_cpu(c.load_x(c.reg_a)).tick(1),
        Mnemonic::Tay => r.with_cpu(c.load_y(c.reg_a)).tick(1),
        Mnemonic::Txa => r.with_cpu(c.load_a(c.reg_x)).tick(1),
        Mnemonic::Tya => r.with_cpu(c.load_a(c.reg_y)).tick(1),
        Mnemonic::Tsx => r.with_cpu(c.load_x(c.sp)).tick(1),
        Mnemonic::Txs => r.with_cpu(c.with_sp(c.reg_x)).tick(1),
        Mnemonic::Pha => r.push(c.reg_a).tick(1),
        Mnemonic::Php => r.push(c.status.packed()).tick(1),
        Mnemonic::Pla => r.with_cpu(c.pulled(1).load_a(r.stacked(1))).tick(3),
        Mnemonic::Plp => r.with_cpu(
            c.pulled(1).with_status(c.status.unpacked(r.stacked(1))),
        ).tick(3),
        Mnemonic::Jmp => r.with_cpu(c.with_pc(addr)),
        Mnemonic::Jsr => {
            let pushed = r.push_word(wrap_word(c.pc - 1));
            pushed.with_cpu(pushed.cpu.with_pc(addr)).tick(1)
        },
        Mnemonic::Rts => r.with_cpu(c.pulled(2).with_pc(wrap_word(r.stacked_word(1) + 1))).tick(
            5,
        ),
        Mnemonic::Rti => r.with_cpu(
            c.pulled(3).with_status(c.status.unpacked(r.stacked(1))).with_pc(r.stacked_word(2)),
        ).tick(5),
        Mnemonic::Brk => Machine {
            cpu: c.with_status(StatusFlags { break_command: true, ..c.status }),
            mem: r.mem,
            cycles: 0,
        },
        Mnemonic::And => r.with_cpu(c.load_a(c.reg_a & operand)).tick(1),
        Mnemonic::Ora => r.with_cpu(c.load_a(c.reg_a | operand)).tick(1),
        Mnemonic::Eor => r.with_cpu(c.load_a(c.reg_a ^ operand)).tick(1),
        Mnemonic::Bit => r.with_cpu(c.after_bit_test(operand)).tick(1),
        Mnemonic::Adc => r.with_cpu(c.after_adc(operand)).tick(1),
        Mnemonic::Sbc => r.with_cpu(c.after_sbc(operand)).tick(1),
        Mnemonic::Cmp => r.with_cpu(c.after_compare(c.reg_a, operand)).tick(1),
        Mnemonic::Cpx => r.with_cpu(c.after_compare(c.reg_x, operand)).tick(1),
        Mnemonic::Cpy => r.with_cpu(c.after_compare(c.reg_y, operand)).tick(1),
        Mnemonic::Inc => r.with_cpu(c.with_zn(wrap_byte(operand + 1))).tick(2).write(
            addr,
            wrap_byte(operand + 1),
        ),
        Mnemonic::Dec => r.with_cpu(c.with_zn(wrap_byte(operand - 1))).tick(2).write(
            addr,
            wrap_byte(operand - 1),
        ),
        Mnemonic::Inx => r.with_cpu(c.load_x(wrap_byte(c.reg_x + 1))).tick(1),
        Mnemonic::Iny => r.with_cpu(c.load_y(wrap_byte(c.reg_y + 1))).tick(1),
        Mnemonic::Dex => r.with_cpu(c.load_x(wrap_byte(c.reg_x - 1))).tick(1),
        Mnemonic::Dey => r.with_cpu(c.load_y(wrap_byte(c.reg_y - 1))).tick(1),
        Mnemonic::Asl => shift(r, mode, addr, bit7(source), asl_result(source)),
        Mnemonic::Lsr => shift(r, mode, addr, bit0(source), lsr_result(source)),
        Mnemonic::Rol => shift(r, mode, addr, bit7(source), rol_result(source, c.status.carry)),
        Mnemonic::Ror => shift(r, mode, addr, bit0(source), ror_result(source, c.status.carry)),
        Mnemonic::Beq => branch(r.tick(1), c.status.zero, operand),
        Mnemonic::Bne => branch(r.tick(1), !c.status.zero, operand),
        Mnemonic::Bcs => branch(r.tick(1), c.status.carry, operand),
        Mnemonic::Bcc => branch(r.tick(1), !c.status.carry, operand),
        Mnemonic::Bmi => branch(r.tick(1), c.status.negative, operand),
        Mnemonic::Bpl => branch(r.tick(1), !c.status.negative, operand),
        Mnemonic::Bvs => branch(r.tick(1), c.status.overflow, operand),
        Mnemonic::Bvc => branch(r.tick(1), !c.status.overflow, operand),
        Mnemonic::Clc => r.with_cpu(c.with_status(StatusFlags { carry: false, ..c.status })).tick(
            1,
        ),
        Mnemonic::Sec => r.with_cpu(c.with_status(StatusFlags { carry: true, ..c.status })).tick(1),
        Mnemonic::Cld => r.with_cpu(
            c.with_status(StatusFlags { decimal_mode: false, ..c.status }),
        ).tick(1),
        Mnemonic::Sed => r.with_cpu(
            c.with_status(StatusFlags { decimal_mode: true, ..c.status }),
        ).tick(1),
        Mnemonic::Cli => r.with_cpu(
            c.with_status(StatusFlags { interrupt_disable: false, ..c.status }),
        ).tick(1),
        Mnemonic::Sei => r.with_cpu(
            c.with_status(StatusFlags { interrupt_disable: true, ..c.status }),
        ).tick(1),
        Mnemonic::Clv => r.with_cpu(
            c.with_status(StatusFlags { overflow: false, ..c.status }),
        ).tick(1),
        Mnemonic::Nop => r.tick(1),
    }
}

/// The machine after one instruction: the opcode is fetched, which takes a
/// cycle, and the instruction it decodes to is run. A machine whose next
/// opcode is not an instruction does not move.
pub open spec fn step(m: Machine) -> Machine {
    match decode_spec(m.next_opcode()) {
        Some(instr) => execute_instruction(instr, m.with_cpu(m.cpu.advance(1)).tick(1)),
        None => m,
    }
}

} // verus!
