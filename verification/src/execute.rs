//! The fetch-decode-execute loop.

use vstd::prelude::*;
use crate::bytes::{decrement, increment, offset_word, on_same_page, peek};
use crate::cpu::{Cpu, lemma_stack_moves_compose};
use crate::decode::{Access, Instruction, Mnemonic, Mode, decode, instruction};
use crate::laws::lemma_step_cost;
use crate::memory::Memory;
use crate::run::{run, runs_to_completion};
use crate::semantics::{MAX_INSTRUCTION_CYCLES, branch, execute_instruction, machine, step};

verus! {

/// The program counter came upon a byte that is not an instruction.
#[derive(Clone, Copy, Debug, PartialEq, Eq, Structural)]
pub struct UnimplementedOpcode {
    /// The offending byte.
    pub opcode: u8,
}

impl Cpu {
    /// The opcode at the program counter. Nothing is fetched and nothing is
    /// charged.
    pub fn next_opcode(&self, memory: &Memory) -> (opcode: u8)
        ensures
            opcode == peek(memory@, self.pc),
    {
        memory[self.pc as usize]
    }

    /// A conditional branch. Fetches the signed offset, which costs a
    /// cycle. The branch is taken when `flag` equals `expected`: the offset
    /// is added to the program counter, which by then designates the next
    /// instruction. A taken branch costs one more cycle, and another one
    /// when the target lies on another page than the next instruction.
    pub fn branch_if(&mut self, flag: bool, expected: bool, memory: &Memory, cycles: &mut i32)
        requires
            *old(cycles) >= i32::MIN + 3,
        ensures
            machine(*final(self), memory@, *final(cycles)) == branch(
                machine(old(self).advance(1), memory@, *old(cycles)).tick(1),
                flag == expected,
                peek(memory@, old(self).pc),
            ),
            flag != expected ==> *final(cycles) == *old(cycles) - 1,
            flag == expected ==> *final(cycles) == *old(cycles) - 2 || *final(cycles) == *old(
                cycles,
            ) - 3,
    {
        let offset: i8 = self.fetch_sbyte(memory, cycles);
        if flag == expected {
            let target: u16 = offset_word(self.pc, offset);
            *cycles -= 1;
            if !on_same_page(self.pc, target) {
                *cycles -= 1;
            }
            self.pc = target;
        }
    }

    /// A load or a store: LDA, LDX, LDY, STA, STX, STY.
    fn run_load_store(&mut self, instr: Instruction, cycles: &mut i32, memory: &mut Memory)
        requires
            instr.well_formed(),
            instr.mnemonic is Lda || instr.mnemonic is Ldx || instr.mnemonic is Ldy
                || instr.mnemonic is Sta || instr.mnemonic is Stx || instr.mnemonic is Sty,
            *old(cycles) >= i32::MIN + MAX_INSTRUCTION_CYCLES - 1,
        ensures
            machine(*final(self), final(memory)@, *final(cycles)) == execute_instruction(
                instr,
                machine(*old(self), old(memory)@, *old(cycles)),
            ),
    {
        let mode = instr.mode;
        match instr.mnemonic {
            Mnemonic::Lda => {
                let addr: u16 = self.operand_address(mode, Access::Read, cycles, memory);
                self.load_register_a(addr, memory, cycles);
            },
            Mnemonic::Ldx => {
                let addr: u16 = self.operand_address(mode, Access::Read, cycles, memory);
                self.load_register_x(addr, memory, cycles);
            },
            Mnemonic::Ldy => {
                let addr: u16 = self.operand_address(mode, Access::Read, cycles, memory);
                self.load_register_y(addr, memory, cycles);
            },
            Mnemonic::Sta => {
                let addr: u16 = self.operand_address(mode, Access::Write, cycles, memory);
                self.write_byte(memory, addr, self.reg_a, cycles);
            },
            Mnemonic::Stx => {
                let addr: u16 = self.operand_address(mode, Access::Write, cycles, memory);
                self.write_byte(memory, addr, self.reg_x, cycles);
            },
            Mnemonic::Sty => {
                let addr: u16 = self.operand_address(mode, Access::Write, cycles, memory);
                self.write_byte(memory, addr, self.reg_y, cycles);
            },
            _ => {},
        }
    }

    /// A register transfer: TAX, TAY, TXA, TYA, TSX, TXS. Each costs one
    /// cycle. TXS alone leaves Z and N as they were.
    fn run_transfer(&mut self, instr: Instruction, cycles: &mut i32, memory: &mut Memory)
        requires
            instr.well_formed(),
            instr.mnemonic is Tax || instr.mnemonic is Tay || instr.mnemonic is Txa
                || instr.mnemonic is Tya || instr.mnemonic is Tsx || instr.mnemonic is Txs,
            *old(cycles) >= i32::MIN + MAX_INSTRUCTION_CYCLES - 1,
        ensures
            machine(*final(self), final(memory)@, *final(cycles)) == execute_instruction(
                instr,
                machine(*old(self), old(memory)@, *old(cycles)),
            ),
    {
        match instr.mnemonic {
            Mnemonic::Tax => {
                self.reg_x = self.reg_a;
                self.set_zero_and_negative_flags(self.reg_x);
                *cycles -= 1;
            },
            Mnemonic::Tay => {
                self.reg_y = self.reg_a;
                self.set_zero_and_negative_flags(self.reg_y);
                *cycles -= 1;
            },
            Mnemonic::Txa => {
                self.reg_a = self.reg_x;
                self.set_zero_and_negative_flags(self.reg_a);
                *cycles -= 1;
            },
            Mnemonic::Tya => {
                self.reg_a = self.reg_y;
                self.set_zero_and_negative_flags(self.reg_a);
                *cycles -= 1;
            },
            Mnemonic::Tsx => {
                self.reg_x = self.sp;
                self.set_zero_and_negative_flags(self.reg_x);
                *cycles -= 1;
            },
            Mnemonic::Txs => {
                self.sp = self.reg_x;
                *cycles -= 1;
            },
            _ => {},
        }
    }

    /// A push or a pull: PHA, PHP, PLA, PLP. A push writes at the stack
    /// address and then moves the stack pointer down; a pull moves it up and
    /// then reads. A push takes three cycles in all and a pull four. PLP
    /// leaves B as it was.
    fn run_stack_operation(&mut self, instr: Instruction, cycles: &mut i32, memory: &mut Memory)
        requires
            instr.well_formed(),
            instr.mnemonic is Pha || instr.mnemonic is Php || instr.mnemonic is Pla
                || instr.mnemonic is Plp,
            *old(cycles) >= i32::MIN + MAX_INSTRUCTION_CYCLES - 1,
        ensures
            machine(*final(self), final(memory)@, *final(cycles)) == execute_instruction(
                instr,
                machine(*old(self), old(memory)@, *old(cycles)),
            ),
    {
        match instr.mnemonic {
            Mnemonic::Pha => {
                self.push_byte_to_stack(memory, self.reg_a, cycles);
                *cycles -= 1;
            },
            Mnemonic::Php => {
                let status: u8 = self.status.to_byte();
                self.push_byte_to_stack(memory, status, cycles);
                *cycles -= 1;
            },
            Mnemonic::Pla => {
                self.reg_a = self.pull_byte_from_stack(memory, cycles);
                self.set_zero_and_negative_flags(self.reg_a);
                *cycles -= 2;
            },
            Mnemonic::Plp => {
                let status: u8 = self.pull_byte_from_stack(memory, cycles);
                self.status.restore_from_byte(status);
                *cycles -= 2;
            },
            _ => {},
        }
    }

    /// JSR: fetches the target, pushes the address of the last byte of the
    /// instruction, high byte first, and continues at the target. Takes five
    /// cycles after the opcode fetch.
    pub fn jump_to_subroutine(&mut self, cycles: &mut i32, memory: &mut Memory)
        requires
            *old(cycles) >= i32::MIN + 5,
        ensures
            machine(*final(self), final(memory)@, *final(cycles)) == execute_instruction(
                instruction(Mnemonic::Jsr, Mode::Absolute),
                machine(*old(self), old(memory)@, *old(cycles)),
            ),
    {
        let target: u16 = self.addr_absolute(cycles, memory);
        self.pc = self.pc.wrapping_sub(1);
        self.push_pc_to_stack(memory, cycles);
        self.pc = target;
        *cycles -= 1;
    }

    /// RTS: pulls an address, low byte first, and continues at the byte
    /// after it. Takes five cycles after the opcode fetch.
    pub fn return_from_subroutine(&mut self, cycles: &mut i32, memory: &Memory)
        requires
            *old(cycles) >= i32::MIN + 5,
        ensures
            machine(*final(self), memory@, *final(cycles)) == execute_instruction(
                instruction(Mnemonic::Rts, Mode::Implied),
                machine(*old(self), memory@, *old(cycles)),
            ),
    {
        let return_addr: u16 = self.pull_word_from_stack(memory, cycles);
        self.pc = return_addr.wrapping_add(1);
        *cycles -= 3;
    }

    /// RTI: pulls the status as PLP does, then pulls an address, low byte
    /// first, and continues at that address. Takes five cycles after the
    /// opcode fetch.
    pub fn return_from_interrupt(&mut self, cycles: &mut i32, memory: &Memory)
        requires
            *old(cycles) >= i32::MIN + 5,
        ensures
            machine(*final(self), memory@, *final(cycles)) == execute_instruction(
                instruction(Mnemonic::Rti, Mode::Implied),
                machine(*old(self), memory@, *old(cycles)),
            ),
    {
        let status: u8 = self.pull_byte_from_stack(memory, cycles);
        self.status.restore_from_byte(status);
        self.pc = self.pull_word_from_stack(memory, cycles);
        *cycles -= 2;
        proof {
            lemma_stack_moves_compose(*old(self), 1, 1);
            lemma_stack_moves_compose(*old(self), 1, 2);
        }
    }

    /// A jump, call or return: JMP, JSR, RTS, RTI, BRK. JMP continues at its
    /// effective address. BRK sets B and leaves no budget.
    fn run_control_flow(&mut self, instr: Instruction, cycles: &mut i32, memory: &mut Memory)
        requires
            instr.well_formed(),
            instr.mnemonic is Jmp || instr.mnemonic is Jsr || instr.mnemonic is Rts
                || instr.mnemonic is Rti || instr.mnemonic is Brk,
            *old(cycles) >= i32::MIN + MAX_INSTRUCTION_CYCLES - 1,
        ensures
            machine(*final(self), final(memory)@, *final(cycles)) == execute_instruction(
                instr,
                machine(*old(self), old(memory)@, *old(cycles)),
            ),
    {
        match instr.mnemonic {
            Mnemonic::Jmp => {
                let addr: u16 = self.operand_address(instr.mode, Access::Read, cycles, memory);
                self.pc = addr;
            },
            Mnemonic::Jsr => self.jump_to_subroutine(cycles, memory),
            Mnemonic::Rts => self.return_from_subroutine(cycles, memory),
            Mnemonic::Rti => self.return_from_interrupt(cycles, memory),
            Mnemonic::Brk => {
                self.status.break_command = true;
                *cycles = 0;
            },
            _ => {},
        }
    }

    /// A logic operation on the accumulator: AND, ORA, EOR, BIT.
    fn run_logic(&mut self, instr: Instruction, cycles: &mut i32, memory: &mut Memory)
        requires
            instr.well_formed(),
            instr.mnemonic is And || instr.mnemonic is Ora || instr.mnemonic is Eor
                || instr.mnemonic is Bit,
            *old(cycles) >= i32::MIN + MAX_INSTRUCTION_CYCLES - 1,
        ensures
            machine(*final(self), final(memory)@, *final(cycles)) == execute_instruction(
                instr,
                machine(*old(self), old(memory)@, *old(cycles)),
            ),
    {
        let mode = instr.mode;
        match instr.mnemonic {
            Mnemonic::And => {
                let addr: u16 = self.operand_address(mode, Access::Read, cycles, memory);
                self.and(addr, memory, cycles);
            },
            Mnemonic::Ora => {
                let addr: u16 = self.operand_address(mode, Access::Read, cycles, memory);
                self.ora(addr, memory, cycles);
            },
            Mnemonic::Eor => {
                let addr: u16 = self.operand_address(mode, Access::Read, cycles, memory);
                self.eor(addr, memory, cycles);
            },
            Mnemonic::Bit => {
                let addr: u16 = self.operand_address(mode, Access::Read, cycles, memory);
                self.bit_test(addr, memory, cycles);
            },
            _ => {},
        }
    }

    /// An addition, subtraction or compare: ADC, SBC, CMP, CPX, CPY.
    fn run_arithmetic(&mut self, instr: Instruction, cycles: &mut i32, memory: &mut Memory)
        requires
            instr.well_formed(),
            instr.mnemonic is Adc || instr.mnemonic is Sbc || instr.mnemonic is Cmp
                || instr.mnemonic is Cpx || instr.mnemonic is Cpy,
            *old(cycles) >= i32::MIN + MAX_INSTRUCTION_CYCLES - 1,
        ensures
            machine(*final(self), final(memory)@, *final(cycles)) == execute_instruction(
                instr,
                machine(*old(self), old(memory)@, *old(cycles)),
            ),
    {
        let mode = instr.mode;
        match instr.mnemonic {
            Mnemonic::Adc => {
                let addr: u16 = self.operand_address(mode, Access::Read, cycles, memory);
                let operand: u8 = self.read_byte(memory, addr, cycles);
                self.adc(operand);
            },
            Mnemonic::Sbc => {
                let addr: u16 = self.operand_address(mode, Access::Read, cycles, memory);
                let operand: u8 = self.read_byte(memory, addr, cycles);
                self.sbc(operand);
            },
            Mnemonic::Cmp => {
                let addr: u16 = self.operand_address(mode, Access::Read, cycles, memory);
                let operand: u8 = self.read_byte(memory, addr, cycles);
                self.cmp(operand, self.reg_a);
            },
            Mnemonic::Cpx => {
                let addr: u16 = self.operand_address(mode, Access::Read, cycles, memory);
                let operand: u8 = self.read_byte(memory, addr, cycles);
                self.cmp(operand, self.reg_x);
            },
            Mnemonic::Cpy => {
                let addr: u16 = self.operand_address(mode, Access::Read, cycles, memory);
                let operand: u8 = self.read_byte(memory, addr, cycles);
                self.cmp(operand, self.reg_y);
            },
            _ => {},
        }
    }

    /// An increment or decrement: INC, DEC, INX, INY, DEX, DEY. The memory
    /// forms read the operand, modify it and write it back, one cycle each.
    fn run_increment(&mut self, instr: Instruction, cycles: &mut i32, memory: &mut Memory)
        requires
            instr.well_formed(),
            instr.mnemonic is Inc || instr.mnemonic is Dec || instr.mnemonic is Inx
                || instr.mnemonic is Iny || instr.mnemonic is Dex || instr.mnemonic is Dey,
            *old(cycles) >= i32::MIN + MAX_INSTRUCTION_CYCLES - 1,
        ensures
            machine(*final(self), final(memory)@, *final(cycles)) == execute_instruction(
                instr,
                machine(*old(self), old(memory)@, *old(cycles)),
            ),
    {
        let mode = instr.mode;
        match instr.mnemonic {
            Mnemonic::Inc => {
                let addr: u16 = self.operand_address(mode, Access::Write, cycles, memory);
                let value: u8 = increment(self.read_byte(memory, addr, cycles));
                *cycles -= 1;
                self.write_byte(memory, addr, value, cycles);
                self.set_zero_and_negative_flags(value);
            },
            Mnemonic::Dec => {
                let addr: u16 = self.operand_address(mode, Access::Write, cycles, memory);
                let value: u8 = decrement(self.read_byte(memory, addr, cycles));
                *cycles -= 1;
                self.write_byte(memory, addr, value, cycles);
                self.set_zero_and_negative_flags(value);
            },
            Mnemonic::Inx => {
                self.reg_x = increment(self.reg_x);
                self.set_zero_and_negative_flags(self.reg_x);
                *cycles -= 1;
            },
            Mnemonic::Iny => {
                self.reg_y = increment(self.reg_y);
                self.set_zero_and_negative_flags(self.reg_y);
                *cycles -= 1;
            },
            Mnemonic::Dex => {
                self.reg_x = decrement(self.reg_x);
                self.set_zero_and_negative_flags(self.reg_x);
                *cycles -= 1;
            },
            Mnemonic::Dey => {
                self.reg_y = decrement(self.reg_y);
                self.set_zero_and_negative_flags(self.reg_y);
                *cycles -= 1;
            },
            _ => {},
        }
    }

    /// A shift or rotate: ASL, LSR, ROL, ROR. In accumulator mode the
    /// operation works on A and fetches no operand.
    fn run_shift(&mut self, instr: Instruction, cycles: &mut i32, memory: &mut Memory)
        requires
            instr.well_formed(),
            instr.mnemonic is Asl || instr.mnemonic is Lsr || instr.mnemonic is Rol
                || instr.mnemonic is Ror,
            *old(cycles) >= i32::MIN + MAX_INSTRUCTION_CYCLES - 1,
        ensures
            machine(*final(self), final(memory)@, *final(cycles)) == execute_instruction(
                instr,
                machine(*old(self), old(memory)@, *old(cycles)),
            ),
    {
        let mode = instr.mode;
        match instr.mnemonic {
            Mnemonic::Asl => match mode {
                Mode::Accumulator => {
                    self.reg_a = self.asl(self.reg_a, cycles);
                },
                _ => {
                    let addr: u16 = self.operand_address(mode, Access::Write, cycles, memory);
                    let operand: u8 = self.read_byte(memory, addr, cycles);
                    let result: u8 = self.asl(operand, cycles);
                    self.write_byte(memory, addr, result, cycles);
                },
            },
            Mnemonic::Lsr => match mode {
                Mode::Accumulator => {
                    self.reg_a = self.lsr(self.reg_a, cycles);
                },
                _ => {
                    let addr: u16 = self.operand_address(mode, Access::Write, cycles, memory);
                    let operand: u8 = self.read_byte(memory, addr, cycles);
                    let result: u8 = self.lsr(operand, cycles);
                    self.write_byte(memory, addr, result, cycles);
                },
            },
            Mnemonic::Rol => match mode {
                Mode::Accumulator => {
                    self.reg_a = self.rol(self.reg_a, cycles);
                },
                _ => {
                    let addr: u16 = self.operand_address(mode, Access::Write, cycles, memory);
                    let operand: u8 = self.read_byte(memory, addr, cycles);
                    let result: u8 = self.rol(operand, cycles);
                    self.write_byte(memory, addr, result, cycles);
                },
            },
            Mnemonic::Ror => match mode {
                Mode::Accumulator => {
                    self.reg_a = self.ror(self.reg_a, cycles);
                },
                _ => {
                    let addr: u16 = self.operand_address(mode, Access::Write, cycles, memory);
                    let operand: u8 = self.read_byte(memory, addr, cycles);
                    let result: u8 = self.ror(operand, cycles);
                    self.write_byte(memory, addr, result, cycles);
                },
            },
            _ => {},
        }
    }

    /// A conditional branch: BEQ, BNE, BCS, BCC, BMI, BPL, BVS, BVC.
    fn run_branch(&mut self, instr: Instruction, cycles: &mut i32, memory: &mut Memory)
        requires
            instr.well_formed(),
            instr.mnemonic is Beq || instr.mnemonic is Bne || instr.mnemonic is Bcs
                || instr.mnemonic is Bcc || instr.mnemonic is Bmi || instr.mnemonic is Bpl
                || instr.mnemonic is Bvs || instr.mnemonic is Bvc,
            *old(cycles) >= i32::MIN + MAX_INSTRUCTION_CYCLES - 1,
        ensures
            machine(*final(self), final(memory)@, *final(cycles)) == execute_instruction(
                instr,
                machine(*old(self), old(memory)@, *old(cycles)),
            ),
    {
        match instr.mnemonic {
            Mnemonic::Beq => self.branch_if(self.status.zero, true, memory, cycles),
            Mnemonic::Bne => self.branch_if(self.status.zero, false, memory, cycles),
            Mnemonic::Bcs => self.branch_if(self.status.carry, true, memory, cycles),
            Mnemonic::Bcc => self.branch_if(self.status.carry, false, memory, cycles),
            Mnemonic::Bmi => self.branch_if(self.status.negative, true, memory, cycles),
            Mnemonic::Bpl => self.branch_if(self.status.negative, false, memory, cycles),
            Mnemonic::Bvs => self.branch_if(self.status.overflow, true, memory, cycles),
            Mnemonic::Bvc => self.branch_if(self.status.overflow, false, memory, cycles),
            _ => {},
        }
    }

    /// A flag set or clear, or NOP: CLC, SEC, CLD, SED, CLI, SEI, CLV, NOP.
    /// Each costs one cycle.
    fn run_flag_operation(&mut self, instr: Instruction, cycles: &mut i32, memory: &mut Memory)
        requires
            instr.well_formed(),
            instr.mnemonic is Clc || instr.mnemonic is Sec || instr.mnemonic is Cld
                || instr.mnemonic is Sed || instr.mnemonic is Cli || instr.mnemonic is Sei
                || instr.mnemonic is Clv || instr.mnemonic is Nop,
            *old(cycles) >= i32::MIN + MAX_INSTRUCTION_CYCLES - 1,
        ensures
            machine(*final(self), final(memory)@, *final(cycles)) == execute_instruction(
                instr,
                machine(*old(self), old(memory)@, *old(cycles)),
            ),
    {
        match instr.mnemonic {
            Mnemonic::Clc => {
                self.status.carry = false;
                *cycles -= 1;
            },
            Mnemonic::Sec => {
                self.status.carry = true;
                *cycles -= 1;
            },
            Mnemonic::Cld => {
                self.status.decimal_mode = false;
                *cycles -= 1;
            },
            Mnemonic::Sed => {
                self.status.decimal_mode = true;
                *cycles -= 1;
            },
            Mnemonic::Cli => {
                self.status.interrupt_disable = false;
                *cycles -= 1;
            },
            Mnemonic::Sei => {
                self.status.interrupt_disable = true;
                *cycles -= 1;
            },
            Mnemonic::Clv => {
                self.status.overflow = false;
                *cycles -= 1;
            },
            Mnemonic::Nop => {
                *cycles -= 1;
            },
            _ => {},
        }
    }

    /// Runs one decoded instruction. The opcode has been fetched already and
    /// the program counter designates the first operand byte.
    pub fn run_instruction(&mut self, instr: Instruction, cycles: &mut i32, memory: &mut Memory)
        requires
            instr.well_formed(),
            *old(cycles) >= i32::MIN + MAX_INSTRUCTION_CYCLES - 1,
        ensures
            machine(*final(self), final(memory)@, *final(cycles)) == execute_instruction(
                instr,
                machine(*old(self), old(memory)@, *old(cycles)),
            ),
    {
        match instr.mnemonic {
            Mnemonic::Lda
            | Mnemonic::Ldx
            | Mnemonic::Ldy
            | Mnemonic::Sta
            | Mnemonic::Stx
            | Mnemonic::Sty => self.run_load_store(instr, cycles, memory),
            Mnemonic::Tax
            | Mnemonic::Tay
            | Mnemonic::Txa
            | Mnemonic::Tya
            | Mnemonic::Tsx
            | Mnemonic::Txs => self.run_transfer(instr, cycles, memory),
            Mnemonic::Pha
            | Mnemonic::Php
            | Mnemonic::Pla
            | Mnemonic::Plp => self.run_stack_operation(instr, cycles, memory),
            Mnemonic::Jmp
            | Mnemonic::Jsr
            | Mnemonic::Rts
            | Mnemonic::Rti
            | Mnemonic::Brk => self.run_control_flow(instr, cycles, memory),
            Mnemonic::And
            | Mnemonic::Ora
            | Mnemonic::Eor
            | Mnemonic::Bit => self.run_logic(instr, cycles, memory),
            Mnemonic::Adc
            | Mnemonic::Sbc
            | Mnemonic::Cmp
            | Mnemonic::Cpx
            | Mnemonic::Cpy => self.run_arithmetic(instr, cycles, memory),
            Mnemonic::Inc
            | Mnemonic::Dec
            | Mnemonic::Inx
            | Mnemonic::Iny
            | Mnemonic::Dex
            | Mnemonic::Dey => self.run_increment(instr, cycles, memory),
            Mnemonic::Asl
            | Mnemonic::Lsr
            | Mnemonic::Rol
            | Mnemonic::Ror => self.run_shift(instr, cycles, memory),
            Mnemonic::Beq
            | Mnemonic::Bne
            | Mnemonic::Bcs
            | Mnemonic::Bcc
            | Mnemonic::Bmi
            | Mnemonic::Bpl
            | Mnemonic::Bvs
            | Mnemonic::Bvc => self.run_branch(instr, cycles, memory),
            Mnemonic::Clc
            | Mnemonic::Sec
            | Mnemonic::Cld
            | Mnemonic::Sed
            | Mnemonic::Cli
            | Mnemonic::Sei
            | Mnemonic::Clv
            | Mnemonic::Nop => self.run_flag_operation(instr, cycles, memory),
        }
    }

    /// Executes one instruction: fetches the opcode, which costs a cycle,
    /// decodes it and runs it. When the byte at the program counter is not
    /// an instruction, nothing is fetched, nothing changes, and the byte is
    /// reported.
    pub fn step(&mut self, cycles: &mut i32, memory: &mut Memory) -> (outcome: Result<
        (),
        UnimplementedOpcode,
    >)
        requires
            *old(cycles) >= i32::MIN + MAX_INSTRUCTION_CYCLES,
        ensures
            outcome is Ok <==> machine(*old(self), old(memory)@, *old(cycles)).can_step(),
            machine(*final(self), final(memory)@, *final(cycles)) == step(
                machine(*old(self), old(memory)@, *old(cycles)),
            ),
            outcome matches Err(e) ==> e.opcode == peek(old(memory)@, old(self).pc),
    {
        let opcode: u8 = self.next_opcode(memory);
        match decode(opcode) {
            Some(instr) => {
                self.fetch_byte(memory, cycles);
                self.run_instruction(instr, cycles, memory);
                Ok(())
            },
            None => Err(UnimplementedOpcode { opcode }),
        }
    }

    /// Runs instructions while the budget is positive and returns the
    /// number of cycles consumed. The run stops early in front of a byte
    /// that is not an instruction, and reports it.
    ///
    /// The last instruction is allowed to finish, so a run may consume up to
    /// six cycles more than the budget. BRK uses up whatever budget is left.
    pub fn try_execute(&mut self, cycles: i32, memory: &mut Memory) -> (outcome: Result<
        i32,
        UnimplementedOpcode,
    >)
        requires
            cycles <= i32::MAX - (MAX_INSTRUCTION_CYCLES - 1),
        ensures
            outcome is Ok <==> runs_to_completion(machine(*old(self), old(memory)@, cycles)),
            *final(self) == run(machine(*old(self), old(memory)@, cycles)).cpu,
            final(memory)@ == run(machine(*old(self), old(memory)@, cycles)).mem,
            outcome matches Ok(consumed) ==> consumed == cycles - run(
                machine(*old(self), old(memory)@, cycles),
            ).cycles,
            outcome matches Err(e) ==> e.opcode == run(
                machine(*old(self), old(memory)@, cycles),
            ).next_opcode(),
            outcome matches Ok(consumed) ==> (if cycles <= 0 {
                consumed == 0
            } else {
                cycles <= consumed < cycles + MAX_INSTRUCTION_CYCLES
            }),
    {
        let mut budget: i32 = cycles;
        while budget > 0
            invariant
                cycles <= i32::MAX - (MAX_INSTRUCTION_CYCLES - 1),
                budget <= cycles,
                budget == cycles || budget > -MAX_INSTRUCTION_CYCLES,
                run(machine(*self, memory@, budget)) == run(
                    machine(*old(self), old(memory)@, cycles),
                ),
            decreases machine(*self, memory@, budget).budget_left(),
        {
            proof {
                if machine(*self, memory@, budget).can_step() {
                    lemma_step_cost(machine(*self, memory@, budget));
                }
            }
            match self.step(&mut budget, memory) {
                Ok(()) => {},
                Err(e) => {
                    return Err(e);
                },
            }
        }
        Ok(cycles - budget)
    }

    /// Runs instructions while the budget is positive and returns the
    /// number of cycles consumed.
    ///
    /// The program must not lead the processor to a byte that is not an
    /// instruction; `try_execute` is the entry point without that demand.
    /// The last instruction is allowed to finish, so a run may consume up to
    /// six cycles more than the budget. BRK uses up whatever budget is left.
    pub fn execute(&mut self, cycles: i32, memory: &mut Memory) -> (consumed: i32)
        requires
            cycles <= i32::MAX - (MAX_INSTRUCTION_CYCLES - 1),
            runs_to_completion(machine(*old(self), old(memory)@, cycles)),
        ensures
            *final(self) == run(machine(*old(self), old(memory)@, cycles)).cpu,
            final(memory)@ == run(machine(*old(self), old(memory)@, cycles)).mem,
            consumed == cycles - run(machine(*old(self), old(memory)@, cycles)).cycles,
            cycles <= 0 ==> consumed == 0,
            cycles > 0 ==> cycles <= consumed < cycles + MAX_INSTRUCTION_CYCLES,
    {
        match self.try_execute(cycles, memory) {
            Ok(consumed) => consumed,
            Err(_) => unreached(),
        }
    }
}

} // verus!
