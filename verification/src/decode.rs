//! Instruction decoding: from an opcode byte to a mnemonic and an addressing
//! mode.

use vstd::prelude::*;
use crate::instructions;

verus! {

/// How an instruction finds its operand.
#[derive(Clone, Copy, Debug, PartialEq, Eq, Structural)]
pub enum Mode {
    /// No operand.
    Implied,
    /// The operand is the accumulator.
    Accumulator,
    /// The operand is the byte after the opcode.
    Immediate,
    /// The byte after the opcode is an address in page zero.
    ZeroPage,
    /// Page-zero address plus X, wrapping within page zero.
    ZeroPageX,
    /// Page-zero address plus Y, wrapping within page zero.
    ZeroPageY,
    /// The two bytes after the opcode are the address.
    Absolute,
    /// Absolute address plus X.
    AbsoluteX,
    /// Absolute address plus Y.
    AbsoluteY,
    /// The address is read from page zero at the operand byte plus X.
    IndirectX,
    /// The address is read from page zero at the operand byte, then Y is
    /// added.
    IndirectY,
    /// The address is read from memory at the operand word (JMP only).
    Indirect,
    /// The byte after the opcode is a signed branch offset.
    Relative,
}

/// Whether an instruction only reads through its effective address or also
/// writes to it. Stores and read-modify-write instructions pay the indexing
/// cycle whether or not a page is crossed.
#[derive(Clone, Copy, Debug, PartialEq, Eq, Structural)]
pub enum Access {
    Read,
    Write,
}

/// The operations of the 6502.
#[derive(Clone, Copy, Debug, PartialEq, Eq, Structural)]
pub enum Mnemonic {
    /// Load the accumulator.
    Lda,
    /// Load X.
    Ldx,
    /// Load Y.
    Ldy,
    /// Store the accumulator.
    Sta,
    /// Store X.
    Stx,
    /// Store Y.
    Sty,
    /// Transfer A to X.
    Tax,
    /// Transfer A to Y.
    Tay,
    /// Transfer X to A.
    Txa,
    /// Transfer Y to A.
    Tya,
    /// Transfer the stack pointer to X.
    Tsx,
    /// Transfer X to the stack pointer.
    Txs,
    /// Push the accumulator.
    Pha,
    /// Pull the accumulator.
    Pla,
    /// Push the status byte.
    Php,
    /// Pull the status byte.
    Plp,
    /// Jump.
    Jmp,
    /// Jump to a subroutine.
    Jsr,
    /// Return from a subroutine.
    Rts,
    /// Return from an interrupt.
    Rti,
    /// Break: set B and stop the run.
    Brk,
    /// Bitwise AND with the accumulator.
    And,
    /// Bitwise OR with the accumulator.
    Ora,
    /// Bitwise exclusive OR with the accumulator.
    Eor,
    /// Test bits of memory against the accumulator.
    Bit,
    /// Add with carry.
    Adc,
    /// Subtract with borrow.
    Sbc,
    /// Compare with the accumulator.
    Cmp,
    /// Compare with X.
    Cpx,
    /// Compare with Y.
    Cpy,
    /// Increment memory.
    Inc,
    /// Decrement memory.
    Dec,
    /// Increment X.
    Inx,
    /// Increment Y.
    Iny,
    /// Decrement X.
    Dex,
    /// Decrement Y.
    Dey,
    /// Arithmetic shift left.
    Asl,
    /// Logical shift right.
    Lsr,
    /// Rotate left through carry.
    Rol,
    /// Rotate right through carry.
    Ror,
    /// Branch if Z is set.
    Beq,
    /// Branch if Z is clear.
    Bne,
    /// Branch if C is set.
    Bcs,
    /// Branch if C is clear.
    Bcc,
    /// Branch if N is set.
    Bmi,
    /// Branch if N is clear.
    Bpl,
    /// Branch if V is set.
    Bvs,
    /// Branch if V is clear.
    Bvc,
    /// Clear C.
    Clc,
    /// Set C.
    Sec,
    /// Clear D.
    Cld,
    /// Set D.
    Sed,
    /// Clear I.
    Cli,
    /// Set I.
    Sei,
    /// Clear V.
    Clv,
    /// No operation.
    Nop,
}

/// A decoded instruction.
#[derive(Clone, Copy, Debug, PartialEq, Eq, Structural)]
pub struct Instruction {
    pub mnemonic: Mnemonic,
    pub mode: Mode,
}

impl Mode {
    /// The number of operand bytes that follow the opcode.
    pub open spec fn operand_length(self) -> int {
        match self {
            Mode::Implied | Mode::Accumulator => 0,
            Mode::Absolute | Mode::AbsoluteX | Mode::AbsoluteY | Mode::Indirect => 2,
            _ => 1,
        }
    }

    /// Whether the mode names a location in memory.
    pub open spec fn addresses_memory(self) -> bool {
        !(self is Implied || self is Accumulator || self is Relative)
    }
}

impl Mnemonic {
    /// The addressing modes the 6502 provides for this operation.
    pub open spec fn accepts(self, mode: Mode) -> bool {
        match self {
            Mnemonic::Lda
            | Mnemonic::And
            | Mnemonic::Ora
            | Mnemonic::Eor
            | Mnemonic::Adc
            | Mnemonic::Sbc
            | Mnemonic::Cmp => mode is Immediate || mode is ZeroPage || mode is ZeroPageX
                || mode is Absolute || mode is AbsoluteX || mode is AbsoluteY || mode is IndirectX
                || mode is IndirectY,
            Mnemonic::Ldx => mode is Immediate || mode is ZeroPage || mode is ZeroPageY
                || mode is Absolute || mode is AbsoluteY,
            Mnemonic::Ldy => mode is Immediate || mode is ZeroPage || mode is ZeroPageX
                || mode is Absolute || mode is AbsoluteX,
            Mnemonic::Sta => mode is ZeroPage || mode is ZeroPageX || mode is Absolute
                || mode is AbsoluteX || mode is AbsoluteY || mode is IndirectX || mode is IndirectY,
            Mnemonic::Stx => mode is ZeroPage || mode is ZeroPageY || mode is Absolute,
            Mnemonic::Sty => mode is ZeroPage || mode is ZeroPageX || mode is Absolute,
            Mnemonic::Cpx | Mnemonic::Cpy => mode is Immediate || mode is ZeroPage
                || mode is Absolute,
            Mnemonic::Bit => mode is ZeroPage || mode is Absolute,
            Mnemonic::Inc | Mnemonic::Dec => mode is ZeroPage || mode is ZeroPageX
                || mode is Absolute || mode is AbsoluteX,
            Mnemonic::Asl | Mnemonic::Lsr | Mnemonic::Rol | Mnemonic::Ror => mode is Accumulator
                || mode is ZeroPage || mode is ZeroPageX || mode is Absolute || mode is AbsoluteX,
            Mnemonic::Jmp => mode is Absolute || mode is Indirect,
            Mnemonic::Jsr => mode is Absolute,
            Mnemonic::Beq
            | Mnemonic::Bne
            | Mnemonic::Bcs
            | Mnemonic::Bcc
            | Mnemonic::Bmi
            | Mnemonic::Bpl
            | Mnemonic::Bvs
            | Mnemonic::Bvc => mode is Relative,
            _ => mode is Implied,
        }
    }

    /// Whether the operation writes to its effective address.
    pub open spec fn access(self) -> Access {
        match self {
            Mnemonic::Sta
            | Mnemonic::Stx
            | Mnemonic::Sty
            | Mnemonic::Inc
            | Mnemonic::Dec
            | Mnemonic::Asl
            | Mnemonic::Lsr
            | Mnemonic::Rol
            | Mnemonic::Ror => Access::Write,
            _ => Access::Read,
        }
    }
}

/// The instruction that applies `mnemonic` in the given mode.
pub open spec fn instruction(mnemonic: Mnemonic, mode: Mode) -> Instruction {
    Instruction { mnemonic, mode }
}

impl Instruction {
    /// The operation exists in the given addressing mode.
    pub open spec fn well_formed(self) -> bool {
        self.mnemonic.accepts(self.mode)
    }

    /// Pairs an operation with an addressing mode.
    pub fn new(mnemonic: Mnemonic, mode: Mode) -> (instr: Instruction)
        ensures
            instr == instruction(mnemonic, mode),
    {
        Instruction { mnemonic, mode }
    }
}

/// The opcode matrix of the 6502, in opcode order. Bytes that are not
/// listed are not instructions.
pub open spec fn decode_spec(opcode: u8) -> Option<Instruction> {
    match opcode {
        0x00 => Some(instruction(Mnemonic::Brk, Mode::Implied)),
        0x01 => Some(instruction(Mnemonic::Ora, Mode::IndirectX)),
        0x05 => Some(instruction(Mnemonic::Ora, Mode::ZeroPage)),
        0x06 => Some(instruction(Mnemonic::Asl, Mode::ZeroPage)),
        0x08 => Some(instruction(Mnemonic::Php, Mode::Implied)),
        0x09 => Some(instruction(Mnemonic::Ora, Mode::Immediate)),
        0x0A => Some(instruction(Mnemonic::Asl, Mode::Accumulator)),
        0x0D => Some(instruction(Mnemonic::Ora, Mode::Absolute)),
        0x0E => Some(instruction(Mnemonic::Asl, Mode::Absolute)),
        0x10 => Some(instruction(Mnemonic::Bpl, Mode::Relative)),
        0x11 => Some(instruction(Mnemonic::Ora, Mode::IndirectY)),
        0x15 => Some(instruction(Mnemonic::Ora, Mode::ZeroPageX)),
        0x16 => Some(instruction(Mnemonic::Asl, Mode::ZeroPageX)),
        0x18 => Some(instruction(Mnemonic::Clc, Mode::Implied)),
        0x19 => Some(instruction(Mnemonic::Ora, Mode::AbsoluteY)),
        0x1D => Some(instruction(Mnemonic::Ora, Mode::AbsoluteX)),
        0x1E => Some(instruction(Mnemonic::Asl, Mode::AbsoluteX)),
        0x20 => Some(instruction(Mnemonic::Jsr, Mode::Absolute)),
        0x21 => Some(instruction(Mnemonic::And, Mode::IndirectX)),
        0x24 => Some(instruction(Mnemonic::Bit, Mode::ZeroPage)),
        0x25 => Some(instruction(Mnemonic::And, Mode::ZeroPage)),
        0x26 => Some(instruction(Mnemonic::Rol, Mode::ZeroPage)),
        0x28 => Some(instruction(Mnemonic::Plp, Mode::Implied)),
        0x29 => Some(instruction(Mnemonic::And, Mode::Immediate)),
        0x2A => Some(instruction(Mnemonic::Rol, Mode::Accumulator)),
        0x2C => Some(instruction(Mnemonic::Bit, Mode::Absolute)),
        0x2D => Some(instruction(Mnemonic::And, Mode::Absolute)),
        0x2E => Some(instruction(Mnemonic::Rol, Mode::Absolute)),
        0x30 => Some(instruction(Mnemonic::Bmi, Mode::Relative)),
        0x31 => Some(instruction(Mnemonic::And, Mode::IndirectY)),
        0x35 => Some(instruction(Mnemonic::And, Mode::ZeroPageX)),
        0x36 => Some(instruction(Mnemonic::Rol, Mode::ZeroPageX)),
        0x38 => Some(instruction(Mnemonic::Sec, Mode::Implied)),
        0x39 => Some(instruction(Mnemonic::And, Mode::AbsoluteY)),
        0x3D => Some(instruction(Mnemonic::And, Mode::AbsoluteX)),
        0x3E => Some(instruction(Mnemonic::Rol, Mode::AbsoluteX)),
        0x40 => Some(instruction(Mnemonic::Rti, Mode::Implied)),
        0x41 => Some(instruction(Mnemonic::Eor, Mode::IndirectX)),
        0x45 => Some(instruction(Mnemonic::Eor, Mode::ZeroPage)),
        0x46 => Some(instruction(Mnemonic::Lsr, Mode::ZeroPage)),
        0x48 => Some(instruction(Mnemonic::Pha, Mode::Implied)),
        0x49 => Some(instruction(Mnemonic::Eor, Mode::Immediate)),
        0x4A => Some(instruction(Mnemonic::Lsr, Mode::Accumulator)),
        0x4C => Some(instruction(Mnemonic::Jmp, Mode::Absolute)),
        0x4D => Some(instruction(Mnemonic::Eor, Mode::Absolute)),
        0x4E => Some(instruction(Mnemonic::Lsr, Mode::Absolute)),
        0x50 => Some(instruction(Mnemonic::Bvc, Mode::Relative)),
        0x51 => Some(instruction(Mnemonic::Eor, Mode::IndirectY)),
        0x55 => Some(instruction(Mnemonic::Eor, Mode::ZeroPageX)),
        0x56 => Some(instruction(Mnemonic::Lsr, Mode::ZeroPageX)),
        0x58 => Some(instruction(Mnemonic::Cli, Mode::Implied)),
        0x59 => Some(instruction(Mnemonic::Eor, Mode::AbsoluteY)),
        0x5D => Some(instruction(Mnemonic::Eor, Mode::AbsoluteX)),
        0x5E => Some(instruction(Mnemonic::Lsr, Mode::AbsoluteX)),
        0x60 => Some(instruction(Mnemonic::Rts, Mode::Implied)),
        0x61 => Some(instruction(Mnemonic::Adc, Mode::IndirectX)),
        0x65 => Some(instruction(Mnemonic::Adc, Mode::ZeroPage)),
        0x66 => Some(instruction(Mnemonic::Ror, Mode::ZeroPage)),
        0x68 => Some(instruction(Mnemonic::Pla, Mode::Implied)),
        0x69 => Some(instruction(Mnemonic::Adc, Mode::Immediate)),
        0x6A => Some(instruction(Mnemonic::Ror, Mode::Accumulator)),
        0x6C => Some(instruction(Mnemonic::Jmp, Mode::Indirect)),
        0x6D => Some(instruction(Mnemonic::Adc, Mode::Absolute)),
        0x6E => Some(instruction(Mnemonic::Ror, Mode::Absolute)),
        0x70 => Some(instruction(Mnemonic::Bvs, Mode::Relative)),
        0x71 => Some(instruction(Mnemonic::Adc, Mode::IndirectY)),
        0x75 => Some(instruction(Mnemonic::Adc, Mode::ZeroPageX)),
        0x76 => Some(instruction(Mnemonic::Ror, Mode::ZeroPageX)),
        0x78 => Some(instruction(Mnemonic::Sei, Mode::Implied)),
        0x79 => Some(instruction(Mnemonic::Adc, Mode::AbsoluteY)),
        0x7D => Some(instruction(Mnemonic::Adc, Mode::AbsoluteX)),
        0x7E => Some(instruction(Mnemonic::Ror, Mode::AbsoluteX)),
        0x81 => Some(instruction(Mnemonic::Sta, Mode::IndirectX)),
        0x84 => Some(instruction(Mnemonic::Sty, Mode::ZeroPage)),
        0x85 => Some(instruction(Mnemonic::Sta, Mode::ZeroPage)),
        0x86 => Some(instruction(Mnemonic::Stx, Mode::ZeroPage)),
        0x88 => Some(instruction(Mnemonic::Dey, Mode::Implied)),
        0x8A => Some(instruction(Mnemonic::Txa, Mode::Implied)),
        0x8C => Some(instruction(Mnemonic::Sty, Mode::Absolute)),
        0x8D => Some(instruction(Mnemonic::Sta, Mode::Absolute)),
        0x8E => Some(instruction(Mnemonic::Stx, Mode::Absolute)),
        0x90 => Some(instruction(Mnemonic::Bcc, Mode::Relative)),
        0x91 => Some(instruction(Mnemonic::Sta, Mode::IndirectY)),
        0x94 => Some(instruction(Mnemonic::Sty, Mode::ZeroPageX)),
        0x95 => Some(instruction(Mnemonic::Sta, Mode::ZeroPageX)),
        0x96 => Some(instruction(Mnemonic::Stx, Mode::ZeroPageY)),
        0x98 => Some(instruction(Mnemonic::Tya, Mode::Implied)),
        0x99 => Some(instruction(Mnemonic::Sta, Mode::AbsoluteY)),
        0x9A => Some(instruction(Mnemonic::Txs, Mode::Implied)),
        0x9D => Some(instruction(Mnemonic::Sta, Mode::AbsoluteX)),
        0xA0 => Some(instruction(Mnemonic::Ldy, Mode::Immediate)),
        0xA1 => Some(instruction(Mnemonic::Lda, Mode::IndirectX)),
        0xA2 => Some(instruction(Mnemonic::Ldx, Mode::Immediate)),
        0xA4 => Some(instruction(Mnemonic::Ldy, Mode::ZeroPage)),
        0xA5 => Some(instruction(Mnemonic::Lda, Mode::ZeroPage)),
        0xA6 => Some(instruction(Mnemonic::Ldx, Mode::ZeroPage)),
        0xA8 => Some(instruction(Mnemonic::Tay, Mode::Implied)),
        0xA9 => Some(instruction(Mnemonic::Lda, Mode::Immediate)),
        0xAA => Some(instruction(Mnemonic::Tax, Mode::Implied)),
        0xAC => Some(instruction(Mnemonic::Ldy, Mode::Absolute)),
        0xAD => Some(instruction(Mnemonic::Lda, Mode::Absolute)),
        0xAE => Some(instruction(Mnemonic::Ldx, Mode::Absolute)),
        0xB0 => Some(instruction(Mnemonic::Bcs, Mode::Relative)),
        0xB1 => Some(instruction(Mnemonic::Lda, Mode::IndirectY)),
        0xB4 => Some(instruction(Mnemonic::Ldy, Mode::ZeroPageX)),
        0xB5 => Some(instruction(Mnemonic::Lda, Mode::ZeroPageX)),
        0xB6 => Some(instruction(Mnemonic::Ldx, Mode::ZeroPageY)),
        0xB8 => Some(instruction(Mnemonic::Clv, Mode::Implied)),
        0xB9 => Some(instruction(Mnemonic::Lda, Mode::AbsoluteY)),
        0xBA => Some(instruction(Mnemonic::Tsx, Mode::Implied)),
        0xBC => Some(instruction(Mnemonic::Ldy, Mode::AbsoluteX)),
        0xBD => Some(instruction(Mnemonic::Lda, Mode::AbsoluteX)),
        0xBE => Some(instruction(Mnemonic::Ldx, Mode::AbsoluteY)),
        0xC0 => Some(instruction(Mnemonic::Cpy, Mode::Immediate)),
        0xC1 => Some(instruction(Mnemonic::Cmp, Mode::IndirectX)),
        0xC4 => Some(instruction(Mnemonic::Cpy, Mode::ZeroPage)),
        0xC5 => Some(instruction(Mnemonic::Cmp, Mode::ZeroPage)),
        0xC6 => Some(instruction(Mnemonic::Dec, Mode::ZeroPage)),
        0xC8 => Some(instruction(Mnemonic::Iny, Mode::Implied)),
        0xC9 => Some(instruction(Mnemonic::Cmp, Mode::Immediate)),
        0xCA => Some(instruction(Mnemonic::Dex, Mode::Implied)),
        0xCC => Some(instruction(Mnemonic::Cpy, Mode::Absolute)),
        0xCD => Some(instruction(Mnemonic::Cmp, Mode::Absolute)),
        0xCE => Some(instruction(Mnemonic::Dec, Mode::Absolute)),
        0xD0 => Some(instruction(Mnemonic::Bne, Mode::Relative)),
        0xD1 => Some(instruction(Mnemonic::Cmp, Mode::IndirectY)),
        0xD5 => Some(instruction(Mnemonic::Cmp, Mode::ZeroPageX)),
        0xD6 => Some(instruction(Mnemonic::Dec, Mode::ZeroPageX)),
        0xD8 => Some(instruction(Mnemonic::Cld, Mode::Implied)),
        0xD9 => Some(instruction(Mnemonic::Cmp, Mode::AbsoluteY)),
        0xDD => Some(instruction(Mnemonic::Cmp, Mode::AbsoluteX)),
        0xDE => Some(instruction(Mnemonic::Dec, Mode::AbsoluteX)),
        0xE0 => Some(instruction(Mnemonic::Cpx, Mode::Immediate)),
        0xE1 => Some(instruction(Mnemonic::Sbc, Mode::IndirectX)),
        0xE4 => Some(instruction(Mnemonic::Cpx, Mode::ZeroPage)),
        0xE5 => Some(instruction(Mnemonic::Sbc, Mode::ZeroPage)),
        0xE6 => Some(instruction(Mnemonic::Inc, Mode::ZeroPage)),
        0xE8 => Some(instruction(Mnemonic::Inx, Mode::Implied)),
        0xE9 => Some(instruction(Mnemonic::Sbc, Mode::Immediate)),
        0xEA => Some(instruction(Mnemonic::Nop, Mode::Implied)),
        0xEC => Some(instruction(Mnemonic::Cpx, Mode::Absolute)),
        0xED => Some(instruction(Mnemonic::Sbc, Mode::Absolute)),
        0xEE => Some(instruction(Mnemonic::Inc, Mode::Absolute)),
        0xF0 => Some(instruction(Mnemonic::Beq, Mode::Relative)),
        0xF1 => Some(instruction(Mnemonic::Sbc, Mode::IndirectY)),
        0xF5 => Some(instruction(Mnemonic::Sbc, Mode::ZeroPageX)),
        0xF6 => Some(instruction(Mnemonic::Inc, Mode::ZeroPageX)),
        0xF8 => Some(instruction(Mnemonic::Sed, Mode::Implied)),
        0xF9 => Some(instruction(Mnemonic::Sbc, Mode::AbsoluteY)),
        0xFD => Some(instruction(Mnemonic::Sbc, Mode::AbsoluteX)),
        0xFE => Some(instruction(Mnemonic::Inc, Mode::AbsoluteX)),
        _ => None,
    }
}

/// Decodes an opcode byte. Returns `None` for a byte that is not an
/// instruction.
pub fn decode(opcode: u8) -> (decoded: Option<Instruction>)
    ensures
        decoded == decode_spec(opcode),
        decoded matches Some(instr) ==> instr.well_formed(),
{
    match opcode {
        instructions::INS_LDA_IM => Some(Instruction::new(Mnemonic::Lda, Mode::Immediate)),
        instructions::INS_LDA_ZP => Some(Instruction::new(Mnemonic::Lda, Mode::ZeroPage)),
        instructions::INS_LDA_ZPX => Some(Instruction::new(Mnemonic::Lda, Mode::ZeroPageX)),
        instructions::INS_LDA_ABS => Some(Instruction::new(Mnemonic::Lda, Mode::Absolute)),
        instructions::INS_LDA_ABSX => Some(Instruction::new(Mnemonic::Lda, Mode::AbsoluteX)),
        instructions::INS_LDA_ABSY => Some(Instruction::new(Mnemonic::Lda, Mode::AbsoluteY)),
        instructions::INS_LDA_INDX => Some(Instruction::new(Mnemonic::Lda, Mode::IndirectX)),
        instructions::INS_LDA_INDY => Some(Instruction::new(Mnemonic::Lda, Mode::IndirectY)),
        instructions::INS_LDX_IM => Some(Instruction::new(Mnemonic::Ldx, Mode::Immediate)),
        instructions::INS_LDX_ZP => Some(Instruction::new(Mnemonic::Ldx, Mode::ZeroPage)),
        instructions::INS_LDX_ZPY => Some(Instruction::new(Mnemonic::Ldx, Mode::ZeroPageY)),
        instructions::INS_LDX_ABS => Some(Instruction::new(Mnemonic::Ldx, Mode::Absolute)),
        instructions::INS_LDX_ABSY => Some(Instruction::new(Mnemonic::Ldx, Mode::AbsoluteY)),
        instructions::INS_LDY_IM => Some(Instruction::new(Mnemonic::Ldy, Mode::Immediate)),
        instructions::INS_LDY_ZP => Some(Instruction::new(Mnemonic::Ldy, Mode::ZeroPage)),
        instructions::INS_LDY_ZPX => Some(Instruction::new(Mnemonic::Ldy, Mode::ZeroPageX)),
        instructions::INS_LDY_ABS => Some(Instruction::new(Mnemonic::Ldy, Mode::Absolute)),
        instructions::INS_LDY_ABSX => Some(Instruction::new(Mnemonic::Ldy, Mode::AbsoluteX)),
        instructions::INS_STA_ZP => Some(Instruction::new(Mnemonic::Sta, Mode::ZeroPage)),
        instructions::INS_STA_ZPX => Some(Instruction::new(Mnemonic::Sta, Mode::ZeroPageX)),
        instructions::INS_STA_ABS => Some(Instruction::new(Mnemonic::Sta, Mode::Absolute)),
        instructions::INS_STA_ABSX => Some(Instruction::new(Mnemonic::Sta, Mode::AbsoluteX)),
        instructions::INS_STA_ABSY => Some(Instruction::new(Mnemonic::Sta, Mode::AbsoluteY)),
        instructions::INS_STA_INDX => Some(Instruction::new(Mnemonic::Sta, Mode::IndirectX)),
        instructions::INS_STA_INDY => Some(Instruction::new(Mnemonic::Sta, Mode::IndirectY)),
        instructions::INS_STX_ZP => Some(Instruction::new(Mnemonic::Stx, Mode::ZeroPage)),
        instructions::INS_STX_ZPY => Some(Instruction::new(Mnemonic::Stx, Mode::ZeroPageY)),
        instructions::INS_STX_ABS => Some(Instruction::new(Mnemonic::Stx, Mode::Absolute)),
        instructions::INS_STY_ZP => Some(Instruction::new(Mnemonic::Sty, Mode::ZeroPage)),
        instructions::INS_STY_ZPX => Some(Instruction::new(Mnemonic::Sty, Mode::ZeroPageX)),
        instructions::INS_STY_ABS => Some(Instruction::new(Mnemonic::Sty, Mode::Absolute)),
        instructions::INS_TAX => Some(Instruction::new(Mnemonic::Tax, Mode::Implied)),
        instructions::INS_TAY => Some(Instruction::new(Mnemonic::Tay, Mode::Implied)),
        instructions::INS_TXA => Some(Instruction::new(Mnemonic::Txa, Mode::Implied)),
        instructions::INS_TYA => Some(Instruction::new(Mnemonic::Tya, Mode::Implied)),
        instructions::INS_TSX => Some(Instruction::new(Mnemonic::Tsx, Mode::Implied)),
        instructions::INS_TXS => Some(Instruction::new(Mnemonic::Txs, Mode::Implied)),
        instructions::INS_PHA => Some(Instruction::new(Mnemonic::Pha, Mode::Implied)),
        instructions::INS_PLA => Some(Instruction::new(Mnemonic::Pla, Mode::Implied)),
        instructions::INS_PHP => Some(Instruction::new(Mnemonic::Php, Mode::Implied)),
        instructions::INS_PLP => Some(Instruction::new(Mnemonic::Plp, Mode::Implied)),
        instructions::INS_JMP_ABS => Some(Instruction::new(Mnemonic::Jmp, Mode::Absolute)),
        instructions::INS_JMP_IND => Some(Instruction::new(Mnemonic::Jmp, Mode::Indirect)),
        instructions::INS_JSR => Some(Instruction::new(Mnemonic::Jsr, Mode::Absolute)),
        instructions::INS_RTS => Some(Instruction::new(Mnemonic::Rts, Mode::Implied)),
        instructions::INS_RTI => Some(Instruction::new(Mnemonic::Rti, Mode::Implied)),
        instructions::INS_BRK => Some(Instruction::new(Mnemonic::Brk, Mode::Implied)),
        instructions::INS_AND_IM => Some(Instruction::new(Mnemonic::And, Mode::Immediate)),
        instructions::INS_AND_ZP => Some(Instruction::new(Mnemonic::And, Mode::ZeroPage)),
        instructions::INS_AND_ZPX => Some(Instruction::new(Mnemonic::And, Mode::ZeroPageX)),
        instructions::INS_AND_ABS => Some(Instruction::new(Mnemonic::And, Mode::Absolute)),
        instructions::INS_AND_ABSX => Some(Instruction::new(Mnemonic::And, Mode::AbsoluteX)),
        instructions::INS_AND_ABSY => Some(Instruction::new(Mnemonic::And, Mode::AbsoluteY)),
        instructions::INS_AND_INDX => Some(Instruction::new(Mnemonic::And, Mode::IndirectX)),
        instructions::INS_AND_INDY => Some(Instruction::new(Mnemonic::And, Mode::IndirectY)),
        instructions::INS_ORA_IM => Some(Instruction::new(Mnemonic::Ora, Mode::Immediate)),
        instructions::INS_ORA_ZP => Some(Instruction::new(Mnemonic::Ora, Mode::ZeroPage)),
        instructions::INS_ORA_ZPX => Some(Instruction::new(Mnemonic::Ora, Mode::ZeroPageX)),
        instructions::INS_ORA_ABS => Some(Instruction::new(Mnemonic::Ora, Mode::Absolute)),
        instructions::INS_ORA_ABSX => Some(Instruction::new(Mnemonic::Ora, Mode::AbsoluteX)),
        instructions::INS_ORA_ABSY => Some(Instruction::new(Mnemonic::Ora, Mode::AbsoluteY)),
        instructions::INS_ORA_INDX => Some(Instruction::new(Mnemonic::Ora, Mode::IndirectX)),
        instructions::INS_ORA_INDY => Some(Instruction::new(Mnemonic::Ora, Mode::IndirectY)),
        instructions::INS_EOR_IM => Some(Instruction::new(Mnemonic::Eor, Mode::Immediate)),
        instructions::INS_EOR_ZP => Some(Instruction::new(Mnemonic::Eor, Mode::ZeroPage)),
        instructions::INS_EOR_ZPX => Some(Instruction::new(Mnemonic::Eor, Mode::ZeroPageX)),
        instructions::INS_EOR_ABS => Some(Instruction::new(Mnemonic::Eor, Mode::Absolute)),
        instructions::INS_EOR_ABSX => Some(Instruction::new(Mnemonic::Eor, Mode::AbsoluteX)),
        instructions::INS_EOR_ABSY => Some(Instruction::new(Mnemonic::Eor, Mode::AbsoluteY)),
        instructions::INS_EOR_INDX => Some(Instruction::new(Mnemonic::Eor, Mode::IndirectX)),
        instructions::INS_EOR_INDY => Some(Instruction::new(Mnemonic::Eor, Mode::IndirectY)),
        instructions::INS_BIT_ZP => Some(Instruction::new(Mnemonic::Bit, Mode::ZeroPage)),
        instructions::INS_BIT_ABS => Some(Instruction::new(Mnemonic::Bit, Mode::Absolute)),
        instructions::INS_ADC => Some(Instruction::new(Mnemonic::Adc, Mode::Immediate)),
        instructions::INS_ADC_ZP => Some(Instruction::new(Mnemonic::Adc, Mode::ZeroPage)),
        instructions::INS_ADC_ZPX => Some(Instruction::new(Mnemonic::Adc, Mode::ZeroPageX)),
        instructions::INS_ADC_ABS => Some(Instruction::new(Mnemonic::Adc, Mode::Absolute)),
        instructions::INS_ADC_ABSX => Some(Instruction::new(Mnemonic::Adc, Mode::AbsoluteX)),
        instructions::INS_ADC_ABSY => Some(Instruction::new(Mnemonic::Adc, Mode::AbsoluteY)),
        instructions::INS_ADC_INDX => Some(Instruction::new(Mnemonic::Adc, Mode::IndirectX)),
        instructions::INS_ADC_INDY => Some(Instruction::new(Mnemonic::Adc, Mode::IndirectY)),
        instructions::INS_SBC => Some(Instruction::new(Mnemonic::Sbc, Mode::Immediate)),
        instructions::INS_SBC_ZP => Some(Instruction::new(Mnemonic::Sbc, Mode::ZeroPage)),
        instructions::INS_SBC_ZPX => Some(Instruction::new(Mnemonic::Sbc, Mode::ZeroPageX)),
        instructions::INS_SBC_ABS => Some(Instruction::new(Mnemonic::Sbc, Mode::Absolute)),
        instructions::INS_SBC_ABSX => Some(Instruction::new(Mnemonic::Sbc, Mode::AbsoluteX)),
        instructions::INS_SBC_ABSY => Some(Instruction::new(Mnemonic::Sbc, Mode::AbsoluteY)),
        instructions::INS_SBC_INDX => Some(Instruction::new(Mnemonic::Sbc, Mode::IndirectX)),
        instructions::INS_SBC_INDY => Some(Instruction::new(Mnemonic::Sbc, Mode::IndirectY)),
        instructions::INS_CMP => Some(Instruction::new(Mnemonic::Cmp, Mode::Immediate)),
        instructions::INS_CMP_ZP => Some(Instruction::new(Mnemonic::Cmp, Mode::ZeroPage)),
        instructions::INS_CMP_ZPX => Some(Instruction::new(Mnemonic::Cmp, Mode::ZeroPageX)),
        instructions::INS_CMP_ABS => Some(Instruction::new(Mnemonic::Cmp, Mode::Absolute)),
        instructions::INS_CMP_ABSX => Some(Instruction::new(Mnemonic::Cmp, Mode::AbsoluteX)),
        instructions::INS_CMP_ABSY => Some(Instruction::new(Mnemonic::Cmp, Mode::AbsoluteY)),
        instructions::INS_CMP_INDX => Some(Instruction::new(Mnemonic::Cmp, Mode::IndirectX)),
        instructions::INS_CMP_INDY => Some(Instruction::new(Mnemonic::Cmp, Mode::IndirectY)),
        instructions::INS_CPX => Some(Instruction::new(Mnemonic::Cpx, Mode::Immediate)),
        instructions::INS_CPX_ZP => Some(Instruction::new(Mnemonic::Cpx, Mode::ZeroPage)),
        instructions::INS_CPX_ABS => Some(Instruction::new(Mnemonic::Cpx, Mode::Absolute)),
        instructions::INS_CPY => Some(Instruction::new(Mnemonic::Cpy, Mode::Immediate)),
        instructions::INS_CPY_ZP => Some(Instruction::new(Mnemonic::Cpy, Mode::ZeroPage)),
        instructions::INS_CPY_ABS => Some(Instruction::new(Mnemonic::Cpy, Mode::Absolute)),
        instructions::INS_INC_ZP => Some(Instruction::new(Mnemonic::Inc, Mode::ZeroPage)),
        instructions::INS_INC_ZPX => Some(Instruction::new(Mnemonic::Inc, Mode::ZeroPageX)),
        instructions::INS_INC_ABS => Some(Instruction::new(Mnemonic::Inc, Mode::Absolute)),
        instructions::INS_INC_ABSX => Some(Instruction::new(Mnemonic::Inc, Mode::AbsoluteX)),
        instructions::INS_DEC_ZP => Some(Instruction::new(Mnemonic::Dec, Mode::ZeroPage)),
        instructions::INS_DEC_ZPX => Some(Instruction::new(Mnemonic::Dec, Mode::ZeroPageX)),
        instructions::INS_DEC_ABS => Some(Instruction::new(Mnemonic::Dec, Mode::Absolute)),
        instructions::INS_DEC_ABSX => Some(Instruction::new(Mnemonic::Dec, Mode::AbsoluteX)),
        instructions::INS_INX => Some(Instruction::new(Mnemonic::Inx, Mode::Implied)),
        instructions::INS_INY => Some(Instruction::new(Mnemonic::Iny, Mode::Implied)),
        instructions::INS_DEX => Some(Instruction::new(Mnemonic::Dex, Mode::Implied)),
        instructions::INS_DEY => Some(Instruction::new(Mnemonic::Dey, Mode::Implied)),
        instructions::INS_ASL => Some(Instruction::new(Mnemonic::Asl, Mode::Accumulator)),
        instructions::INS_ASL_ZP => Some(Instruction::new(Mnemonic::Asl, Mode::ZeroPage)),
        instructions::INS_ASL_ZPX => Some(Instruction::new(Mnemonic::Asl, Mode::ZeroPageX)),
        instructions::INS_ASL_ABS => Some(Instruction::new(Mnemonic::Asl, Mode::Absolute)),
        instructions::INS_ASL_ABSX => Some(Instruction::new(Mnemonic::Asl, Mode::AbsoluteX)),
        instructions::INS_LSR => Some(Instruction::new(Mnemonic::Lsr, Mode::Accumulator)),
        instructions::INS_LSR_ZP => Some(Instruction::new(Mnemonic::Lsr, Mode::ZeroPage)),
        instructions::INS_LSR_ZPX => Some(Instruction::new(Mnemonic::Lsr, Mode::ZeroPageX)),
        instructions::INS_LSR_ABS => Some(Instruction::new(Mnemonic::Lsr, Mode::Absolute)),
        instructions::INS_LSR_ABSX => Some(Instruction::new(Mnemonic::Lsr, Mode::AbsoluteX)),
        instructions::INS_ROL => Some(Instruction::new(Mnemonic::Rol, Mode::Accumulator)),
        instructions::INS_ROL_ZP => Some(Instruction::new(Mnemonic::Rol, Mode::ZeroPage)),
        instructions::INS_ROL_ZPX => Some(Instruction::new(Mnemonic::Rol, Mode::ZeroPageX)),
        instructions::INS_ROL_ABS => Some(Instruction::new(Mnemonic::Rol, Mode::Absolute)),
        instructions::INS_ROL_ABSX => Some(Instruction::new(Mnemonic::Rol, Mode::AbsoluteX)),
        instructions::INS_ROR => Some(Instruction::new(Mnemonic::Ror, Mode::Accumulator)),
        instructions::INS_ROR_ZP => Some(Instruction::new(Mnemonic::Ror, Mode::ZeroPage)),
        instructions::INS_ROR_ZPX => Some(Instruction::new(Mnemonic::Ror, Mode::ZeroPageX)),
        instructions::INS_ROR_ABS => Some(Instruction::new(Mnemonic::Ror, Mode::Absolute)),
        instructions::INS_ROR_ABSX => Some(Instruction::new(Mnemonic::Ror, Mode::AbsoluteX)),
        instructions::INS_BEQ => Some(Instruction::new(Mnemonic::Beq, Mode::Relative)),
        instructions::INS_BNE => Some(Instruction::new(Mnemonic::Bne, Mode::Relative)),
        instructions::INS_BCS => Some(Instruction::new(Mnemonic::Bcs, Mode::Relative)),
        instructions::INS_BCC => Some(Instruction::new(Mnemonic::Bcc, Mode::Relative)),
        instructions::INS_BMI => Some(Instruction::new(Mnemonic::Bmi, Mode::Relative)),
        instructions::INS_BPL => Some(Instruction::new(Mnemonic::Bpl, Mode::Relative)),
        instructions::INS_BVS => Some(Instruction::new(Mnemonic::Bvs, Mode::Relative)),
        instructions::INS_BVC => Some(Instruction::new(Mnemonic::Bvc, Mode::Relative)),
        instructions::INS_CLC => Some(Instruction::new(Mnemonic::Clc, Mode::Implied)),
        instructions::INS_SEC => Some(Instruction::new(Mnemonic::Sec, Mode::Implied)),
        instructions::INS_CLD => Some(Instruction::new(Mnemonic::Cld, Mode::Implied)),
        instructions::INS_SED => Some(Instruction::new(Mnemonic::Sed, Mode::Implied)),
        instructions::INS_CLI => Some(Instruction::new(Mnemonic::Cli, Mode::Implied)),
        instructions::INS_SEI => Some(Instruction::new(Mnemonic::Sei, Mode::Implied)),
        instructions::INS_CLV => Some(Instruction::new(Mnemonic::Clv, Mode::Implied)),
        instructions::INS_NOP => Some(Instruction::new(Mnemonic::Nop, Mode::Implied)),
        _ => None,
    }
}

/// Every instruction in the opcode matrix pairs an operation with one of its
/// own addressing modes.
pub proof fn lemma_decoded_well_formed(opcode: u8)
    ensures
        decode_spec(opcode) matches Some(instr) ==> instr.well_formed(),
{
}

} // verus!
