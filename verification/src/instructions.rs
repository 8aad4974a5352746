//! Opcode bytes and the bit layout of the serialised status register.
//!
//! Opcode names follow the pattern `INS_<mnemonic>_<mode>`. A name without a
//! mode suffix is the immediate form for instructions that take an operand
//! and the accumulator form for shifts and rotates.

use vstd::prelude::*;

verus! {

// Bits of the status byte, as PHP pushes it and PLP pulls it
pub const NEGATIVE_FLAG_BIT: u8 = 0x80;
pub const OVERFLOW_FLAG_BIT: u8 = 0x40;
pub const UNUSED_FLAG_BIT: u8 = 0x20;
pub const BREAK_FLAG_BIT: u8 = 0x10;
pub const DECIMAL_FLAG_BIT: u8 = 0x08;
pub const INTERRUPT_DISABLE_FLAG_BIT: u8 = 0x04;
pub const ZERO_FLAG_BIT: u8 = 0x02;
pub const CARRY_FLAG_BIT: u8 = 0x01;

// LDA
pub const INS_LDA_IM: u8 = 0xA9;
pub const INS_LDA_ZP: u8 = 0xA5;
pub const INS_LDA_ZPX: u8 = 0xB5;
pub const INS_LDA_ABS: u8 = 0xAD;
pub const INS_LDA_ABSX: u8 = 0xBD;
pub const INS_LDA_ABSY: u8 = 0xB9;
pub const INS_LDA_INDX: u8 = 0xA1;
pub const INS_LDA_INDY: u8 = 0xB1;

// LDX
pub const INS_LDX_IM: u8 = 0xA2;
pub const INS_LDX_ZP: u8 = 0xA6;
pub const INS_LDX_ZPY: u8 = 0xB6;
pub const INS_LDX_ABS: u8 = 0xAE;
pub const INS_LDX_ABSY: u8 = 0xBE;

// LDY
pub const INS_LDY_IM: u8 = 0xA0;
pub const INS_LDY_ZP: u8 = 0xA4;
pub const INS_LDY_ZPX: u8 = 0xB4;
pub const INS_LDY_ABS: u8 = 0xAC;
pub const INS_LDY_ABSX: u8 = 0xBC;

// STA
pub const INS_STA_ZP: u8 = 0x85;
pub const INS_STA_ZPX: u8 = 0x95;
pub const INS_STA_ABS: u8 = 0x8D;
pub const INS_STA_ABSX: u8 = 0x9D;
pub const INS_STA_ABSY: u8 = 0x99;
pub const INS_STA_INDX: u8 = 0x81;
pub const INS_STA_INDY: u8 = 0x91;

// STX
pub const INS_STX_ZP: u8 = 0x86;
pub const INS_STX_ZPY: u8 = 0x96;
pub const INS_STX_ABS: u8 = 0x8E;

// STY
pub const INS_STY_ZP: u8 = 0x84;
pub const INS_STY_ZPX: u8 = 0x94;
pub const INS_STY_ABS: u8 = 0x8C;
pub const INS_TSX: u8 = 0xBA;
pub const INS_TXS: u8 = 0x9A;
pub const INS_PHA: u8 = 0x48;
pub const INS_PLA: u8 = 0x68;
pub const INS_PHP: u8 = 0x08;
pub const INS_PLP: u8 = 0x28;
pub const INS_JMP_ABS: u8 = 0x4C;
pub const INS_JMP_IND: u8 = 0x6C;
pub const INS_JSR: u8 = 0x20;
pub const INS_RTS: u8 = 0x60;

// Logical Ops

// AND
pub const INS_AND_IM: u8 = 0x29;
pub const INS_AND_ZP: u8 = 0x25;
pub const INS_AND_ZPX: u8 = 0x35;
pub const INS_AND_ABS: u8 = 0x2D;
pub const INS_AND_ABSX: u8 = 0x3D;
pub const INS_AND_ABSY: u8 = 0x39;
pub const INS_AND_INDX: u8 = 0x21;
pub const INS_AND_INDY: u8 = 0x31;

// ORA
pub const INS_ORA_IM: u8 = 0x09;
pub const INS_ORA_ZP: u8 = 0x05;
pub const INS_ORA_ZPX: u8 = 0x15;
pub const INS_ORA_ABS: u8 = 0x0D;
pub const INS_ORA_ABSX: u8 = 0x1D;
pub const INS_ORA_ABSY: u8 = 0x19;
pub const INS_ORA_INDX: u8 = 0x01;
pub const INS_ORA_INDY: u8 = 0x11;

// EOR
pub const INS_EOR_IM: u8 = 0x49;
pub const INS_EOR_ZP: u8 = 0x45;
pub const INS_EOR_ZPX: u8 = 0x55;
pub const INS_EOR_ABS: u8 = 0x4D;
pub const INS_EOR_ABSX: u8 = 0x5D;
pub const INS_EOR_ABSY: u8 = 0x59;
pub const INS_EOR_INDX: u8 = 0x41;
pub const INS_EOR_INDY: u8 = 0x51;

// BIT
pub const INS_BIT_ZP: u8 = 0x24;
pub const INS_BIT_ABS: u8 = 0x2C;

// Transfer Registers
pub const INS_TAX: u8 = 0xAA;
pub const INS_TAY: u8 = 0xA8;
pub const INS_TXA: u8 = 0x8A;
pub const INS_TYA: u8 = 0x98;

// Increments, Decrements
pub const INS_INX: u8 = 0xE8;
pub const INS_INY: u8 = 0xC8;
pub const INS_DEY: u8 = 0x88;
pub const INS_DEX: u8 = 0xCA;
pub const INS_DEC_ZP: u8 = 0xC6;
pub const INS_DEC_ZPX: u8 = 0xD6;
pub const INS_DEC_ABS: u8 = 0xCE;
pub const INS_DEC_ABSX: u8 = 0xDE;
pub const INS_INC_ZP: u8 = 0xE6;
pub const INS_INC_ZPX: u8 = 0xF6;
pub const INS_INC_ABS: u8 = 0xEE;
pub const INS_INC_ABSX: u8 = 0xFE;

// Branches
pub const INS_BEQ: u8 = 0xF0;
pub const INS_BNE: u8 = 0xD0;
pub const INS_BCS: u8 = 0xB0;
pub const INS_BCC: u8 = 0x90;
pub const INS_BMI: u8 = 0x30;
pub const INS_BPL: u8 = 0x10;
pub const INS_BVC: u8 = 0x50;
pub const INS_BVS: u8 = 0x70;

// Status Flag Changes
pub const INS_CLC: u8 = 0x18;
pub const INS_SEC: u8 = 0x38;
pub const INS_CLD: u8 = 0xD8;
pub const INS_SED: u8 = 0xF8;
pub const INS_CLI: u8 = 0x58;
pub const INS_SEI: u8 = 0x78;
pub const INS_CLV: u8 = 0xB8;

// Arithmetic
pub const INS_ADC: u8 = 0x69;
pub const INS_ADC_ZP: u8 = 0x65;
pub const INS_ADC_ZPX: u8 = 0x75;
pub const INS_ADC_ABS: u8 = 0x6D;
pub const INS_ADC_ABSX: u8 = 0x7D;
pub const INS_ADC_ABSY: u8 = 0x79;
pub const INS_ADC_INDX: u8 = 0x61;
pub const INS_ADC_INDY: u8 = 0x71;
pub const INS_SBC: u8 = 0xE9;
pub const INS_SBC_ABS: u8 = 0xED;
pub const INS_SBC_ZP: u8 = 0xE5;
pub const INS_SBC_ZPX: u8 = 0xF5;
pub const INS_SBC_ABSX: u8 = 0xFD;
pub const INS_SBC_ABSY: u8 = 0xF9;
pub const INS_SBC_INDX: u8 = 0xE1;
pub const INS_SBC_INDY: u8 = 0xF1;

// Register Comparison
pub const INS_CMP: u8 = 0xC9;
pub const INS_CMP_ZP: u8 = 0xC5;
pub const INS_CMP_ZPX: u8 = 0xD5;
pub const INS_CMP_ABS: u8 = 0xCD;
pub const INS_CMP_ABSX: u8 = 0xDD;
pub const INS_CMP_ABSY: u8 = 0xD9;
pub const INS_CMP_INDX: u8 = 0xC1;
pub const INS_CMP_INDY: u8 = 0xD1;
pub const INS_CPX: u8 = 0xE0;
pub const INS_CPY: u8 = 0xC0;
pub const INS_CPX_ZP: u8 = 0xE4;
pub const INS_CPY_ZP: u8 = 0xC4;
pub const INS_CPX_ABS: u8 = 0xEC;
pub const INS_CPY_ABS: u8 = 0xCC;

// Shifts
pub const INS_ASL: u8 = 0x0A;
pub const INS_ASL_ZP: u8 = 0x06;
pub const INS_ASL_ZPX: u8 = 0x16;
pub const INS_ASL_ABS: u8 = 0x0E;
pub const INS_ASL_ABSX: u8 = 0x1E;
pub const INS_LSR: u8 = 0x4A;
pub const INS_LSR_ZP: u8 = 0x46;
pub const INS_LSR_ZPX: u8 = 0x56;
pub const INS_LSR_ABS: u8 = 0x4E;
pub const INS_LSR_ABSX: u8 = 0x5E;
pub const INS_ROL: u8 = 0x2A;
pub const INS_ROL_ZP: u8 = 0x26;
pub const INS_ROL_ZPX: u8 = 0x36;
pub const INS_ROL_ABS: u8 = 0x2E;
pub const INS_ROL_ABSX: u8 = 0x3E;
pub const INS_ROR: u8 = 0x6A;
pub const INS_ROR_ZP: u8 = 0x66;
pub const INS_ROR_ZPX: u8 = 0x76;
pub const INS_ROR_ABS: u8 = 0x6E;
pub const INS_ROR_ABSX: u8 = 0x7E;

// Misc
pub const INS_NOP: u8 = 0xEA;
pub const INS_BRK: u8 = 0x00;
pub const INS_RTI: u8 = 0x40;

} // verus!
