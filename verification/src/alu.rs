//! Arithmetic, logic, shifts and compares, with their effects on the flags.
//!
//! The specification functions say what each operation computes in integer
//! arithmetic. The executable functions work on bits, as the hardware does,
//! and are proved to compute the same.

use vstd::prelude::*;
use crate::bytes::{
    bit0, bit6, bit7, has_bit0, has_bit6, has_bit7, peek, signed, split_word, wrap_byte,
};
use crate::cpu::Cpu;
use crate::memory::Memory;
use crate::status::StatusFlags;

verus! {

/// The carry flag as a number.
pub open spec fn carry_value(carry: bool) -> int {
    if carry {
        1
    } else {
        0
    }
}

/// ASL: bit 7 falls out, zero comes in at bit 0.
pub open spec fn asl_result(operand: u8) -> u8 {
    wrap_byte(operand * 2)
}

/// LSR: bit 0 falls out, zero comes in at bit 7.
pub open spec fn lsr_result(operand: u8) -> u8 {
    (operand / 2) as u8
}

/// ROL: bit 7 falls out, the old carry comes in at bit 0.
pub open spec fn rol_result(operand: u8, carry: bool) -> u8 {
    wrap_byte(operand * 2 + carry_value(carry))
}

/// ROR: bit 0 falls out, the old carry comes in at bit 7.
pub open spec fn ror_result(operand: u8, carry: bool) -> u8 {
    (operand / 2 + 128 * carry_value(carry)) as u8
}

impl Cpu {
    /// The state after ADC in binary mode. With `sum = A + operand + C`: the
    /// new A is `sum` modulo 256, C tells whether `sum` exceeded 255, V
    /// tells whether A and the operand had the same sign and the result has
    /// the other one, and Z and N follow the new A.
    pub open spec fn after_adc(self, operand: u8) -> Cpu {
        let sum = self.reg_a + operand + carry_value(self.status.carry);
        let result = wrap_byte(sum);
        Cpu {
            reg_a: result,
            status: StatusFlags {
                carry: sum > 255,
                overflow: bit7(self.reg_a) == bit7(operand) && bit7(self.reg_a) != bit7(result),
                ..self.status
            }.with_zn(result),
            ..self
        }
    }

    /// The state after SBC: ADC of the operand's ones' complement, so that a
    /// set carry means no borrow.
    pub open spec fn after_sbc(self, operand: u8) -> Cpu {
        self.after_adc((255 - operand) as u8)
    }

    /// The state after comparing `reg` with `operand`: C tells whether
    /// `reg >= operand`, Z whether they are equal, and N is bit 7 of their
    /// difference modulo 256. No register changes.
    pub open spec fn after_compare(self, reg: u8, operand: u8) -> Cpu {
        Cpu {
            status: StatusFlags {
                carry: reg >= operand,
                zero: reg == operand,
                negative: bit7(wrap_byte(reg - operand)),
                ..self.status
            },
            ..self
        }
    }

    /// The state after BIT: Z tells whether A and the value share no bit, N
    /// and V are bits 7 and 6 of the value. A does not change.
    pub open spec fn after_bit_test(self, value: u8) -> Cpu {
        Cpu {
            status: StatusFlags {
                zero: (self.reg_a & value) == 0,
                negative: bit7(value),
                overflow: bit6(value),
                ..self.status
            },
            ..self
        }
    }

    /// The flags after a shift or rotate that moved `carry_out` into C and
    /// produced `result`.
    pub open spec fn after_shift(self, carry_out: bool, result: u8) -> Cpu {
        Cpu { status: StatusFlags { carry: carry_out, ..self.status }.with_zn(result), ..self }
    }

    /// Sets Z when `value` is zero and N when bit 7 of `value` is set.
    /// Nothing else changes.
    pub fn set_zero_and_negative_flags(&mut self, value: u8)
        ensures
            final(self).status.zero == (value == 0),
            final(self).status.negative == (value >= 128),
            *final(self) == old(self).with_zn(value),
    {
        self.status.zero = value == 0;
        self.status.negative = has_bit7(value);
    }

    /// LDA from memory. Costs one cycle.
    pub fn load_register_a(&mut self, addr: u16, memory: &Memory, cycles: &mut i32)
        requires
            *old(cycles) >= i32::MIN + 1,
        ensures
            *final(self) == old(self).load_a(peek(memory@, addr)),
            *final(cycles) == *old(cycles) - 1,
    {
        self.reg_a = self.read_byte(memory, addr, cycles);
        self.set_zero_and_negative_flags(self.reg_a);
    }

    /// LDX from memory. Costs one cycle.
    pub fn load_register_x(&mut self, addr: u16, memory: &Memory, cycles: &mut i32)
        requires
            *old(cycles) >= i32::MIN + 1,
        ensures
            *final(self) == old(self).load_x(peek(memory@, addr)),
            *final(cycles) == *old(cycles) - 1,
    {
        self.reg_x = self.read_byte(memory, addr, cycles);
        self.set_zero_and_negative_flags(self.reg_x);
    }

    /// LDY from memory. Costs one cycle.
    pub fn load_register_y(&mut self, addr: u16, memory: &Memory, cycles: &mut i32)
        requires
            *old(cycles) >= i32::MIN + 1,
        ensures
            *final(self) == old(self).load_y(peek(memory@, addr)),
            *final(cycles) == *old(cycles) - 1,
    {
        self.reg_y = self.read_byte(memory, addr, cycles);
        self.set_zero_and_negative_flags(self.reg_y);
    }

    /// AND of A with the byte at `addr`. Costs one cycle.
    pub fn and(&mut self, addr: u16, memory: &Memory, cycles: &mut i32)
        requires
            *old(cycles) >= i32::MIN + 1,
        ensures
            *final(self) == old(self).load_a(old(self).reg_a & peek(memory@, addr)),
            *final(cycles) == *old(cycles) - 1,
    {
        self.reg_a = self.reg_a & self.read_byte(memory, addr, cycles);
        self.set_zero_and_negative_flags(self.reg_a);
    }

    /// OR of A with the byte at `addr`. Costs one cycle.
    pub fn ora(&mut self, addr: u16, memory: &Memory, cycles: &mut i32)
        requires
            *old(cycles) >= i32::MIN + 1,
        ensures
            *final(self) == old(self).load_a(old(self).reg_a | peek(memory@, addr)),
            *final(cycles) == *old(cycles) - 1,
    {
        self.reg_a = self.reg_a | self.read_byte(memory, addr, cycles);
        self.set_zero_and_negative_flags(self.reg_a);
    }

    /// Exclusive OR of A with the byte at `addr`. Costs one cycle.
    pub fn eor(&mut self, addr: u16, memory: &Memory, cycles: &mut i32)
        requires
            *old(cycles) >= i32::MIN + 1,
        ensures
            *final(self) == old(self).load_a(old(self).reg_a ^ peek(memory@, addr)),
            *final(cycles) == *old(cycles) - 1,
    {
        self.reg_a = self.reg_a ^ self.read_byte(memory, addr, cycles);
        self.set_zero_and_negative_flags(self.reg_a);
    }

    /// BIT against the byte at `addr`. Costs one cycle.
    pub fn bit_test(&mut self, addr: u16, memory: &Memory, cycles: &mut i32)
        requires
            *old(cycles) >= i32::MIN + 1,
        ensures
            *final(self) == old(self).after_bit_test(peek(memory@, addr)),
            *final(cycles) == *old(cycles) - 1,
    {
        let value: u8 = self.read_byte(memory, addr, cycles);
        self.status.zero = (self.reg_a & value) == 0;
        self.status.negative = has_bit7(value);
        self.status.overflow = has_bit6(value);
    }

    /// ADC in binary mode: adds the operand and the carry to A.
    pub fn adc(&mut self, operand: u8)
        ensures
            final(self).reg_a == (old(self).reg_a + operand + carry_value(old(self).status.carry))
                % 256,
            final(self).status.carry == (old(self).reg_a + operand + carry_value(
                old(self).status.carry,
            ) > 255),
            final(self).status.overflow == (bit7(old(self).reg_a) == bit7(operand) && bit7(
                old(self).reg_a,
            ) != bit7(final(self).reg_a)),
            final(self).status.overflow == !(-128 <= signed(old(self).reg_a) + signed(operand)
                + carry_value(old(self).status.carry) <= 127),
            final(self).status.zero == (final(self).reg_a == 0),
            final(self).status.negative == (final(self).reg_a >= 128),
            *final(self) == old(self).after_adc(operand),
    {
        let carry: u16 = if self.status.carry {
            1
        } else {
            0
        };
        let sum: u16 = self.reg_a as u16 + operand as u16 + carry;
        let (result, _) = split_word(sum);
        let a: u8 = self.reg_a;
        assert((((a ^ result) & (operand ^ result) & 0x80) != 0) == ((a >= 128) == (operand >= 128)
            && (a >= 128) != (result >= 128))) by (bit_vector);
        self.status.carry = sum > 0xFF;
        self.status.overflow = ((self.reg_a ^ result) & (operand ^ result) & 0x80) != 0;
        self.reg_a = result;
        self.set_zero_and_negative_flags(self.reg_a);
    }

    /// SBC in binary mode: ADC of the operand's ones' complement.
    pub fn sbc(&mut self, operand: u8)
        ensures
            *final(self) == old(self).after_adc((255 - operand) as u8),
            *final(self) == old(self).after_sbc(operand),
    {
        assert(!operand == 255 - operand) by (bit_vector);
        self.adc(!operand);
    }

    /// Compares `reg` with `operand` and sets C, Z and N.
    pub fn cmp(&mut self, operand: u8, reg: u8)
        ensures
            *final(self) == old(self).after_compare(reg, operand),
    {
        let result: u8 = reg.wrapping_sub(operand);
        self.status.carry = reg >= operand;
        self.status.zero = result == 0;
        self.status.negative = has_bit7(result);
    }

    /// ASL: returns the operand shifted left and sets C, Z and N. Costs one
    /// cycle.
    pub fn asl(&mut self, operand: u8, cycles: &mut i32) -> (result: u8)
        requires
            *old(cycles) >= i32::MIN + 1,
        ensures
            result == asl_result(operand),
            *final(self) == old(self).after_shift(bit7(operand), result),
            *final(cycles) == *old(cycles) - 1,
    {
        assert((operand << 1) == (operand * 2) % 256) by (bit_vector);
        self.status.carry = has_bit7(operand);
        let result: u8 = operand << 1;
        self.set_zero_and_negative_flags(result);
        *cycles -= 1;
        result
    }

    /// LSR: returns the operand shifted right and sets C, Z and N. Costs one
    /// cycle.
    pub fn lsr(&mut self, operand: u8, cycles: &mut i32) -> (result: u8)
        requires
            *old(cycles) >= i32::MIN + 1,
        ensures
            result == lsr_result(operand),
            *final(self) == old(self).after_shift(bit0(operand), result),
            *final(cycles) == *old(cycles) - 1,
    {
        assert((operand >> 1) == operand / 2) by (bit_vector);
        self.status.carry = has_bit0(operand);
        let result: u8 = operand >> 1;
        self.set_zero_and_negative_flags(result);
        *cycles -= 1;
        result
    }

    /// ROL: returns the operand rotated left through the carry and sets C, Z
    /// and N. Costs one cycle.
    pub fn rol(&mut self, operand: u8, cycles: &mut i32) -> (result: u8)
        requires
            *old(cycles) >= i32::MIN + 1,
        ensures
            result == rol_result(operand, old(self).status.carry),
            *final(self) == old(self).after_shift(bit7(operand), result),
            *final(cycles) == *old(cycles) - 1,
    {
        let carry_in: u8 = if self.status.carry {
            1
        } else {
            0
        };
        assert(((operand << 1) | carry_in) == (operand * 2 + carry_in) % 256) by (bit_vector)
            requires
                carry_in <= 1,
        ;
        self.status.carry = has_bit7(operand);
        let result: u8 = (operand << 1) | carry_in;
        self.set_zero_and_negative_flags(result);
        *cycles -= 1;
        result
    }

    /// ROR: returns the operand rotated right through the carry and sets C,
    /// Z and N. Costs one cycle.
    pub fn ror(&mut self, operand: u8, cycles: &mut i32) -> (result: u8)
        requires
            *old(cycles) >= i32::MIN + 1,
        ensures
            result == ror_result(operand, old(self).status.carry),
            *final(self) == old(self).after_shift(bit0(operand), result),
            *final(cycles) == *old(cycles) - 1,
    {
        let carry_in: u8 = if self.status.carry {
            0x80
        } else {
            0
        };
        assert(((operand >> 1) | carry_in) == operand / 2 + carry_in) by (bit_vector)
            requires
                carry_in == 0 || carry_in == 0x80,
        ;
        self.status.carry = has_bit0(operand);
        let result: u8 = (operand >> 1) | carry_in;
        self.set_zero_and_negative_flags(result);
        *cycles -= 1;
        result
    }
}

} // verus!
