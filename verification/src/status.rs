//! The processor-status register.

use vstd::prelude::*;
use crate::bytes::{bit0, bit6, bit7};
use crate::instructions::{
    BREAK_FLAG_BIT, CARRY_FLAG_BIT, DECIMAL_FLAG_BIT, INTERRUPT_DISABLE_FLAG_BIT,
    NEGATIVE_FLAG_BIT, OVERFLOW_FLAG_BIT, UNUSED_FLAG_BIT, ZERO_FLAG_BIT,
};

verus! {

/// The seven flags of the 6502, each held as a boolean, and the unused bit.
///
/// The unused bit has no effect on execution. Whatever `unused` holds, the
/// serialised status byte carries a 1 in its place.
#[derive(Clone, Copy, Debug, PartialEq, Eq, Structural)]
pub struct StatusFlags {
    pub carry: bool,
    pub zero: bool,
    pub interrupt_disable: bool,
    pub decimal_mode: bool,
    pub break_command: bool,
    pub overflow: bool,
    pub negative: bool,
    pub unused: bool,
}

/// The weight a flag contributes to the status byte.
pub open spec fn flag_weight(flag: bool, weight: u8) -> int {
    if flag {
        weight as int
    } else {
        0
    }
}

impl StatusFlags {
    /// The register with every flag clear.
    pub open spec fn cleared() -> StatusFlags {
        StatusFlags {
            carry: false,
            zero: false,
            interrupt_disable: false,
            decimal_mode: false,
            break_command: false,
            overflow: false,
            negative: false,
            unused: false,
        }
    }

    /// The register after Z and N have been set from `value`: Z when the
    /// value is zero, N when its bit 7 is set.
    pub open spec fn with_zn(self, value: u8) -> StatusFlags {
        StatusFlags { zero: value == 0, negative: bit7(value), ..self }
    }

    /// The status byte: N, V, 1, B, D, I, Z, C from bit 7 down to bit 0.
    pub open spec fn packed(self) -> u8 {
        (flag_weight(self.negative, NEGATIVE_FLAG_BIT)
            + flag_weight(self.overflow, OVERFLOW_FLAG_BIT)
            + UNUSED_FLAG_BIT
            + flag_weight(self.break_command, BREAK_FLAG_BIT)
            + flag_weight(self.decimal_mode, DECIMAL_FLAG_BIT)
            + flag_weight(self.interrupt_disable, INTERRUPT_DISABLE_FLAG_BIT)
            + flag_weight(self.zero, ZERO_FLAG_BIT)
            + flag_weight(self.carry, CARRY_FLAG_BIT)) as u8
    }

    /// The register after C, Z, I, D, V and N have been taken from `byte`.
    /// Bits 4 and 5 of the byte are ignored, as the hardware ignores them: B
    /// and `unused` keep their values.
    pub open spec fn unpacked(self, byte: u8) -> StatusFlags {
        StatusFlags {
            carry: bit0(byte),
            zero: (byte / 2) % 2 == 1,
            interrupt_disable: (byte / 4) % 2 == 1,
            decimal_mode: (byte / 8) % 2 == 1,
            overflow: bit6(byte),
            negative: bit7(byte),
            ..self
        }
    }

    /// Serialises the flags into the byte that PHP pushes.
    pub fn to_byte(&self) -> (byte: u8)
        ensures
            byte == self.packed(),
    {
        let c: u8 = if self.carry { CARRY_FLAG_BIT } else { 0 };
        let z: u8 = if self.zero { ZERO_FLAG_BIT } else { 0 };
        let i: u8 = if self.interrupt_disable { INTERRUPT_DISABLE_FLAG_BIT } else { 0 };
        let d: u8 = if self.decimal_mode { DECIMAL_FLAG_BIT } else { 0 };
        let b: u8 = if self.break_command { BREAK_FLAG_BIT } else { 0 };
        let v: u8 = if self.overflow { OVERFLOW_FLAG_BIT } else { 0 };
        let n: u8 = if self.negative { NEGATIVE_FLAG_BIT } else { 0 };
        assert((n | v | 0x20u8 | b | d | i | z | c) == n + v + 0x20 + b + d + i + z + c)
            by (bit_vector)
            requires
                c == 0 || c == 0x01,
                z == 0 || z == 0x02,
                i == 0 || i == 0x04,
                d == 0 || d == 0x08,
                b == 0 || b == 0x10,
                v == 0 || v == 0x40,
                n == 0 || n == 0x80,
        ;
        n | v | UNUSED_FLAG_BIT | b | d | i | z | c
    }

    /// Restores C, Z, I, D, V and N from a status byte, as PLP and RTI do.
    /// Bits 4 and 5 of the byte are ignored: B and `unused` keep their
    /// values.
    pub fn restore_from_byte(&mut self, byte: u8)
        ensures
            *final(self) == old(self).unpacked(byte),
    {
        assert(((byte & 0x01) != 0) == (byte % 2 == 1) && ((byte & 0x02) != 0) == ((byte / 2) % 2
            == 1) && ((byte & 0x04) != 0) == ((byte / 4) % 2 == 1) && ((byte & 0x08) != 0) == ((byte
            / 8) % 2 == 1) && ((byte & 0x40) != 0) == (byte % 128 >= 64) && ((byte & 0x80) != 0)
            == (byte >= 128)) by (bit_vector);
        self.carry = (byte & CARRY_FLAG_BIT) != 0;
        self.zero = (byte & ZERO_FLAG_BIT) != 0;
        self.interrupt_disable = (byte & INTERRUPT_DISABLE_FLAG_BIT) != 0;
        self.decimal_mode = (byte & DECIMAL_FLAG_BIT) != 0;
        self.overflow = (byte & OVERFLOW_FLAG_BIT) != 0;
        self.negative = (byte & NEGATIVE_FLAG_BIT) != 0;
    }
}

impl Default for StatusFlags {
    /// Every flag clear.
    fn default() -> (flags: StatusFlags)
        ensures
            flags == StatusFlags::cleared(),
    {
        StatusFlags {
            carry: false,
            zero: false,
            interrupt_disable: false,
            decimal_mode: false,
            break_command: false,
            overflow: false,
            negative: false,
            unused: false,
        }
    }
}

/// Pulling the byte that was pushed gives back the flags. Whatever register
/// does the pulling ends up with C, Z, I, D, V and N of the register that
/// was pushed, and with its own B and unused bit.
pub proof fn lemma_status_round_trip(pushed: StatusFlags, pulling: StatusFlags)
    ensures
        pulling.unpacked(pushed.packed()) == (StatusFlags {
            break_command: pulling.break_command,
            unused: pulling.unused,
            ..pushed
        }),
        pushed.unpacked(pushed.packed()) == pushed,
{
}

} // verus!
