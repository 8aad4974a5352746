//! Byte and word arithmetic shared by the rest of the crate.
//!
//! The specification side is written with plain integer arithmetic; the
//! executable side uses the shifts and masks a 6502 programmer expects, and
//! each executable function is proved to agree with its arithmetic meaning.

use vstd::prelude::*;

verus! {

/// The byte that `i` wraps to, modulo 256.
pub open spec fn wrap_byte(i: int) -> u8 {
    (i % 256) as u8
}

/// The word that `i` wraps to, modulo 65536.
pub open spec fn wrap_word(i: int) -> u16 {
    (i % 65536) as u16
}

/// The little-endian word with low byte `lo` and high byte `hi`.
pub open spec fn word_of(lo: u8, hi: u8) -> u16 {
    (hi as int * 256 + lo as int) as u16
}

/// The low byte of `w`.
pub open spec fn low_byte(w: u16) -> u8 {
    (w % 256) as u8
}

/// The high byte of `w`.
pub open spec fn high_byte(w: u16) -> u8 {
    (w / 256) as u8
}

/// Two addresses lie on one page when their high bytes agree.
pub open spec fn same_page(a: u16, b: u16) -> bool {
    a / 256 == b / 256
}

/// The value of `b` read as a two's-complement number.
pub open spec fn signed(b: u8) -> int {
    if b < 128 {
        b as int
    } else {
        b as int - 256
    }
}

/// Bit 7 of `b`, which the 6502 treats as the sign.
pub open spec fn bit7(b: u8) -> bool {
    b >= 128
}

/// Bit 6 of `b`.
pub open spec fn bit6(b: u8) -> bool {
    b % 128 >= 64
}

/// Bit 0 of `b`.
pub open spec fn bit0(b: u8) -> bool {
    b % 2 == 1
}

/// The byte at `addr` in a memory image.
pub open spec fn peek(mem: Seq<u8>, addr: u16) -> u8 {
    mem[addr as int]
}

/// The little-endian word whose low byte is at `addr` and whose high byte is
/// at the following address, wrapping at the top of the address space.
pub open spec fn peek_word(mem: Seq<u8>, addr: u16) -> u16 {
    word_of(peek(mem, addr), peek(mem, wrap_word(addr + 1)))
}

/// The little-endian word stored in page zero at slot `zp`: the high byte
/// comes from the next slot of page zero, so slot 0xFF pairs with slot 0x00.
pub open spec fn peek_zero_page_word(mem: Seq<u8>, zp: u8) -> u16 {
    word_of(mem[zp as int], mem[wrap_byte(zp + 1) as int])
}

/// Wrapping once at the end is the same as wrapping along the way.
pub proof fn lemma_wrap_word_absorbs(a: int, b: int)
    ensures
        wrap_word(wrap_word(a) + b) == wrap_word(a + b),
{
}

/// Wrapping once at the end is the same as wrapping along the way.
pub proof fn lemma_wrap_byte_absorbs(a: int, b: int)
    ensures
        wrap_byte(wrap_byte(a) + b) == wrap_byte(a + b),
{
}

/// Builds a word from its two bytes.
pub fn make_word(lo: u8, hi: u8) -> (w: u16)
    ensures
        w == word_of(lo, hi),
{
    let w: u16 = ((hi as u16) << 8) | (lo as u16);
    assert((((hi as u16) << 8) | (lo as u16)) == hi as u16 * 256 + lo as u16) by (bit_vector);
    w
}

/// Splits a word into its low and high bytes.
pub fn split_word(w: u16) -> (bytes: (u8, u8))
    ensures
        bytes.0 == low_byte(w),
        bytes.1 == high_byte(w),
        word_of(bytes.0, bytes.1) == w,
{
    let lo: u8 = (w & 0xFF) as u8;
    let hi: u8 = (w >> 8) as u8;
    assert((w & 0xFF) == w % 256 && (w >> 8) == w / 256) by (bit_vector);
    (lo, hi)
}

/// Tells whether two addresses share their high byte.
pub fn on_same_page(a: u16, b: u16) -> (same: bool)
    ensures
        same == same_page(a, b),
{
    assert(((a & 0xFF00) == (b & 0xFF00)) == (a / 256 == b / 256)) by (bit_vector);
    (a & 0xFF00) == (b & 0xFF00)
}

/// Tests bit 7 of a byte.
pub fn has_bit7(b: u8) -> (set: bool)
    ensures
        set == bit7(b),
{
    assert(((b & 0x80) != 0) == (b >= 128)) by (bit_vector);
    (b & 0x80) != 0
}

/// Tests bit 6 of a byte.
pub fn has_bit6(b: u8) -> (set: bool)
    ensures
        set == bit6(b),
{
    assert(((b & 0x40) != 0) == (b % 128 >= 64)) by (bit_vector);
    (b & 0x40) != 0
}

/// Tests bit 0 of a byte.
pub fn has_bit0(b: u8) -> (set: bool)
    ensures
        set == bit0(b),
{
    assert(((b & 0x01) != 0) == (b % 2 == 1)) by (bit_vector);
    (b & 0x01) != 0
}

/// The next byte, with 0x00 following 0xFF.
pub fn increment(b: u8) -> (next: u8)
    ensures
        next == wrap_byte(b + 1),
{
    b.wrapping_add(1)
}

/// The previous byte, with 0xFF preceding 0x00.
pub fn decrement(b: u8) -> (previous: u8)
    ensures
        previous == wrap_byte(b - 1),
{
    b.wrapping_sub(1)
}

/// Reads a byte as a two's-complement number.
pub fn as_signed(b: u8) -> (s: i8)
    ensures
        s == signed(b),
{
    assert(b as i8 == (if b < 128 { b as int } else { b as int - 256 })) by (bit_vector);
    b as i8
}

/// Moves an address by a signed offset, wrapping at both ends of the address
/// space.
pub fn offset_word(base: u16, offset: i8) -> (w: u16)
    ensures
        w == wrap_word(base + offset),
{
    base.wrapping_add_signed(offset as i16)
}

} // verus!
