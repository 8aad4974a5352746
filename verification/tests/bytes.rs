// Byte and word helpers.

use m6502::bytes::{
    as_signed, decrement, has_bit0, has_bit6, has_bit7, increment, make_word, offset_word,
    on_same_page, split_word,
};

#[test]
fn words_are_little_endian() {
    assert_eq!(make_word(0x34, 0x12), 0x1234);
    assert_eq!(make_word(0xFF, 0x00), 0x00FF);
    assert_eq!(make_word(0x00, 0xFF), 0xFF00);
    assert_eq!(split_word(0x1234), (0x34, 0x12));
    assert_eq!(split_word(0xFF00), (0x00, 0xFF));
}

#[test]
fn split_undoes_make_for_every_word() {
    for word in 0..=0xFFFFu16 {
        let (lo, hi) = split_word(word);
        assert_eq!(lo as u16, word % 256);
        assert_eq!(hi as u16, word / 256);
        assert_eq!(make_word(lo, hi), word);
    }
}

#[test]
fn pages_are_256_bytes() {
    assert!(on_same_page(0x1200, 0x12FF));
    assert!(!on_same_page(0x12FF, 0x1300));
    assert!(on_same_page(0x0000, 0x00FF));
    assert!(!on_same_page(0xFFFF, 0x0000));
    assert!(on_same_page(0x8042, 0x8042));
}

#[test]
fn single_bits() {
    for byte in 0..=255u8 {
        assert_eq!(has_bit7(byte), byte & 0x80 != 0);
        assert_eq!(has_bit6(byte), byte & 0x40 != 0);
        assert_eq!(has_bit0(byte), byte & 0x01 != 0);
    }
    assert!(has_bit7(0x80) && !has_bit7(0x7F));
    assert!(has_bit6(0x40) && !has_bit6(0xBF));
    assert!(has_bit0(0x01) && !has_bit0(0xFE));
}

#[test]
fn bytes_read_as_twos_complement() {
    assert_eq!(as_signed(0x00), 0);
    assert_eq!(as_signed(0x01), 1);
    assert_eq!(as_signed(0x7F), 127);
    assert_eq!(as_signed(0x80), -128);
    assert_eq!(as_signed(0xFD), -3);
    assert_eq!(as_signed(0xFF), -1);
}

#[test]
fn offsets_wrap_at_both_ends() {
    assert_eq!(offset_word(0x8002, 4), 0x8006);
    assert_eq!(offset_word(0x8002, -3), 0x7FFF);
    assert_eq!(offset_word(0x0001, -2), 0xFFFF);
    assert_eq!(offset_word(0xFFFF, 1), 0x0000);
    assert_eq!(offset_word(0xFFF0, 127), 0x006F);
    assert_eq!(offset_word(0x0010, -128), 0xFF90);
    assert_eq!(offset_word(0x1234, 0), 0x1234);
}

#[test]
fn bytes_step_around_the_ends() {
    assert_eq!(increment(0x00), 0x01);
    assert_eq!(increment(0x7F), 0x80);
    assert_eq!(increment(0xFF), 0x00);
    assert_eq!(decrement(0x01), 0x00);
    assert_eq!(decrement(0x80), 0x7F);
    assert_eq!(decrement(0x00), 0xFF);
}
