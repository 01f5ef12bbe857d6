use ufo3000::bit::{one_bit, swap_bit, zero_bit};

#[test]
fn zero_bits_test_0() {
    let result = zero_bit(0b00000010001100000000000010000000, 7);
    assert_eq!(result, 0b00000010001100000000000000000000);
}

#[test]
fn zero_bits_test_1() {
    let result = zero_bit(0b00000010001100000000000010000000, 8);
    assert_eq!(result, 0b00000010001100000000000010000000);
}

#[test]
fn one_bits_test_0() {
    let result = one_bit(0b00000010001100000000000010000000, 31);
    assert_eq!(result, 0b10000010001100000000000010000000);
}

#[test]
fn one_bits_test_1() {
    let result = one_bit(0b00000010001100000000000010000001, 0);
    assert_eq!(result, 0b00000010001100000000000010000001);
}

#[test]
fn swap_bits_test_0() {
    let result = swap_bit(0b00000010001100000000000010000000, 2);
    assert_eq!(result, 0b00000010001100000000000010000100);
}

#[test]
fn swap_bits_test_1() {
    let result = swap_bit(0b00000010001100000000000010000000, 7);
    assert_eq!(result, 0b00000010001100000000000000000000);
}

#[test]
fn bits_at_the_top_and_bottom() {
    assert_eq!(zero_bit(u32::MAX, 31), 0x7fff_ffff);
    assert_eq!(zero_bit(u32::MAX, 0), 0xffff_fffe);
    assert_eq!(one_bit(0, 31), 0x8000_0000);
    assert_eq!(swap_bit(0, 0), 1);
    assert_eq!(swap_bit(swap_bit(0x1234_5678, 13), 13), 0x1234_5678);
}
