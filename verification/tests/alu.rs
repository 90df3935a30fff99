use chip8::alu::{add_with_carry, decimal_digits, shift_left, shift_right, sub_with_borrow};

#[test]
fn addition_wraps_and_carries() {
    assert_eq!(add_with_carry(1, 2), (3, false));
    assert_eq!(add_with_carry(255, 0), (255, false));
    assert_eq!(add_with_carry(255, 1), (0, true));
    assert_eq!(add_with_carry(200, 100), (44, true));
    assert_eq!(add_with_carry(255, 255), (254, true));
}

#[test]
fn addition_carries_exactly_above_255() {
    for a in 0..=255u16 {
        for b in 0..=255u16 {
            let (sum, carry) = add_with_carry(a as u8, b as u8);
            assert_eq!(sum as u16, (a + b) % 256);
            assert_eq!(carry, a + b > 255);
        }
    }
}

#[test]
fn subtraction_wraps_and_borrows() {
    assert_eq!(sub_with_borrow(5, 3), (2, true));
    assert_eq!(sub_with_borrow(3, 3), (0, true));
    assert_eq!(sub_with_borrow(3, 5), (254, false));
    assert_eq!(sub_with_borrow(0, 255), (1, false));
}

#[test]
fn shifts_tell_the_lost_bit() {
    assert_eq!(shift_right(0b0000_0101), (0b0000_0010, true));
    assert_eq!(shift_right(0b0000_0100), (0b0000_0010, false));
    assert_eq!(shift_right(0), (0, false));
    assert_eq!(shift_left(0b1000_0001), (0b0000_0010, true));
    assert_eq!(shift_left(0b0100_0001), (0b1000_0010, false));
    assert_eq!(shift_left(0xFF), (0xFE, true));
}

#[test]
fn decimal_digits_of_a_byte() {
    assert_eq!(decimal_digits(0), (0, 0, 0));
    assert_eq!(decimal_digits(7), (0, 0, 7));
    assert_eq!(decimal_digits(42), (0, 4, 2));
    assert_eq!(decimal_digits(100), (1, 0, 0));
    assert_eq!(decimal_digits(254), (2, 5, 4));
    assert_eq!(decimal_digits(255), (2, 5, 5));
}
