use nes::alu::{
    add_with_carry, compare, invert, overflow_bit, rotate_left, rotate_right, shift_left,
    shift_right, sign_bit,
};

#[test]
fn add_with_carry_known_sums() {
    let s = add_with_carry(0x50, 0x50, false);
    assert_eq!((s.value, s.carry, s.overflow), (0xa0, false, true));
    let s = add_with_carry(0xd0, 0x90, false);
    assert_eq!((s.value, s.carry, s.overflow), (0x60, true, true));
    let s = add_with_carry(0x01, 0x01, true);
    assert_eq!((s.value, s.carry, s.overflow), (0x03, false, false));
    let s = add_with_carry(0xff, 0x00, true);
    assert_eq!((s.value, s.carry, s.overflow), (0x00, true, false));
    let s = add_with_carry(0xff, 0xff, true);
    assert_eq!((s.value, s.carry, s.overflow), (0xff, true, false));
    let s = add_with_carry(0x7f, 0x00, true);
    assert_eq!((s.value, s.carry, s.overflow), (0x80, false, true));
    let s = add_with_carry(0x80, 0xff, false);
    assert_eq!((s.value, s.carry, s.overflow), (0x7f, true, true));
}

#[test]
fn add_with_carry_matches_the_bit_formula_everywhere() {
    for a in 0..=255u8 {
        for m in 0..=255u8 {
            for c in [false, true] {
                let t = a as u16 + m as u16 + c as u16;
                let s = add_with_carry(a, m, c);
                assert_eq!(s.value, (t & 0xff) as u8);
                assert_eq!(s.carry, t & 0x100 != 0);
                assert_eq!(s.overflow, (a as u16 ^ t) & !(a as u16 ^ m as u16) & 0x80 != 0);
            }
        }
    }
}

#[test]
fn add_with_carry_overflow_is_signed_overflow() {
    for a in 0..=255u8 {
        for m in 0..=255u8 {
            for c in [false, true] {
                let signed = a as i8 as i32 + m as i8 as i32 + c as i32;
                let s = add_with_carry(a, m, c);
                assert_eq!(s.overflow, signed < -128 || signed > 127);
                assert_eq!(s.value, (a as u32 + m as u32 + c as u32) as u8);
            }
        }
    }
}

#[test]
fn invert_flips_every_bit() {
    assert_eq!(invert(0x00), 0xff);
    assert_eq!(invert(0xff), 0x00);
    assert_eq!(invert(0xb0), 0x4f);
    assert_eq!(invert(0x55), 0xaa);
}

#[test]
fn sign_and_overflow_bits() {
    assert!(!sign_bit(0x00));
    assert!(!sign_bit(0x7f));
    assert!(sign_bit(0x80));
    assert!(sign_bit(0xff));
    assert!(!overflow_bit(0x00));
    assert!(overflow_bit(0x40));
    assert!(!overflow_bit(0x80));
    assert!(!overflow_bit(0xbf));
    assert!(overflow_bit(0xc0));
    assert!(overflow_bit(0xff));
}

#[test]
fn compare_orders_unsigned() {
    let c = compare(0x05, 0x05);
    assert_eq!((c.zero, c.carry, c.negative), (true, true, false));
    let c = compare(0x30, 0x29);
    assert_eq!((c.zero, c.carry, c.negative), (false, true, false));
    let c = compare(0x20, 0x29);
    assert_eq!((c.zero, c.carry, c.negative), (false, false, true));
    let c = compare(0x00, 0xff);
    assert_eq!((c.zero, c.carry, c.negative), (false, false, true));
    let c = compare(0xff, 0x00);
    assert_eq!((c.zero, c.carry, c.negative), (false, true, false));
}

#[test]
fn shifts_known_values() {
    let s = shift_left(0xec);
    assert_eq!((s.value, s.carry), (0xd8, true));
    let s = shift_left(0x01);
    assert_eq!((s.value, s.carry), (0x02, false));
    let s = shift_left(0x80);
    assert_eq!((s.value, s.carry), (0x00, true));
    let s = shift_right(0xed);
    assert_eq!((s.value, s.carry), (0x76, true));
    let s = shift_right(0x01);
    assert_eq!((s.value, s.carry), (0x00, true));
    let s = shift_right(0x80);
    assert_eq!((s.value, s.carry), (0x40, false));
}

#[test]
fn rotates_known_values() {
    let s = rotate_left(0xec, true);
    assert_eq!((s.value, s.carry), (0xd9, true));
    let s = rotate_left(0x76, false);
    assert_eq!((s.value, s.carry), (0xec, false));
    let s = rotate_right(0xec, true);
    assert_eq!((s.value, s.carry), (0xf6, false));
    let s = rotate_right(0xed, true);
    assert_eq!((s.value, s.carry), (0xf6, true));
    let s = rotate_right(0x01, false);
    assert_eq!((s.value, s.carry), (0x00, true));
}

#[test]
fn rotate_left_then_right_is_the_identity() {
    for v in 0..=255u8 {
        for c in [false, true] {
            let left = rotate_left(v, c);
            let right = rotate_right(left.value, left.carry);
            assert_eq!(right.value, v);
            assert_eq!(right.carry, c);
        }
    }
}

#[test]
fn shift_left_then_rotate_right_restores_the_low_seven_bits() {
    for v in 0..=255u8 {
        let left = shift_left(v);
        for c in [false, true] {
            let right = rotate_right(left.value, c);
            assert_eq!(right.value & 0x7f, v & 0x7f);
            assert!(!right.carry);
        }
        assert_eq!(rotate_right(left.value, left.carry).value, v);
    }
}
