use abduction::gameboy::cpu::alu::{
    add16, add8, add_signed, as_signed, binary, change_flag, decimal_adjust, decrement,
    flag_is_set, increment, make_flags, rotate_accumulator, sub8, test_bit, unary, Binary, Unary,
};
use abduction::gameboy::cpu::CpuFlag;
use abduction::util::{bit_is_set, boxed_array, clear_bit, div_rem, set_bit};

fn flags(zero: bool, negative: bool, half: bool, carry: bool) -> u8 {
    (zero as u8) << 7 | (negative as u8) << 6 | (half as u8) << 5 | (carry as u8) << 4
}

#[test]
fn add_sets_flags_for_every_pair() {
    for a in 0..=255u8 {
        for b in 0..=255u8 {
            let r = binary(Binary::Add, a, b, 0xF0);
            let sum = a as u16 + b as u16;
            assert_eq!(r.value, (sum & 0xFF) as u8);
            assert_eq!(
                r.flags,
                flags(sum & 0xFF == 0, false, (a & 0xF) + (b & 0xF) > 0xF, sum > 0xFF)
            );
        }
    }
}

#[test]
fn sub_sets_flags_for_every_pair() {
    for a in 0..=255u8 {
        for b in 0..=255u8 {
            let r = binary(Binary::Sub, a, b, 0x00);
            assert_eq!(r.value, a.wrapping_sub(b));
            assert_eq!(r.flags, flags(a == b, true, (a & 0xF) < (b & 0xF), a < b));
            let c = binary(Binary::Compare, a, b, 0x00);
            assert_eq!(c.value, a);
            assert_eq!(c.flags, r.flags);
        }
    }
}

#[test]
fn add_with_carry_counts_the_carry_in() {
    for a in 0..=255u8 {
        for b in 0..=255u8 {
            let r = binary(Binary::AddWithCarry, a, b, 0x10);
            let sum = a as u16 + b as u16 + 1;
            assert_eq!(r.value, (sum & 0xFF) as u8);
            assert_eq!(
                r.flags,
                flags(sum & 0xFF == 0, false, (a & 0xF) + (b & 0xF) + 1 > 0xF, sum > 0xFF)
            );
            assert_eq!(binary(Binary::AddWithCarry, a, b, 0x00).value, a.wrapping_add(b));
        }
    }
    assert_eq!(add8(0xFF, 0x00, true).value, 0x00);
    assert_eq!(add8(0xFF, 0x00, true).flags, 0xB0);
}

#[test]
fn sub_with_carry_counts_the_borrow_in() {
    for a in 0..=255u8 {
        for b in 0..=255u8 {
            let r = binary(Binary::SubWithCarry, a, b, 0x10);
            let difference = a as i16 - b as i16 - 1;
            assert_eq!(r.value, difference as u8);
            assert_eq!(
                r.flags,
                flags(
                    difference as u8 == 0,
                    true,
                    (a & 0xF) as i16 - (b & 0xF) as i16 - 1 < 0,
                    difference < 0
                )
            );
        }
    }
    assert_eq!(sub8(0x10, 0x0F, true).value, 0x00);
    assert_eq!(sub8(0x10, 0x0F, true).flags, 0xE0);
    assert_eq!(sub8(0x00, 0x0F, true).flags, 0x70);
}

#[test]
fn logic_operations_set_their_fixed_flags() {
    for a in [0x00u8, 0x0F, 0xF0, 0xAA, 0xFF] {
        for b in [0x00u8, 0x55, 0xF0, 0xFF] {
            let and = binary(Binary::And, a, b, 0x10);
            assert_eq!((and.value, and.flags), (a & b, flags(a & b == 0, false, true, false)));
            let or = binary(Binary::Or, a, b, 0xF0);
            assert_eq!((or.value, or.flags), (a | b, flags(a | b == 0, false, false, false)));
            let xor = binary(Binary::Xor, a, b, 0xF0);
            assert_eq!((xor.value, xor.flags), (a ^ b, flags(a ^ b == 0, false, false, false)));
        }
    }
}

#[test]
fn increment_and_decrement_keep_the_carry() {
    for value in 0..=255u8 {
        for carry in [false, true] {
            let f = flags(false, false, false, carry);
            let up = increment(value, f);
            assert_eq!(up.value, value.wrapping_add(1));
            assert_eq!(
                up.flags,
                flags(value == 0xFF, false, value & 0xF == 0xF, carry)
            );
            let down = decrement(value, f);
            assert_eq!(down.value, value.wrapping_sub(1));
            assert_eq!(down.flags, flags(value == 1, true, value & 0xF == 0, carry));
        }
    }
}

#[test]
fn rotations_and_shifts_match_bit_operations() {
    for value in 0..=255u8 {
        for carry in [false, true] {
            let f = flags(false, true, true, carry);
            let c = carry as u8;
            let cases = [
                (Unary::RotateLeft, value.rotate_left(1), value & 0x80 != 0),
                (Unary::RotateRight, value.rotate_right(1), value & 1 != 0),
                (Unary::RotateLeftThroughCarry, value << 1 | c, value & 0x80 != 0),
                (Unary::RotateRightThroughCarry, value >> 1 | c << 7, value & 1 != 0),
                (Unary::ShiftLeftArithmetically, value << 1, value & 0x80 != 0),
                (Unary::ShiftRightArithmetically, ((value as i8) >> 1) as u8, value & 1 != 0),
                (Unary::SwapNibbles, value << 4 | value >> 4, false),
                (Unary::ShiftRightLogically, value >> 1, value & 1 != 0),
            ];
            for (operation, expected, out) in cases {
                let r = unary(operation, value, f);
                assert_eq!(r.value, expected, "{:?} {:#x}", operation, value);
                assert_eq!(r.flags, flags(expected == 0, false, false, out));
                let a = rotate_accumulator(operation, value, f);
                assert_eq!(a.value, expected);
                assert_eq!(a.flags, flags(false, false, false, out));
            }
        }
    }
}

#[test]
fn bit_tests_and_changes() {
    for value in 0..=255u8 {
        for bit in 0..8u8 {
            let set = value & (1 << bit) != 0;
            assert_eq!(bit_is_set(value, bit), set);
            assert_eq!(test_bit(bit, value, 0x10), flags(!set, false, true, true));
            assert_eq!(test_bit(bit, value, 0xE0), flags(!set, false, true, false));
            assert_eq!(set_bit(bit, value), value | (1 << bit));
            assert_eq!(clear_bit(bit, value), value & !(1 << bit));
        }
    }
    assert_eq!(set_bit(9, 0), 2);
    assert!(bit_is_set(0x80, 15));
}

fn bcd(value: u8) -> u32 {
    (value >> 4) as u32 * 10 + (value & 0xF) as u32
}

#[test]
fn decimal_adjust_after_add_gives_decimal_sum() {
    for a in 0..=0x99u8 {
        for b in 0..=0x99u8 {
            if a & 0xF > 9 || b & 0xF > 9 {
                continue;
            }
            let sum = binary(Binary::Add, a, b, 0);
            let r = decimal_adjust(sum.value, sum.flags);
            let expected = bcd(a) + bcd(b);
            assert_eq!(bcd(r.value), expected % 100, "{:#x} + {:#x}", a, b);
            assert!(r.value & 0xF <= 9 && r.value >> 4 <= 9);
            assert_eq!(flag_is_set(r.flags, CpuFlag::Carry), expected >= 100);
            assert_eq!(flag_is_set(r.flags, CpuFlag::Zero), r.value == 0);
            assert!(!flag_is_set(r.flags, CpuFlag::Half));
            assert!(!flag_is_set(r.flags, CpuFlag::Negative));
        }
    }
}

#[test]
fn decimal_adjust_after_sub_gives_decimal_difference() {
    for a in 0..=0x99u8 {
        for b in 0..=0x99u8 {
            if a & 0xF > 9 || b & 0xF > 9 {
                continue;
            }
            let difference = binary(Binary::Sub, a, b, 0);
            let r = decimal_adjust(difference.value, difference.flags);
            let expected = (100 + bcd(a) - bcd(b)) % 100;
            assert_eq!(bcd(r.value), expected, "{:#x} - {:#x}", a, b);
            assert!(r.value & 0xF <= 9 && r.value >> 4 <= 9);
            assert_eq!(flag_is_set(r.flags, CpuFlag::Carry), bcd(a) < bcd(b));
            assert!(flag_is_set(r.flags, CpuFlag::Negative));
        }
    }
}

#[test]
fn decimal_adjust_examples() {
    let r = decimal_adjust(0x7D, 0x00);
    assert_eq!((r.value, r.flags), (0x83, 0x00));
    let r = decimal_adjust(0x9A, 0x00);
    assert_eq!((r.value, r.flags), (0x00, 0x90));
    let r = decimal_adjust(0x00, 0x00);
    assert_eq!((r.value, r.flags), (0x00, 0x80));
    let r = decimal_adjust(0x0F, 0x60);
    assert_eq!((r.value, r.flags), (0x09, 0x40));
}

#[test]
fn word_addition_carries_out_of_bit_eleven_and_fifteen() {
    let r = add16(0x0FFF, 0x0001, 0x80);
    assert_eq!((r.value, r.flags), (0x1000, 0xA0));
    let r = add16(0xFFFF, 0x0001, 0x00);
    assert_eq!((r.value, r.flags), (0x0000, 0x30));
    let r = add16(0xF000, 0x1000, 0xF0);
    assert_eq!((r.value, r.flags), (0x0000, 0x90));
    let r = add16(0x8FFF, 0x8FFF, 0x00);
    assert_eq!((r.value, r.flags), (0x1FFE, 0x30));
    let r = add16(0x1234, 0x1111, 0x40);
    assert_eq!((r.value, r.flags), (0x2345, 0x00));
}

#[test]
fn signed_offset_uses_unsigned_low_byte_for_flags() {
    let r = add_signed(0xFFF8, 0x08);
    assert_eq!((r.value, r.flags), (0x0000, 0x30));
    let r = add_signed(0x0000, 0xFF);
    assert_eq!((r.value, r.flags), (0xFFFF, 0x00));
    let r = add_signed(0x0001, 0xFF);
    assert_eq!((r.value, r.flags), (0x0000, 0x30));
    let r = add_signed(0x000F, 0x01);
    assert_eq!((r.value, r.flags), (0x0010, 0x20));
    let r = add_signed(0x00F0, 0x10);
    assert_eq!((r.value, r.flags), (0x0100, 0x10));
    assert_eq!(as_signed(0x7F), 127);
    assert_eq!(as_signed(0x80), -128);
    assert_eq!(as_signed(0xFF), -1);
}

#[test]
fn flag_helpers_pack_and_unpack() {
    assert_eq!(make_flags(true, false, true, false), 0xA0);
    assert_eq!(make_flags(false, true, false, true), 0x50);
    assert_eq!(change_flag(0x0F, CpuFlag::Zero, true), 0x80);
    assert_eq!(change_flag(0xF0, CpuFlag::Half, false), 0xD0);
    assert!(flag_is_set(0x40, CpuFlag::Negative));
    assert!(!flag_is_set(0x40, CpuFlag::Zero));
    assert_eq!(CpuFlag::Zero.mask(), 0x80);
    assert_eq!(CpuFlag::Negative.mask(), 0x40);
    assert_eq!(CpuFlag::Half.mask(), 0x20);
    assert_eq!(CpuFlag::Carry.mask(), 0x10);
}

#[test]
fn util_div_rem_and_boxed_array() {
    assert_eq!(div_rem(17, 8), (2, 1));
    assert_eq!(div_rem(255, 16), (15, 15));
    assert_eq!(div_rem(0, 3), (0, 0));
    let array: Box<[u8; 5]> = boxed_array(7u8);
    assert_eq!(*array, [7u8; 5]);
    let words: Box<[u16; 384]> = boxed_array(0xABCDu16);
    assert!(words.iter().all(|w| *w == 0xABCD));
}
