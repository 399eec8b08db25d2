//! The arithmetic and logic unit: each operation as a function from its
//! operands and the flag register to its result and the new flag register.

use crate::util::{bit_is_set, bit_of};
use vstd::prelude::*;

verus! {

/// One of the four flags in the upper half of register F.
#[derive(Clone, Copy, PartialEq, Eq, Debug, Structural)]
pub enum CpuFlag {
    Zero,
    Negative,
    Half,
    Carry,
}

impl CpuFlag {
    /// The bit of F that holds this flag.
    pub open spec fn mask_of(self) -> u8 {
        match self {
            CpuFlag::Zero => 0x80,
            CpuFlag::Negative => 0x40,
            CpuFlag::Half => 0x20,
            CpuFlag::Carry => 0x10,
        }
    }

    #[verifier::when_used_as_spec(mask_of)]
    pub fn mask(self) -> (m: u8)
        ensures
            m == self.mask_of(),
    {
        match self {
            CpuFlag::Zero => 0x80,
            CpuFlag::Negative => 0x40,
            CpuFlag::Half => 0x20,
            CpuFlag::Carry => 0x10,
        }
    }
}

/// Whether `flag` is set in the flag register `f`.
pub open spec fn has_flag(f: u8, flag: CpuFlag) -> bool {
    match flag {
        CpuFlag::Zero => f >= 0x80,
        CpuFlag::Negative => (f as int / 0x40) % 2 == 1,
        CpuFlag::Half => (f as int / 0x20) % 2 == 1,
        CpuFlag::Carry => (f as int / 0x10) % 2 == 1,
    }
}

/// The flag register that holds exactly these four flags. Its low nibble
/// is zero.
pub open spec fn pack_flags(zero: bool, negative: bool, half: bool, carry: bool) -> u8 {
    ((if zero {
        0x80int
    } else {
        0
    }) + (if negative {
        0x40int
    } else {
        0
    }) + (if half {
        0x20int
    } else {
        0
    }) + (if carry {
        0x10int
    } else {
        0
    })) as u8
}

/// The flag register `f` with `flag` set to `value` and its low nibble
/// cleared.
pub open spec fn with_flag(f: u8, flag: CpuFlag, value: bool) -> u8 {
    pack_flags(
        if flag == CpuFlag::Zero {
            value
        } else {
            has_flag(f, CpuFlag::Zero)
        },
        if flag == CpuFlag::Negative {
            value
        } else {
            has_flag(f, CpuFlag::Negative)
        },
        if flag == CpuFlag::Half {
            value
        } else {
            has_flag(f, CpuFlag::Half)
        },
        if flag == CpuFlag::Carry {
            value
        } else {
            has_flag(f, CpuFlag::Carry)
        },
    )
}

/// One if the carry flag is set in `f`, zero if not.
pub open spec fn carry_in(f: u8) -> int {
    if has_flag(f, CpuFlag::Carry) {
        1
    } else {
        0
    }
}

/// The value of the byte `e` read as a signed offset.
pub open spec fn signed(e: u8) -> int {
    if e < 0x80 {
        e as int
    } else {
        e as int - 0x100
    }
}

/// What an operation of the unit leaves: a byte and the flag register.
pub struct Outcome {
    pub value: u8,
    pub flags: u8,
}

/// The eight operations that take the accumulator and one more operand.
#[derive(Clone, Copy, PartialEq, Eq, Debug, Structural)]
pub enum Binary {
    Add,
    AddWithCarry,
    Sub,
    SubWithCarry,
    And,
    Xor,
    Or,
    Compare,
}

/// The eight rotations and shifts of the prefixed opcodes.
#[derive(Clone, Copy, PartialEq, Eq, Debug, Structural)]
pub enum Unary {
    RotateLeft,
    RotateRight,
    RotateLeftThroughCarry,
    RotateRightThroughCarry,
    ShiftLeftArithmetically,
    ShiftRightArithmetically,
    SwapNibbles,
    ShiftRightLogically,
}

/// `left + right + carry`: Z if the byte is zero, N clear, H on a carry out
/// of bit 3, C on a carry out of bit 7.
pub open spec fn add8_spec(left: u8, right: u8, carry: int) -> Outcome {
    let sum = left + right + carry;
    Outcome {
        value: (sum % 0x100) as u8,
        flags: pack_flags(
            sum % 0x100 == 0,
            false,
            left % 16 + right % 16 + carry > 0x0F,
            sum > 0xFF,
        ),
    }
}

/// `left - right - carry`: Z if the byte is zero, N set, H on a borrow into
/// bit 3, C on a borrow into bit 7.
pub open spec fn sub8_spec(left: u8, right: u8, carry: int) -> Outcome {
    let difference = left - right - carry;
    Outcome {
        value: (difference % 0x100) as u8,
        flags: pack_flags(
            difference % 0x100 == 0,
            true,
            left % 16 - right % 16 - carry < 0,
            difference < 0,
        ),
    }
}

/// What `operation` makes of the accumulator `left` and the operand `right`.
/// A comparison leaves the accumulator as it was.
pub open spec fn binary_spec(operation: Binary, left: u8, right: u8, f: u8) -> Outcome {
    match operation {
        Binary::Add => add8_spec(left, right, 0),
        Binary::AddWithCarry => add8_spec(left, right, carry_in(f)),
        Binary::Sub => sub8_spec(left, right, 0),
        Binary::SubWithCarry => sub8_spec(left, right, carry_in(f)),
        Binary::And => Outcome {
            value: left & right,
            flags: pack_flags(left & right == 0, false, true, false),
        },
        Binary::Xor => Outcome {
            value: left ^ right,
            flags: pack_flags(left ^ right == 0, false, false, false),
        },
        Binary::Or => Outcome {
            value: left | right,
            flags: pack_flags(left | right == 0, false, false, false),
        },
        Binary::Compare => Outcome { value: left, flags: sub8_spec(left, right, 0).flags },
    }
}

/// `value + 1`: the carry flag stays.
pub open spec fn increment_spec(value: u8, f: u8) -> Outcome {
    Outcome {
        value: ((value + 1) % 0x100) as u8,
        flags: pack_flags(
            (value + 1) % 0x100 == 0,
            false,
            value % 16 == 0x0F,
            has_flag(f, CpuFlag::Carry),
        ),
    }
}

/// `value - 1`: the carry flag stays.
pub open spec fn decrement_spec(value: u8, f: u8) -> Outcome {
    Outcome {
        value: ((value - 1) % 0x100) as u8,
        flags: pack_flags(
            (value - 1) % 0x100 == 0,
            true,
            value % 16 == 0,
            has_flag(f, CpuFlag::Carry),
        ),
    }
}

/// The byte that a rotation or shift leaves, before any flag is looked at.
pub open spec fn shifted(operation: Unary, value: u8, f: u8) -> int {
    match operation {
        Unary::RotateLeft => (value * 2) % 0x100 + value / 0x80,
        Unary::RotateRight => value / 2 + (value % 2) * 0x80,
        Unary::RotateLeftThroughCarry => (value * 2) % 0x100 + carry_in(f),
        Unary::RotateRightThroughCarry => value / 2 + carry_in(f) * 0x80,
        Unary::ShiftLeftArithmetically => (value * 2) % 0x100,
        Unary::ShiftRightArithmetically => value / 2 + (value / 0x80) * 0x80,
        Unary::SwapNibbles => (value % 16) * 16 + value / 16,
        Unary::ShiftRightLogically => value as int / 2,
    }
}

/// The bit that a rotation or shift pushes out, which becomes the carry.
pub open spec fn shifted_out(operation: Unary, value: u8) -> bool {
    match operation {
        Unary::RotateLeft | Unary::RotateLeftThroughCarry | Unary::ShiftLeftArithmetically => value
            >= 0x80,
        Unary::SwapNibbles => false,
        _ => value % 2 == 1,
    }
}

/// What a rotation or shift of the prefixed opcodes makes of `value`: Z if
/// the byte is zero, N and H clear, C the bit pushed out.
pub open spec fn unary_spec(operation: Unary, value: u8, f: u8) -> Outcome {
    Outcome {
        value: shifted(operation, value, f) as u8,
        flags: pack_flags(
            shifted(operation, value, f) == 0,
            false,
            false,
            shifted_out(operation, value),
        ),
    }
}

/// What one of the four rotations of the accumulator makes of it: as the
/// prefixed rotation, but Z is always clear.
pub open spec fn rotate_accumulator_spec(operation: Unary, value: u8, f: u8) -> Outcome {
    Outcome {
        value: shifted(operation, value, f) as u8,
        flags: pack_flags(false, false, false, shifted_out(operation, value)),
    }
}

/// The flags after a test of bit `index` of `value`: Z if the bit is
/// clear, N clear, H set; the carry flag stays.
pub open spec fn test_bit_spec(index: u8, value: u8, f: u8) -> u8 {
    pack_flags(!bit_of(value, index), false, true, has_flag(f, CpuFlag::Carry))
}

/// The correction that the decimal adjustment applies to the accumulator
/// `a`: 0x06 for the low digit and 0x60 for the high digit, each where the
/// last addition or subtraction left it out of range.
pub open spec fn decimal_correction(a: u8, f: u8) -> int {
    let subtracted = has_flag(f, CpuFlag::Negative);
    let high = if has_flag(f, CpuFlag::Carry) || (!subtracted && a > 0x99) {
        0x60int
    } else {
        0
    };
    let low = if has_flag(f, CpuFlag::Half) || (!subtracted && a % 16 > 9) {
        0x06int
    } else {
        0
    };
    high + low
}

/// The decimal adjustment of the accumulator after an addition or a
/// subtraction of two packed decimal numbers. Z reflects the adjusted byte,
/// N stays, H is cleared, C is set where the high digit was corrected.
pub open spec fn decimal_adjust_spec(a: u8, f: u8) -> Outcome {
    let correction = decimal_correction(a, f);
    let adjusted = if has_flag(f, CpuFlag::Negative) {
        (a - correction) % 0x100
    } else {
        (a + correction) % 0x100
    };
    Outcome {
        value: adjusted as u8,
        flags: pack_flags(
            adjusted == 0,
            has_flag(f, CpuFlag::Negative),
            false,
            correction >= 0x60,
        ),
    }
}

/// What a 16-bit operation leaves: a word and the flag register.
pub struct WideOutcome {
    pub value: u16,
    pub flags: u8,
}

/// `left + right` on 16 bits: Z stays, N clear, H on a carry out of bit 11,
/// C on a carry out of bit 15.
pub open spec fn add16_spec(left: u16, right: u16, f: u8) -> WideOutcome {
    WideOutcome {
        value: ((left + right) % 0x1_0000) as u16,
        flags: pack_flags(
            has_flag(f, CpuFlag::Zero),
            false,
            left % 0x1000 + right % 0x1000 > 0x0FFF,
            left + right > 0xFFFF,
        ),
    }
}

/// `base` plus the signed offset `e`: Z and N clear, H and C as for the
/// addition of `e`, unsigned, to the low byte of `base`.
pub open spec fn add_signed_spec(base: u16, e: u8) -> WideOutcome {
    WideOutcome {
        value: ((base + signed(e)) % 0x1_0000) as u16,
        flags: pack_flags(false, false, base % 16 + e % 16 > 0x0F, base % 0x100 + e > 0xFF),
    }
}

/// The word whose low byte is `low` and whose high byte is `high`.
pub open spec fn word_of(low: u8, high: u8) -> u16 {
    (high as int * 0x100 + low as int) as u16
}

/// The low byte of `word`.
pub open spec fn low_byte(word: u16) -> u8 {
    (word % 0x100) as u8
}

/// The high byte of `word`.
pub open spec fn high_byte(word: u16) -> u8 {
    (word / 0x100) as u8
}

/// `word + delta`, wrapped to 16 bits.
pub open spec fn wrap16(word: u16, delta: int) -> u16 {
    ((word + delta) % 0x1_0000) as u16
}

/// Whether `flag` is set in the flag register `f`.
pub fn flag_is_set(f: u8, flag: CpuFlag) -> (set: bool)
    ensures
        set == has_flag(f, flag),
{
    match flag {
        CpuFlag::Zero => f >= 0x80,
        CpuFlag::Negative => (f / 0x40) % 2 == 1,
        CpuFlag::Half => (f / 0x20) % 2 == 1,
        CpuFlag::Carry => (f / 0x10) % 2 == 1,
    }
}

/// The flag register that holds exactly these four flags.
pub fn make_flags(zero: bool, negative: bool, half: bool, carry: bool) -> (f: u8)
    ensures
        f == pack_flags(zero, negative, half, carry),
        f % 16 == 0,
{
    let z: u8 = if zero {
        0x80
    } else {
        0
    };
    let n: u8 = if negative {
        0x40
    } else {
        0
    };
    let h: u8 = if half {
        0x20
    } else {
        0
    };
    let c: u8 = if carry {
        0x10
    } else {
        0
    };
    z + n + h + c
}

/// The flag register `f` with `flag` set to `value`.
pub fn change_flag(f: u8, flag: CpuFlag, value: bool) -> (changed: u8)
    ensures
        changed == with_flag(f, flag, value),
        changed % 16 == 0,
{
    let zero = if flag == CpuFlag::Zero {
        value
    } else {
        flag_is_set(f, CpuFlag::Zero)
    };
    let negative = if flag == CpuFlag::Negative {
        value
    } else {
        flag_is_set(f, CpuFlag::Negative)
    };
    let half = if flag == CpuFlag::Half {
        value
    } else {
        flag_is_set(f, CpuFlag::Half)
    };
    let carry = if flag == CpuFlag::Carry {
        value
    } else {
        flag_is_set(f, CpuFlag::Carry)
    };
    make_flags(zero, negative, half, carry)
}

/// The word whose low byte is `low` and whose high byte is `high`.
pub fn make_word(low: u8, high: u8) -> (word: u16)
    ensures
        word == word_of(low, high),
        low_byte(word) == low,
        high_byte(word) == high,
{
    high as u16 * 0x100 + low as u16
}

/// The low byte of `word`.
pub fn low_half(word: u16) -> (low: u8)
    ensures
        low == low_byte(word),
{
    (word % 0x100) as u8
}

/// The high byte of `word`.
pub fn high_half(word: u16) -> (high: u8)
    ensures
        high == high_byte(word),
{
    (word / 0x100) as u8
}

/// The byte `e` as a signed offset.
pub fn as_signed(e: u8) -> (offset: i32)
    ensures
        offset == signed(e),
{
    if e < 0x80 {
        e as i32
    } else {
        e as i32 - 0x100
    }
}

/// `word + delta` wrapped to 16 bits, for a `delta` of at most one word.
pub fn wrapping_offset(word: u16, delta: i32) -> (wrapped: u16)
    requires
        -0x1_0000 <= delta <= 0x1_0000,
    ensures
        wrapped == wrap16(word, delta as int),
{
    let sum: i32 = word as i32 + delta;
    if sum < 0 {
        (sum + 0x1_0000) as u16
    } else if sum >= 0x1_0000 {
        (sum - 0x1_0000) as u16
    } else {
        sum as u16
    }
}

/// Adds `right` and the carry to `left`.
#[verifier::rlimit(50)]
pub fn add8(left: u8, right: u8, carry: bool) -> (r: Outcome)
    ensures
        r == add8_spec(left, right, if carry { 1int } else { 0int }),
{
    let c: u16 = if carry {
        1
    } else {
        0
    };
    let sum: u16 = left as u16 + right as u16 + c;
    let value = (sum % 0x100) as u8;
    let half = (left % 16) as u16 + (right % 16) as u16 + c > 0x0F;
    Outcome { value, flags: make_flags(value == 0, false, half, sum > 0xFF) }
}

/// Takes `right` and the carry from `left`.
#[verifier::rlimit(50)]
pub fn sub8(left: u8, right: u8, carry: bool) -> (r: Outcome)
    ensures
        r == sub8_spec(left, right, if carry { 1int } else { 0int }),
{
    let c: i16 = if carry {
        1
    } else {
        0
    };
    let difference: i16 = left as i16 - right as i16 - c;
    let value = if difference < 0 {
        (difference + 0x100) as u8
    } else {
        difference as u8
    };
    let half = (left % 16) as i16 - (right % 16) as i16 - c < 0;
    Outcome { value, flags: make_flags(value == 0, true, half, difference < 0) }
}

/// Applies `operation` to the accumulator `left` and the operand `right`.
pub fn binary(operation: Binary, left: u8, right: u8, f: u8) -> (r: Outcome)
    ensures
        r == binary_spec(operation, left, right, f),
        r.flags % 16 == 0,
{
    match operation {
        Binary::Add => add8(left, right, false),
        Binary::AddWithCarry => add8(left, right, flag_is_set(f, CpuFlag::Carry)),
        Binary::Sub => sub8(left, right, false),
        Binary::SubWithCarry => sub8(left, right, flag_is_set(f, CpuFlag::Carry)),
        Binary::And => {
            let value = left & right;
            Outcome { value, flags: make_flags(value == 0, false, true, false) }
        },
        Binary::Xor => {
            let value = left ^ right;
            Outcome { value, flags: make_flags(value == 0, false, false, false) }
        },
        Binary::Or => {
            let value = left | right;
            Outcome { value, flags: make_flags(value == 0, false, false, false) }
        },
        Binary::Compare => Outcome { value: left, flags: sub8(left, right, false).flags },
    }
}

/// Adds one to `value`; the carry flag stays.
pub fn increment(value: u8, f: u8) -> (r: Outcome)
    ensures
        r == increment_spec(value, f),
        r.flags % 16 == 0,
{
    let next = if value == 0xFF {
        0
    } else {
        value + 1
    };
    Outcome {
        value: next,
        flags: make_flags(next == 0, false, value % 16 == 0x0F, flag_is_set(f, CpuFlag::Carry)),
    }
}

/// Takes one from `value`; the carry flag stays.
pub fn decrement(value: u8, f: u8) -> (r: Outcome)
    ensures
        r == decrement_spec(value, f),
        r.flags % 16 == 0,
{
    let next = if value == 0 {
        0xFF
    } else {
        value - 1
    };
    Outcome {
        value: next,
        flags: make_flags(next == 0, true, value % 16 == 0, flag_is_set(f, CpuFlag::Carry)),
    }
}

/// The byte that a rotation or shift leaves.
#[verifier::rlimit(50)]
fn shift(operation: Unary, value: u8, f: u8) -> (r: u8)
    ensures
        r == shifted(operation, value, f),
{
    let carry: u8 = if flag_is_set(f, CpuFlag::Carry) {
        1
    } else {
        0
    };
    let doubled: u8 = ((value as u16 * 2) % 0x100) as u8;
    match operation {
        Unary::RotateLeft => doubled + value / 0x80,
        Unary::RotateRight => value / 2 + (value % 2) * 0x80,
        Unary::RotateLeftThroughCarry => doubled + carry,
        Unary::RotateRightThroughCarry => value / 2 + carry * 0x80,
        Unary::ShiftLeftArithmetically => doubled,
        Unary::ShiftRightArithmetically => value / 2 + (value / 0x80) * 0x80,
        Unary::SwapNibbles => (value % 16) * 16 + value / 16,
        Unary::ShiftRightLogically => value / 2,
    }
}

/// The bit that a rotation or shift pushes out.
fn pushed_out(operation: Unary, value: u8) -> (r: bool)
    ensures
        r == shifted_out(operation, value),
{
    match operation {
        Unary::RotateLeft | Unary::RotateLeftThroughCarry | Unary::ShiftLeftArithmetically => value
            >= 0x80,
        Unary::SwapNibbles => false,
        _ => value % 2 == 1,
    }
}

/// Rotates or shifts `value` as the prefixed opcodes do.
pub fn unary(operation: Unary, value: u8, f: u8) -> (r: Outcome)
    ensures
        r == unary_spec(operation, value, f),
        r.flags % 16 == 0,
{
    let result = shift(operation, value, f);
    Outcome {
        value: result,
        flags: make_flags(result == 0, false, false, pushed_out(operation, value)),
    }
}

/// Rotates the accumulator `value`; the zero flag is cleared.
pub fn rotate_accumulator(operation: Unary, value: u8, f: u8) -> (r: Outcome)
    ensures
        r == rotate_accumulator_spec(operation, value, f),
        r.flags % 16 == 0,
{
    let result = shift(operation, value, f);
    Outcome { value: result, flags: make_flags(false, false, false, pushed_out(operation, value)) }
}

/// The flags after a test of bit `index` of `value`.
pub fn test_bit(index: u8, value: u8, f: u8) -> (flags: u8)
    ensures
        flags == test_bit_spec(index, value, f),
        flags % 16 == 0,
{
    make_flags(!bit_is_set(value, index), false, true, flag_is_set(f, CpuFlag::Carry))
}

/// Adjusts the accumulator `a` to packed decimal after an addition or a
/// subtraction.
#[verifier::rlimit(50)]
pub fn decimal_adjust(a: u8, f: u8) -> (r: Outcome)
    ensures
        r == decimal_adjust_spec(a, f),
        r.flags % 16 == 0,
{
    let subtracted = flag_is_set(f, CpuFlag::Negative);
    let mut correction: u8 = 0;
    let mut carry = false;
    if flag_is_set(f, CpuFlag::Carry) || (!subtracted && a > 0x99) {
        correction = correction + 0x60;
        carry = true;
    }
    if flag_is_set(f, CpuFlag::Half) || (!subtracted && a % 16 > 9) {
        correction = correction + 0x06;
    }
    let adjusted: u8 = if subtracted {
        if a >= correction {
            a - correction
        } else {
            (a as u16 + 0x100 - correction as u16) as u8
        }
    } else {
        ((a as u16 + correction as u16) % 0x100) as u8
    };
    Outcome { value: adjusted, flags: make_flags(adjusted == 0, subtracted, false, carry) }
}

/// Adds `right` to `left` on 16 bits; the zero flag stays.
pub fn add16(left: u16, right: u16, f: u8) -> (r: WideOutcome)
    ensures
        r == add16_spec(left, right, f),
        r.flags % 16 == 0,
{
    let sum: u32 = left as u32 + right as u32;
    let half = (left % 0x1000) as u32 + (right % 0x1000) as u32 > 0x0FFF;
    WideOutcome {
        value: (sum % 0x1_0000) as u16,
        flags: make_flags(flag_is_set(f, CpuFlag::Zero), false, half, sum > 0xFFFF),
    }
}

/// Adds the signed offset `e` to `base`.
pub fn add_signed(base: u16, e: u8) -> (r: WideOutcome)
    ensures
        r == add_signed_spec(base, e),
        r.flags % 16 == 0,
{
    let half = (base % 16) as u16 + (e % 16) as u16 > 0x0F;
    let carry = (base % 0x100) as u16 + e as u16 > 0xFF;
    WideOutcome {
        value: wrapping_offset(base, as_signed(e)),
        flags: make_flags(false, false, half, carry),
    }
}

/// A flag register reads back the four flags it was packed from, and
/// its low nibble is zero.
pub proof fn lemma_flags_read_back(zero: bool, negative: bool, half: bool, carry: bool)
    ensures
        has_flag(pack_flags(zero, negative, half, carry), CpuFlag::Zero) == zero,
        has_flag(pack_flags(zero, negative, half, carry), CpuFlag::Negative) == negative,
        has_flag(pack_flags(zero, negative, half, carry), CpuFlag::Half) == half,
        has_flag(pack_flags(zero, negative, half, carry), CpuFlag::Carry) == carry,
        pack_flags(zero, negative, half, carry) % 16 == 0,
{
}

/// Setting one flag changes that flag and no other.
#[verifier::rlimit(50)]
pub proof fn lemma_flag_change(f: u8, flag: CpuFlag, value: bool, other: CpuFlag)
    ensures
        has_flag(with_flag(f, flag, value), flag) == value,
        other != flag ==> has_flag(with_flag(f, flag, value), other) == has_flag(f, other),
        with_flag(f, flag, value) % 16 == 0,
{
}

/// The addition of any two bytes: the result is the sum on eight bits, Z
/// says that it is zero, N is clear, H says that the low nibbles carried
/// and C that the bytes did.
#[verifier::rlimit(50)]
pub proof fn lemma_add_flags(a: u8, b: u8, f: u8)
    ensures
        ({
            let r = binary_spec(Binary::Add, a, b, f);
            &&& r.value == (a + b) % 0x100
            &&& has_flag(r.flags, CpuFlag::Zero) == ((a + b) % 0x100 == 0)
            &&& !has_flag(r.flags, CpuFlag::Negative)
            &&& has_flag(r.flags, CpuFlag::Half) == (a % 16 + b % 16 > 0x0F)
            &&& has_flag(r.flags, CpuFlag::Carry) == (a + b > 0xFF)
        }),
{
}

/// The subtraction of any two bytes: the result is the difference on eight
/// bits, Z says that the bytes are equal, N is set, H says that the low
/// nibbles borrowed and C that the bytes did.
#[verifier::rlimit(50)]
pub proof fn lemma_sub_flags(a: u8, b: u8, f: u8)
    ensures
        ({
            let r = binary_spec(Binary::Sub, a, b, f);
            &&& r.value == (a - b) % 0x100
            &&& has_flag(r.flags, CpuFlag::Zero) == (a == b)
            &&& has_flag(r.flags, CpuFlag::Negative)
            &&& has_flag(r.flags, CpuFlag::Half) == (a % 16 < b % 16)
            &&& has_flag(r.flags, CpuFlag::Carry) == (a < b)
        }),
{
}

/// Whether both nibbles of `value` are decimal digits.
pub open spec fn is_decimal(value: u8) -> bool {
    value / 16 <= 9 && value % 16 <= 9
}

/// The number that the two decimal digits of `value` write.
pub open spec fn decimal_value(value: u8) -> int {
    (value / 16) * 10 + value % 16
}

/// The digits of the sum of two packed decimal numbers, as the adjustment
/// sees them: `value` is the sum on eight bits, `low` and `high` the sums of
/// the low and of the high digits.
#[verifier::rlimit(50)]
proof fn lemma_sum_of_digits(low: int, high: int, value: int)
    requires
        0 <= low <= 18,
        0 <= high <= 18,
        value == (16 * high + low) % 0x100,
    ensures
        value == if 16 * high + low > 0xFF {
            16 * high + low - 0x100
        } else {
            16 * high + low
        },
        value % 16 == if low >= 16 {
            low - 16
        } else {
            low
        },
        (low > 0x0F || value % 16 > 9) == (low >= 10),
        (16 * high + low > 0xFF || value > 0x99) == (high + (if low >= 10 {
            1int
        } else {
            0int
        }) >= 10),
{
    let total = 16 * high + low;
    if total > 0xFF {
        assert(value == total - 0x100);
        assert(value == 16 * (high - 16) + low);
    } else {
        assert(value == total);
    }
    if low >= 16 {
        assert(total == 16 * (high + 1) + (low - 16));
    }
}

/// A byte made of two digits has these digits as its nibbles.
proof fn lemma_nibbles(high: int, low: int)
    requires
        0 <= high <= 15,
        0 <= low <= 15,
    ensures
        (16 * high + low) / 16 == high,
        (16 * high + low) % 16 == low,
        0 <= 16 * high + low <= 0xFF,
{
}

/// The decimal adjustment after the addition of two packed decimal
/// numbers leaves the two low digits of their sum, and the carry flag says
/// whether the sum has a third.
#[verifier::rlimit(100)]
#[verifier::spinoff_prover]
pub proof fn lemma_decimal_adjust_after_add(a: u8, b: u8, f: u8)
    requires
        is_decimal(a),
        is_decimal(b),
    ensures
        ({
            let sum = binary_spec(Binary::Add, a, b, f);
            let adjusted = decimal_adjust_spec(sum.value, sum.flags);
            &&& is_decimal(adjusted.value)
            &&& decimal_value(adjusted.value) == (decimal_value(a) + decimal_value(b)) % 100
            &&& has_flag(adjusted.flags, CpuFlag::Carry) == (decimal_value(a) + decimal_value(b)
                >= 100)
            &&& has_flag(adjusted.flags, CpuFlag::Zero) == (adjusted.value == 0)
            &&& !has_flag(adjusted.flags, CpuFlag::Half)
        }),
{
    let sum = binary_spec(Binary::Add, a, b, f);
    lemma_flags_read_back((a + b) % 0x100 == 0, false, a % 16 + b % 16 > 0x0F, a + b > 0xFF);
    let low = a as int % 16 + b as int % 16;
    let high = a as int / 16 + b as int / 16;
    let total = a as int + b as int;
    assert(total == 16 * high + low);
    let carry_low: int = if low >= 10 {
        1
    } else {
        0
    };
    let high_digit = high + carry_low;
    let carry_high: int = if high_digit >= 10 {
        1
    } else {
        0
    };
    let value = sum.value as int;
    lemma_sum_of_digits(low, high, value);
    assert(has_flag(sum.flags, CpuFlag::Half) == (low > 0x0F));
    assert(has_flag(sum.flags, CpuFlag::Carry) == (total > 0xFF));
    assert(!has_flag(sum.flags, CpuFlag::Negative));
    assert(decimal_correction(sum.value, sum.flags) == 6 * carry_low + 0x60 * carry_high);
    let adjusted = decimal_adjust_spec(sum.value, sum.flags);
    let result_high = high_digit - 10 * carry_high;
    let result_low = low - 10 * carry_low;
    let expected = 16 * result_high + result_low;
    lemma_nibbles(result_high, result_low);
    assert(value + 6 * carry_low + 0x60 * carry_high == expected + 0x100 * (if value + 6
        * carry_low + 0x60 * carry_high > 0xFF {
        1int
    } else {
        0int
    }));
    assert(adjusted.value == expected);
    lemma_flags_read_back(adjusted.value == 0, false, false, carry_high == 1);
    assert(decimal_value(a) + decimal_value(b) == 10 * high + low);
    assert(decimal_value(adjusted.value) == 10 * result_high + result_low);
}

/// The decimal adjustment after the subtraction of two packed decimal
/// numbers leaves the two low digits of their difference, and the carry
/// flag says whether the subtraction borrowed.
#[verifier::rlimit(100)]
#[verifier::spinoff_prover]
pub proof fn lemma_decimal_adjust_after_sub(a: u8, b: u8, f: u8)
    requires
        is_decimal(a),
        is_decimal(b),
    ensures
        ({
            let difference = binary_spec(Binary::Sub, a, b, f);
            let adjusted = decimal_adjust_spec(difference.value, difference.flags);
            &&& is_decimal(adjusted.value)
            &&& decimal_value(adjusted.value) == (decimal_value(a) - decimal_value(b)) % 100
            &&& has_flag(adjusted.flags, CpuFlag::Carry) == (decimal_value(a) < decimal_value(b))
            &&& has_flag(adjusted.flags, CpuFlag::Zero) == (adjusted.value == 0)
            &&& !has_flag(adjusted.flags, CpuFlag::Half)
        }),
{
    let difference = binary_spec(Binary::Sub, a, b, f);
    lemma_flags_read_back((a - b) % 0x100 == 0, true, a % 16 - b % 16 < 0, a - b < 0);
    let low = a as int % 16 - b as int % 16;
    let high = a as int / 16 - b as int / 16;
    let total = a as int - b as int;
    assert(total == 16 * high + low);
    let borrow_low: int = if low < 0 {
        1
    } else {
        0
    };
    let high_digit = high - borrow_low;
    let borrow_high: int = if high_digit < 0 {
        1
    } else {
        0
    };
    let value = difference.value as int;
    assert(value == if total < 0 {
        total + 0x100
    } else {
        total
    });
    assert(has_flag(difference.flags, CpuFlag::Half) == (low < 0));
    assert(has_flag(difference.flags, CpuFlag::Carry) == (high_digit < 0));
    assert(has_flag(difference.flags, CpuFlag::Negative));
    assert(decimal_correction(difference.value, difference.flags) == 6 * borrow_low + 0x60
        * borrow_high);
    let adjusted = decimal_adjust_spec(difference.value, difference.flags);
    let expected = 16 * (high_digit + 10 * borrow_high) + (low + 10 * borrow_low);
    assert(total - 6 * borrow_low - 0x60 * borrow_high == expected - 0x100 * borrow_high);
    assert(0 <= expected < 0x100);
    assert(adjusted.value == expected);
    assert(adjusted.value as int / 16 == high_digit + 10 * borrow_high);
    assert(adjusted.value as int % 16 == low + 10 * borrow_low);
    lemma_flags_read_back(adjusted.value == 0, true, false, borrow_high == 1);
    assert(decimal_value(a) - decimal_value(b) == 10 * high + low);
}

} // verus!
