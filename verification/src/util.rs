use vstd::prelude::*;

verus! {

/// A heap-allocated array whose `N` entries all hold `value`.
pub fn boxed_array<T: Copy, const N: usize>(value: T) -> (r: Box<[T; N]>)
    ensures
        r@.len() == N,
        forall|i: int| 0 <= i < N ==> r@[i] == value,
{
    Box::new([value;N])
}

/// Quotient and remainder of `a` by `b`, in that order.
#[inline]
pub fn div_rem(a: u8, b: u8) -> (r: (u8, u8))
    requires
        b != 0,
    ensures
        r.0 == a / b,
        r.1 == a % b,
        a == b * r.0 + r.1,
        r.1 < b,
{
    proof {
        vstd::arithmetic::div_mod::lemma_fundamental_div_mod(a as int, b as int);
    }
    (a / b, a % b)
}

/// The weight of bit `index % 8` in a byte.
pub open spec fn bit_weight(index: u8) -> int {
    let i = index % 8;
    if i == 0 {
        1
    } else if i == 1 {
        2
    } else if i == 2 {
        4
    } else if i == 3 {
        8
    } else if i == 4 {
        16
    } else if i == 5 {
        32
    } else if i == 6 {
        64
    } else {
        128
    }
}

/// Whether bit `index % 8` of `value` is set.
pub open spec fn bit_of(value: u8, index: u8) -> bool {
    let i = index % 8;
    if i == 0 {
        value % 2 == 1
    } else if i == 1 {
        (value / 2) % 2 == 1
    } else if i == 2 {
        (value / 4) % 2 == 1
    } else if i == 3 {
        (value / 8) % 2 == 1
    } else if i == 4 {
        (value / 16) % 2 == 1
    } else if i == 5 {
        (value / 32) % 2 == 1
    } else if i == 6 {
        (value / 64) % 2 == 1
    } else {
        value >= 128
    }
}

/// `value` with bit `index` cleared.
pub open spec fn clear_bit_spec(index: u8, value: u8) -> u8 {
    if bit_of(value, index) {
        (value - bit_weight(index)) as u8
    } else {
        value
    }
}

/// `value` with bit `index` set.
pub open spec fn set_bit_spec(index: u8, value: u8) -> u8 {
    if bit_of(value, index) {
        value
    } else {
        (value + bit_weight(index)) as u8
    }
}

fn bit_weight_of(index: u8) -> (weight: u8)
    ensures
        weight == bit_weight(index),
{
    let i = index % 8;
    if i == 0 {
        1
    } else if i == 1 {
        2
    } else if i == 2 {
        4
    } else if i == 3 {
        8
    } else if i == 4 {
        16
    } else if i == 5 {
        32
    } else if i == 6 {
        64
    } else {
        128
    }
}

/// Whether bit `index % 8` of `value` is set.
pub fn bit_is_set(value: u8, index: u8) -> (set: bool)
    ensures
        set == bit_of(value, index),
{
    let i = index % 8;
    if i == 0 {
        value % 2 == 1
    } else if i == 1 {
        (value / 2) % 2 == 1
    } else if i == 2 {
        (value / 4) % 2 == 1
    } else if i == 3 {
        (value / 8) % 2 == 1
    } else if i == 4 {
        (value / 16) % 2 == 1
    } else if i == 5 {
        (value / 32) % 2 == 1
    } else if i == 6 {
        (value / 64) % 2 == 1
    } else {
        value >= 128
    }
}

/// Clears bit `index % 8` of `value`.
pub fn clear_bit(index: u8, value: u8) -> (r: u8)
    ensures
        r == clear_bit_spec(index, value),
{
    if bit_is_set(value, index) {
        proof {
            lemma_bit_weight_fits(value, index);
        }
        value - bit_weight_of(index)
    } else {
        value
    }
}

/// Sets bit `index % 8` of `value`.
pub fn set_bit(index: u8, value: u8) -> (r: u8)
    ensures
        r == set_bit_spec(index, value),
{
    if bit_is_set(value, index) {
        value
    } else {
        proof {
            lemma_bit_weight_fits(value, index);
        }
        value + bit_weight_of(index)
    }
}

/// A set bit can be taken from a byte and a clear bit added to it without
/// leaving the byte's range.
proof fn lemma_bit_weight_fits(value: u8, index: u8)
    ensures
        bit_of(value, index) ==> value >= bit_weight(index),
        !bit_of(value, index) ==> value + bit_weight(index) <= 0xFF,
{
}

/// Setting a bit sets that bit and leaves the others.
#[verifier::rlimit(50)]
pub proof fn lemma_set_bit(value: u8, index: u8, other: u8)
    ensures
        bit_of(set_bit_spec(index, value), index),
        other % 8 != index % 8 ==> bit_of(set_bit_spec(index, value), other) == bit_of(
            value,
            other,
        ),
{
    if bit_of(value, index) {
    } else {
        lemma_weight_added(value, index % 8, other % 8);
    }
}

/// Clearing a bit clears that bit and leaves the others.
#[verifier::rlimit(50)]
pub proof fn lemma_clear_bit(value: u8, index: u8, other: u8)
    ensures
        !bit_of(clear_bit_spec(index, value), index),
        other % 8 != index % 8 ==> bit_of(clear_bit_spec(index, value), other) == bit_of(
            value,
            other,
        ),
{
    if bit_of(value, index) {
        let cleared = (value - bit_weight(index)) as u8;
        lemma_bit_weight_fits(value, index);
        lemma_weight_added(cleared, index % 8, other % 8);
    }
}

/// What bit `index % 8` of `value` adds to the byte: its weight where it is
/// set.
pub open spec fn bit_value(value: u8, index: u8) -> int {
    if bit_of(value, index) {
        bit_weight(index)
    } else {
        0
    }
}

/// The binary digits of a byte: it is the sum of the weights of its set
/// bits.
#[verifier::rlimit(100)]
proof fn lemma_digits(value: u8)
    ensures
        value == bit_value(value, 0) + bit_value(value, 1) + bit_value(value, 2) + bit_value(
            value,
            3,
        ) + bit_value(value, 4) + bit_value(value, 5) + bit_value(value, 6) + bit_value(value, 7),
{
    let v = value as int;
    assert(v == 2 * (v / 2) + v % 2);
    assert(v / 2 == 2 * (v / 4) + (v / 2) % 2);
    assert(v / 4 == 2 * (v / 8) + (v / 4) % 2);
    assert(v / 8 == 2 * (v / 16) + (v / 8) % 2);
    assert(v / 16 == 2 * (v / 32) + (v / 16) % 2);
    assert(v / 32 == 2 * (v / 64) + (v / 32) % 2);
    assert(v / 64 == 2 * (v / 128) + (v / 64) % 2);
    assert(v / 128 == if v >= 128 {
        1int
    } else {
        0int
    });
}

/// Adding the weight of a clear bit to a byte sets that bit and leaves
/// the others.
#[verifier::rlimit(100)]
proof fn lemma_weight_added(value: u8, index: u8, other: u8)
    requires
        index < 8,
        other < 8,
        !bit_of(value, index) || bit_of((value + bit_weight(index)) as u8, index),
    ensures
        !bit_of(value, index) ==> value + bit_weight(index) <= 0xFF,
        !bit_of(value, index) ==> bit_of((value + bit_weight(index)) as u8, index),
        !bit_of(value, index) && other != index ==> bit_of(
            (value + bit_weight(index)) as u8,
            other,
        ) == bit_of(value, other),
{
    if !bit_of(value, index) {
        lemma_bit_weight_fits(value, index);
        let sum = (value + bit_weight(index)) as u8;
        lemma_digits(value);
        lemma_digits(sum);
    }
}

} // verus!
