//! Arithmetic on bytes as the 6502 performs it: addition with carry,
//! comparison, shifts and rotates, each with the flags that it produces.

use vstd::prelude::*;

verus! {

/// The number that a byte stands for when it is read as a two's-complement
/// signed value.
pub open spec fn signed(v: u8) -> int {
    if v < 0x80 {
        v as int
    } else {
        v as int - 256
    }
}

/// One for a set carry, zero for a clear one.
pub open spec fn carry_in(carry: bool) -> int {
    if carry {
        1
    } else {
        0
    }
}

/// Outcome of an addition with carry.
pub struct Sum {
    /// The low eight bits of the sum.
    pub value: u8,
    /// Whether the unsigned sum did not fit into a byte.
    pub carry: bool,
    /// Whether the signed sum did not fit into a byte.
    pub overflow: bool,
}

/// Outcome of a shift or rotate by one bit.
pub struct Shifted {
    /// The byte after the shift.
    pub value: u8,
    /// The bit that was shifted out.
    pub carry: bool,
}

/// Outcome of comparing a register with a memory operand.
pub struct Comparison {
    /// The register equals the operand.
    pub zero: bool,
    /// The register is at least the operand.
    pub carry: bool,
    /// The register is less than the operand.
    pub negative: bool,
}

/// The sum `a + m + carry`: its low byte, whether it exceeds 255, and whether
/// the sum of the operands read as signed numbers leaves `-128..=127`.
pub open spec fn add_with_carry_spec(a: u8, m: u8, carry: bool) -> Sum {
    let total = a as int + m as int + carry_in(carry);
    let signed_total = signed(a) + signed(m) + carry_in(carry);
    Sum {
        value: (total % 256) as u8,
        carry: total > 0xff,
        overflow: signed_total < -128 || signed_total > 127,
    }
}

/// The bitwise complement of a byte, as a number.
pub open spec fn complement(m: u8) -> u8 {
    (255 - m) as u8
}

/// Bit 6 of a byte.
pub open spec fn bit6(v: u8) -> bool {
    (v as int / 64) % 2 == 1
}

/// Comparison of `reg` with `m` as unsigned numbers.
pub open spec fn compare_spec(reg: u8, m: u8) -> Comparison {
    Comparison { zero: reg == m, carry: reg >= m, negative: reg < m }
}

/// Shift left by one: the byte doubles modulo 256 and bit 7 leaves.
pub open spec fn shift_left_spec(v: u8) -> Shifted {
    Shifted { value: ((2 * v) % 256) as u8, carry: v >= 0x80 }
}

/// Logical shift right by one: the byte halves and bit 0 leaves.
pub open spec fn shift_right_spec(v: u8) -> Shifted {
    Shifted { value: (v / 2) as u8, carry: v % 2 == 1 }
}

/// Rotate left by one through the carry: the old carry enters at bit 0 and
/// bit 7 leaves.
pub open spec fn rotate_left_spec(v: u8, carry: bool) -> Shifted {
    Shifted { value: ((2 * v) % 256 + carry_in(carry)) as u8, carry: v >= 0x80 }
}

/// Rotate right by one through the carry: the old carry enters at bit 7 and
/// bit 0 leaves.
pub open spec fn rotate_right_spec(v: u8, carry: bool) -> Shifted {
    Shifted { value: (v / 2 + 128 * carry_in(carry)) as u8, carry: v % 2 == 1 }
}

proof fn lemma_sum_bits(a: u8, m: u8, c: u16, t: u16)
    by (bit_vector)
    requires
        c <= 1,
        t == a as u16 + m as u16 + c,
    ensures
        (t & 0x00ff) as u8 == t % 256,
        (t & 0x0100 != 0) == (t > 0xff),
        (t & 0x00ff == 0) == (t % 256 == 0),
        (t & 0x0080 != 0) == (t % 256 >= 0x80),
        ((a as u16 ^ t) & !(a as u16 ^ m as u16) & 0x0080 != 0) == ((a < 0x80) == (m < 0x80) && (t
            % 256 < 0x80) != (a < 0x80)),
{
}

/// The bit formula of the adder agrees with the arithmetic statement of the
/// sum: with `t = a + m + c` taken as a sixteen-bit number, the result is
/// `t & 0xFF`, Carry is bit 8 of `t`, Zero says that `t & 0xFF` is zero,
/// Negative is bit 7 of `t`, and Overflow is bit 7 of
/// `(a ^ t) & !(a ^ m)`.
pub proof fn lemma_add_with_carry_bits(a: u8, m: u8, carry: bool)
    ensures
        ({
            let c: u16 = if carry { 1 } else { 0 };
            let t: u16 = (a as u16 + m as u16 + c) as u16;
            let sum = add_with_carry_spec(a, m, carry);
            &&& t == a as int + m as int + carry_in(carry)
            &&& sum.value == (t & 0x00ff) as u8
            &&& sum.carry == (t & 0x0100 != 0)
            &&& (sum.value == 0) == (t & 0x00ff == 0)
            &&& (sum.value >= 0x80) == (t & 0x0080 != 0)
            &&& sum.overflow == ((a as u16 ^ t) & !(a as u16 ^ m as u16) & 0x0080 != 0)
        }),
{
    let c: u16 = if carry { 1 } else { 0 };
    let t: u16 = (a as u16 + m as u16 + c) as u16;
    lemma_sum_bits(a, m, c, t);
}

/// Adds `m` and the carry to `a`.
pub fn add_with_carry(a: u8, m: u8, carry: bool) -> (sum: Sum)
    ensures
        sum == add_with_carry_spec(a, m, carry),
{
    let c: u16 = if carry { 1 } else { 0 };
    let tmp: u16 = a as u16 + m as u16 + c;
    proof {
        lemma_add_with_carry_bits(a, m, carry);
    }
    Sum {
        value: (tmp & 0x00ff) as u8,
        carry: tmp & 0x0100 != 0,
        overflow: (a as u16 ^ tmp) & !(a as u16 ^ m as u16) & 0x0080 != 0,
    }
}

/// Inverts every bit of `m`.
pub fn invert(m: u8) -> (r: u8)
    ensures
        r == complement(m),
{
    assert(!m == 255 - m) by (bit_vector);
    !m
}

/// Whether bit 7 of `v` is set.
pub fn sign_bit(v: u8) -> (set: bool)
    ensures
        set == (v >= 0x80),
{
    assert((v & 0x80 != 0) == (v >= 0x80)) by (bit_vector);
    v & 0x80 != 0
}

/// Whether bit 6 of `v` is set.
pub fn overflow_bit(v: u8) -> (set: bool)
    ensures
        set == bit6(v),
{
    assert((v & 0x40 > 0) == ((v / 64) % 2 == 1)) by (bit_vector);
    v & 0x40 > 0
}

/// Compares a register with a memory operand.
pub fn compare(reg: u8, m: u8) -> (c: Comparison)
    ensures
        c == compare_spec(reg, m),
{
    let diff: i16 = reg as i16 - m as i16;
    Comparison { zero: diff == 0, carry: diff >= 0, negative: diff < 0 }
}

/// Shifts `v` left by one bit.
pub fn shift_left(v: u8) -> (s: Shifted)
    ensures
        s == shift_left_spec(v),
{
    assert(v << 1 == (2 * v) % 256) by (bit_vector);
    Shifted { value: v << 1, carry: sign_bit(v) }
}

/// Shifts `v` right by one bit.
pub fn shift_right(v: u8) -> (s: Shifted)
    ensures
        s == shift_right_spec(v),
{
    assert(v >> 1 == v / 2 && (v & 0x01 != 0) == (v % 2 == 1)) by (bit_vector);
    Shifted { value: v >> 1, carry: v & 0x01 != 0 }
}

/// Rotates `v` left by one bit through the carry.
pub fn rotate_left(v: u8, carry: bool) -> (s: Shifted)
    ensures
        s == rotate_left_spec(v, carry),
{
    let c: u8 = if carry { 1 } else { 0 };
    assert((v << 1) | c == (2 * v) % 256 + c) by (bit_vector)
        requires
            c <= 1,
    ;
    Shifted { value: (v << 1) | c, carry: sign_bit(v) }
}

/// Rotates `v` right by one bit through the carry.
pub fn rotate_right(v: u8, carry: bool) -> (s: Shifted)
    ensures
        s == rotate_right_spec(v, carry),
{
    let c: u8 = if carry { 1u8 << 7 } else { 0 };
    assert(1u8 << 7 == 128) by (bit_vector);
    assert((v >> 1) | c == v / 2 + c && (v & 0x01 != 0) == (v % 2 == 1)) by (bit_vector)
        requires
            c == 0 || c == 128,
    ;
    Shifted { value: (v >> 1) | c, carry: v & 0x01 != 0 }
}

} // verus!
