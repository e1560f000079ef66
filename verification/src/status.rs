//! The processor status byte and its eight flag bits.

use vstd::prelude::*;

verus! {

/// A bit of the processor status byte `P`.
#[derive(Debug, Clone, Copy, PartialEq, Eq, Structural)]
pub enum Flag {
    Carry,
    Zero,
    Interrupt,
    Decimal,
    Break,
    Break2,
    Overflow,
    Negative,
}

impl Flag {
    /// The byte that has exactly this flag's bit set.
    pub open spec fn bit(self) -> u8 {
        match self {
            Flag::Carry => 0x01,
            Flag::Zero => 0x02,
            Flag::Interrupt => 0x04,
            Flag::Decimal => 0x08,
            Flag::Break => 0x10,
            Flag::Break2 => 0x20,
            Flag::Overflow => 0x40,
            Flag::Negative => 0x80,
        }
    }

    /// The byte that has exactly this flag's bit set.
    pub fn mask(self) -> (m: u8)
        ensures
            m == self.bit(),
    {
        match self {
            Flag::Carry => 0x01,
            Flag::Zero => 0x02,
            Flag::Interrupt => 0x04,
            Flag::Decimal => 0x08,
            Flag::Break => 0x10,
            Flag::Break2 => 0x20,
            Flag::Overflow => 0x40,
            Flag::Negative => 0x80,
        }
    }
}

/// Whether `flag` is set in the status byte `p`.
pub open spec fn has_flag(p: u8, flag: Flag) -> bool {
    p & flag.bit() != 0
}

/// The status byte `p` with `flag` set to `on` and every other bit kept.
pub open spec fn with_flag(p: u8, flag: Flag, on: bool) -> u8 {
    if on {
        p | flag.bit()
    } else {
        p & !flag.bit()
    }
}

/// The status byte `p` with Zero and Negative describing the byte `v`.
pub open spec fn with_zn(p: u8, v: u8) -> u8 {
    with_flag(with_flag(p, Flag::Zero, v == 0), Flag::Negative, v >= 0x80)
}

proof fn lemma_single_bits(p: u8, m: u8, k: u8)
    by (bit_vector)
    requires
        m == 1 || m == 2 || m == 4 || m == 8 || m == 16 || m == 32 || m == 64 || m == 128,
        k == 1 || k == 2 || k == 4 || k == 8 || k == 16 || k == 32 || k == 64 || k == 128,
    ensures
        (p | m) & m != 0,
        (p & !m) & m == 0,
        m != k ==> (p | m) & k == p & k,
        m != k ==> (p & !m) & k == p & k,
{
}

/// No flag is set in the status byte zero.
pub proof fn lemma_no_flag(flag: Flag)
    ensures
        !has_flag(0, flag),
{
    let m = flag.bit();
    assert(0u8 & m == 0) by (bit_vector);
}

/// Assigning a flag makes that flag read as assigned and leaves every other
/// flag as it was.
pub proof fn lemma_with_flag(p: u8, flag: Flag, on: bool, other: Flag)
    ensures
        has_flag(with_flag(p, flag, on), flag) == on,
        other != flag ==> has_flag(with_flag(p, flag, on), other) == has_flag(p, other),
{
    lemma_single_bits(p, flag.bit(), other.bit());
}

/// The flags of a status byte determine it: two bytes in which every flag
/// reads the same are the same byte.
pub proof fn lemma_flags_determine(p: u8, q: u8)
    requires
        forall|f: Flag| has_flag(p, f) == has_flag(q, f),
    ensures
        p == q,
{
    assert(has_flag(p, Flag::Carry) == has_flag(q, Flag::Carry));
    assert(has_flag(p, Flag::Zero) == has_flag(q, Flag::Zero));
    assert(has_flag(p, Flag::Interrupt) == has_flag(q, Flag::Interrupt));
    assert(has_flag(p, Flag::Decimal) == has_flag(q, Flag::Decimal));
    assert(has_flag(p, Flag::Break) == has_flag(q, Flag::Break));
    assert(has_flag(p, Flag::Break2) == has_flag(q, Flag::Break2));
    assert(has_flag(p, Flag::Overflow) == has_flag(q, Flag::Overflow));
    assert(has_flag(p, Flag::Negative) == has_flag(q, Flag::Negative));
    assert(p == q) by (bit_vector)
        requires
            (p & 0x01 != 0) == (q & 0x01 != 0),
            (p & 0x02 != 0) == (q & 0x02 != 0),
            (p & 0x04 != 0) == (q & 0x04 != 0),
            (p & 0x08 != 0) == (q & 0x08 != 0),
            (p & 0x10 != 0) == (q & 0x10 != 0),
            (p & 0x20 != 0) == (q & 0x20 != 0),
            (p & 0x40 != 0) == (q & 0x40 != 0),
            (p & 0x80 != 0) == (q & 0x80 != 0),
    ;
}

/// After Zero and Negative are set from a byte, Zero is set exactly when the
/// byte is zero, Negative exactly when its top bit is set, and the other six
/// flags are unchanged.
pub proof fn lemma_with_zn(p: u8, v: u8, other: Flag)
    ensures
        has_flag(with_zn(p, v), Flag::Zero) == (v == 0),
        has_flag(with_zn(p, v), Flag::Negative) == (v >= 0x80),
        other != Flag::Zero && other != Flag::Negative ==> has_flag(with_zn(p, v), other)
            == has_flag(p, other),
{
    let q = with_flag(p, Flag::Zero, v == 0);
    lemma_with_flag(p, Flag::Zero, v == 0, other);
    lemma_with_flag(q, Flag::Negative, v >= 0x80, Flag::Zero);
    lemma_with_flag(q, Flag::Negative, v >= 0x80, other);
}

} // verus!
