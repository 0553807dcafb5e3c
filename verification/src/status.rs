//! The processor status register `P`, one flag per bit.
//!
//! Bit layout, most significant first: Negative, Overflow, unused, Break,
//! Decimal, Interrupt-disable, Zero, Carry.
use vstd::prelude::*;

verus! {

/// Carry: bit 0.
pub const CARRY: u8 = 0x01;

/// Zero: bit 1.
pub const ZERO: u8 = 0x02;

/// Interrupt-disable: bit 2.
pub const INTERRUPT: u8 = 0x04;

/// Decimal: bit 3.
pub const DECIMAL: u8 = 0x08;

/// Break: bit 4. It exists only in copies of `P` that are pushed on the stack.
pub const BREAK: u8 = 0x10;

/// The unused bit 5, which reads as set.
pub const UNUSED: u8 = 0x20;

/// Overflow: bit 6.
pub const OVERFLOW: u8 = 0x40;

/// Negative: bit 7.
pub const NEGATIVE: u8 = 0x80;

/// `mask` names exactly one flag of the status register.
pub open spec fn is_flag(mask: u8) -> bool {
    mask == CARRY || mask == ZERO || mask == INTERRUPT || mask == DECIMAL || mask == BREAK
        || mask == UNUSED || mask == OVERFLOW || mask == NEGATIVE
}

/// Whether any bit of `mask` is set in `p`.
pub open spec fn flag_set(p: u8, mask: u8) -> bool {
    p & mask != 0
}

/// `p` with the bits of `mask` set or cleared, and every other bit as it was.
pub open spec fn with_flag(p: u8, mask: u8, on: bool) -> u8 {
    if on {
        p | mask
    } else {
        p & !mask
    }
}

/// `p` after an operation that "affects flags" produced `value`: Zero is set
/// exactly when the value is zero, Negative exactly when its bit 7 is set.
pub open spec fn with_zero_negative(p: u8, value: u8) -> u8 {
    with_flag(with_flag(p, ZERO, value == 0), NEGATIVE, value >= 0x80)
}

/// Tests the bits of `mask` in `p`.
pub fn test_flag(p: u8, mask: u8) -> (set: bool)
    ensures
        set == flag_set(p, mask),
{
    p & mask != 0
}

/// Sets or clears the bits of `mask` in `p`.
pub fn assign_flag(p: u8, mask: u8, on: bool) -> (q: u8)
    ensures
        q == with_flag(p, mask, on),
{
    if on {
        p | mask
    } else {
        p & !mask
    }
}

/// Recomputes Zero and Negative from `value`.
pub fn set_zero_negative(p: u8, value: u8) -> (q: u8)
    ensures
        q == with_zero_negative(p, value),
{
    assign_flag(assign_flag(p, ZERO, value == 0), NEGATIVE, value >= 0x80)
}

/// Assigning a flag makes that flag read back as assigned and leaves every
/// other flag as it was.
pub proof fn lemma_with_flag(p: u8, mask: u8, on: bool)
    requires
        is_flag(mask),
    ensures
        flag_set(with_flag(p, mask, on), mask) == on,
        forall|other: u8|
            is_flag(other) && other != mask ==> #[trigger] flag_set(with_flag(p, mask, on), other)
                == flag_set(p, other),
{
    assert(forall|q: u8, m: u8, o: u8| (m & o == 0) ==> #[trigger] ((q | m) & o) == q & o)
        by (bit_vector);
    assert(forall|q: u8, m: u8, o: u8| (m & o == 0) ==> #[trigger] ((q & !m) & o) == q & o)
        by (bit_vector);
    assert(forall|q: u8, m: u8| m != 0 ==> #[trigger] ((q | m) & m) != 0) by (bit_vector);
    assert(forall|q: u8, m: u8| #[trigger] ((q & !m) & m) == 0) by (bit_vector);
    assert(forall|m: u8, o: u8|
        (m == 1 || m == 2 || m == 4 || m == 8 || m == 16 || m == 32 || m == 64 || m == 128) && (o
            == 1 || o == 2 || o == 4 || o == 8 || o == 16 || o == 32 || o == 64 || o == 128) && m
            != o ==> #[trigger] (m & o) == 0) by (bit_vector);
}

/// After a flag-affecting operation Zero and Negative are functions of the
/// result alone, and the six other flags keep their prior value exactly.
pub proof fn lemma_zero_negative(p: u8, value: u8)
    ensures
        flag_set(with_zero_negative(p, value), ZERO) <==> value == 0,
        flag_set(with_zero_negative(p, value), NEGATIVE) <==> value >= 0x80,
        flag_set(with_zero_negative(p, value), NEGATIVE) <==> value & 0x80 != 0,
        forall|other: u8|
            is_flag(other) && other != ZERO && other != NEGATIVE ==> #[trigger] flag_set(
                with_zero_negative(p, value),
                other,
            ) == flag_set(p, other),
{
    let q = with_flag(p, ZERO, value == 0);
    lemma_with_flag(p, ZERO, value == 0);
    lemma_with_flag(q, NEGATIVE, value >= 0x80);
    assert((value & 0x80 != 0) == (value >= 0x80)) by (bit_vector);
}

} // verus!
