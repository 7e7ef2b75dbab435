//! The status bitfield and the policy that derives the Zero and Negative
//! flags from the result of an operation.

use vstd::prelude::*;

verus! {

/// Bit 0: Carry.
pub const CARRY: u8 = 0b0000_0001;

/// Bit 1: Zero, set when the last result was zero.
pub const ZERO: u8 = 0b0000_0010;

/// Bit 2: Interrupt disable.
pub const INTERRUPT_DISABLE: u8 = 0b0000_0100;

/// Bit 3: Decimal mode.
pub const DECIMAL: u8 = 0b0000_1000;

/// Bit 4: Break.
pub const BREAK: u8 = 0b0001_0000;

/// Bit 6: Overflow.
pub const OVERFLOW: u8 = 0b0100_0000;

/// Bit 7: Negative, a copy of bit 7 of the last result.
pub const NEGATIVE: u8 = 0b1000_0000;

/// Whether the Zero flag is set in `status`.
pub open spec fn zero_flag(status: u8) -> bool {
    status & ZERO != 0
}

/// Whether the Negative flag is set in `status`.
pub open spec fn negative_flag(status: u8) -> bool {
    status & NEGATIVE != 0
}

/// The status byte after an operation produced `result`: Zero and Negative are
/// rewritten from `result`, the other six bits are those of `status`.
pub open spec fn with_zero_and_negative(status: u8, result: u8) -> u8 {
    (status & !(ZERO | NEGATIVE)) | (if result == 0 { ZERO } else { 0u8 }) | (result & NEGATIVE)
}

/// The Zero flag after the policy says exactly whether the result was zero.
pub proof fn lemma_zero_flag_tracks_result(status: u8, result: u8)
    ensures
        zero_flag(with_zero_and_negative(status, result)) <==> result == 0,
{
    assert((((status & !(ZERO | NEGATIVE)) | ZERO | (result & NEGATIVE)) & ZERO) != 0)
        by (bit_vector);
    assert((((status & !(ZERO | NEGATIVE)) | 0u8 | (result & NEGATIVE)) & ZERO) == 0)
        by (bit_vector);
}

/// The Negative flag after the policy is bit 7 of the result, that is, it is
/// set exactly for results of 128 and above.
pub proof fn lemma_negative_flag_tracks_result(status: u8, result: u8)
    ensures
        negative_flag(with_zero_and_negative(status, result)) <==> result & NEGATIVE != 0,
        negative_flag(with_zero_and_negative(status, result)) <==> result >= 0x80,
{
    let z: u8 = if result == 0 { ZERO } else { 0u8 };
    assert(z == ZERO || z == 0u8);
    assert((z == ZERO || z == 0u8) ==> (((status & !(ZERO | NEGATIVE)) | z | (result & NEGATIVE))
        & NEGATIVE) == (result & NEGATIVE)) by (bit_vector);
    assert((result & NEGATIVE != 0) <==> result >= 0x80) by (bit_vector);
}

/// The policy leaves Carry, Interrupt disable, Decimal, Break, the unused bit
/// and Overflow exactly as they were.
pub proof fn lemma_other_flags_untouched(status: u8, result: u8)
    ensures
        with_zero_and_negative(status, result) & !(ZERO | NEGATIVE) == status & !(ZERO | NEGATIVE),
{
    let z: u8 = if result == 0 { ZERO } else { 0u8 };
    assert((z == ZERO || z == 0u8) ==> (((status & !(ZERO | NEGATIVE)) | z | (result & NEGATIVE))
        & !(ZERO | NEGATIVE)) == (status & !(ZERO | NEGATIVE))) by (bit_vector);
}

/// Applying the policy twice with the same result changes nothing more, and a
/// later result overrides an earlier one.
pub proof fn lemma_last_result_wins(status: u8, first: u8, second: u8)
    ensures
        with_zero_and_negative(with_zero_and_negative(status, first), second)
            == with_zero_and_negative(status, second),
{
    let z1: u8 = if first == 0 { ZERO } else { 0u8 };
    let z2: u8 = if second == 0 { ZERO } else { 0u8 };
    assert((z1 == ZERO || z1 == 0u8) ==> ((((status & !(ZERO | NEGATIVE)) | z1 | (first & NEGATIVE))
        & !(ZERO | NEGATIVE)) | z2 | (second & NEGATIVE)) == ((status & !(ZERO | NEGATIVE)) | z2 | (
    second & NEGATIVE))) by (bit_vector);
}

} // verus!
