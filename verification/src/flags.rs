//! The status register: four flags, each one bit of a byte.
use vstd::prelude::*;

verus! {

/// Bit 0: an unsigned addition or subtraction left the range of a byte.
pub const CARRY_FLAG: u8 = 0b0000_0001;

/// Bit 1: the last result was zero.
pub const ZERO_FLAG: u8 = 0b0000_0010;

/// Bit 6: the checked addition or subtraction had no result.
pub const OVERFLOW_FLAG: u8 = 0b0100_0000;

/// Bit 7: the last result had its high bit set.
pub const NEGATIVE_FLAG: u8 = 0b1000_0000;

/// Which of the two arithmetic instructions updates carry and overflow.
#[derive(Debug, PartialEq, Eq, Structural, Clone, Copy)]
pub enum MathematicalOperation {
    Add,
    Sub,
}

/// Whether `mask` names exactly one bit.
pub open spec fn single_bit(mask: u8) -> bool {
    mask == 0x01 || mask == 0x02 || mask == 0x04 || mask == 0x08 || mask == 0x10 || mask == 0x20
        || mask == 0x40 || mask == 0x80
}

/// Whether the flag `mask` is set in `status`.
pub open spec fn flag(status: u8, mask: u8) -> bool {
    status & mask != 0
}

/// `status` with the flag `mask` set when `on`, cleared otherwise, and
/// every other bit kept.
pub open spec fn with_flag(status: u8, mask: u8, on: bool) -> u8 {
    if on {
        status | mask
    } else {
        status & !mask
    }
}

/// `status` after an instruction that produced `result`: zero is set iff
/// the result is 0, negative iff its high bit is set.
pub open spec fn with_zero_negative(status: u8, result: u8) -> u8 {
    with_flag(with_flag(status, ZERO_FLAG, result == 0), NEGATIVE_FLAG, result >= 0x80)
}

/// `status` after an addition or subtraction. `wrapped` says that the
/// unsigned result left the range of a byte. Overflow is set iff it did.
/// Carry is set iff an addition wrapped, or a subtraction did not (no
/// borrow).
pub open spec fn with_carry_overflow(status: u8, wrapped: bool, op: MathematicalOperation) -> u8 {
    with_flag(
        with_flag(status, OVERFLOW_FLAG, wrapped),
        CARRY_FLAG,
        wrapped == (op == MathematicalOperation::Add),
    )
}

/// Writing one flag makes it read as written and leaves the others alone.
pub proof fn lemma_with_flag(status: u8, mask: u8, on: bool, other: u8)
    requires
        single_bit(mask),
        single_bit(other),
    ensures
        flag(with_flag(status, mask, on), mask) == on,
        other != mask ==> flag(with_flag(status, mask, on), other) == flag(status, other),
{
    assert((status | mask) & mask != 0) by (bit_vector)
        requires
            single_bit(mask),
    ;
    assert((status & !mask) & mask == 0) by (bit_vector);
    assert(other != mask ==> (status | mask) & other == status & other) by (bit_vector)
        requires
            single_bit(mask),
            single_bit(other),
    ;
    assert(other != mask ==> (status & !mask) & other == status & other) by (bit_vector)
        requires
            single_bit(mask),
            single_bit(other),
    ;
}

/// The four flags after `with_zero_negative`.
pub proof fn lemma_zero_negative(status: u8, result: u8)
    ensures
        flag(with_zero_negative(status, result), ZERO_FLAG) == (result == 0),
        flag(with_zero_negative(status, result), NEGATIVE_FLAG) == (result >= 0x80),
        flag(with_zero_negative(status, result), CARRY_FLAG) == flag(status, CARRY_FLAG),
        flag(with_zero_negative(status, result), OVERFLOW_FLAG) == flag(status, OVERFLOW_FLAG),
{
    let z = with_flag(status, ZERO_FLAG, result == 0);
    lemma_with_flag(status, ZERO_FLAG, result == 0, NEGATIVE_FLAG);
    lemma_with_flag(status, ZERO_FLAG, result == 0, CARRY_FLAG);
    lemma_with_flag(status, ZERO_FLAG, result == 0, OVERFLOW_FLAG);
    lemma_with_flag(z, NEGATIVE_FLAG, result >= 0x80, ZERO_FLAG);
    lemma_with_flag(z, NEGATIVE_FLAG, result >= 0x80, CARRY_FLAG);
    lemma_with_flag(z, NEGATIVE_FLAG, result >= 0x80, OVERFLOW_FLAG);
}

/// The four flags after `with_carry_overflow`.
pub proof fn lemma_carry_overflow(status: u8, wrapped: bool, op: MathematicalOperation)
    ensures
        flag(with_carry_overflow(status, wrapped, op), OVERFLOW_FLAG) == wrapped,
        flag(with_carry_overflow(status, wrapped, op), CARRY_FLAG) == (wrapped == (op
            == MathematicalOperation::Add)),
        flag(with_carry_overflow(status, wrapped, op), ZERO_FLAG) == flag(status, ZERO_FLAG),
        flag(with_carry_overflow(status, wrapped, op), NEGATIVE_FLAG) == flag(
            status,
            NEGATIVE_FLAG,
        ),
{
    let v = with_flag(status, OVERFLOW_FLAG, wrapped);
    let c = wrapped == (op == MathematicalOperation::Add);
    lemma_with_flag(status, OVERFLOW_FLAG, wrapped, CARRY_FLAG);
    lemma_with_flag(status, OVERFLOW_FLAG, wrapped, ZERO_FLAG);
    lemma_with_flag(status, OVERFLOW_FLAG, wrapped, NEGATIVE_FLAG);
    lemma_with_flag(v, CARRY_FLAG, c, OVERFLOW_FLAG);
    lemma_with_flag(v, CARRY_FLAG, c, ZERO_FLAG);
    lemma_with_flag(v, CARRY_FLAG, c, NEGATIVE_FLAG);
}

} // verus!
