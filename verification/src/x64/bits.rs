//! Reading and replacing bit fields of a 64-bit word.

use vstd::prelude::*;

verus! {

/// Whether bit `position` of `word` is set.
pub open spec fn flag(word: u64, position: u64) -> bool {
    (word >> position) & 1 == 1
}

/// The field of `word` that starts at bit `offset` and is as wide as `mask`, a run of ones.
pub open spec fn field(word: u64, offset: u64, mask: u64) -> u64 {
    (word >> offset) & mask
}

/// `word` with bit `position` replaced by `value`.
pub open spec fn with_flag(word: u64, position: u64, value: bool) -> u64 {
    if value {
        word | (1u64 << position)
    } else {
        word & !(1u64 << position)
    }
}

/// `word` with the field at `offset` replaced by `value`.
pub open spec fn with_field(word: u64, offset: u64, mask: u64, value: u64) -> u64 {
    (word & !(mask << offset)) | ((value & mask) << offset)
}

/// Reads one bit.
pub(crate) fn get_flag(word: u64, position: u64) -> (r: bool)
    requires
        position < 64,
    ensures
        r == flag(word, position),
{
    (word >> position) & 1 == 1
}

/// Reads a field.
pub(crate) fn get_field(word: u64, offset: u64, mask: u64) -> (r: u64)
    requires
        offset < 64,
    ensures
        r == field(word, offset, mask),
        r <= mask,
{
    assert((word >> offset) & mask <= mask) by (bit_vector);
    (word >> offset) & mask
}

/// Replaces one bit.
pub(crate) fn set_flag(word: u64, position: u64, value: bool) -> (r: u64)
    requires
        position < 64,
    ensures
        r == with_flag(word, position, value),
{
    if value {
        word | (1u64 << position)
    } else {
        word & !(1u64 << position)
    }
}

/// Replaces a field.
pub(crate) fn set_field(word: u64, offset: u64, mask: u64, value: u64) -> (r: u64)
    requires
        offset < 64,
    ensures
        r == with_field(word, offset, mask, value),
{
    (word & !(mask << offset)) | ((value & mask) << offset)
}

} // verus!
