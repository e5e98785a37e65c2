//! Single bits and bit fields of a 64-bit value.

use bit_field::BitField;
use vstd::arithmetic::power2::pow2;
use vstd::prelude::*;

verus! {

/// Whether bit `index` of `value` is one; bit 0 is the least significant.
pub open spec fn bit(value: u64, index: u64) -> bool {
    value & (1u64 << index) != 0
}

/// `value` with bit `index` set to `on`.
pub open spec fn with_bit(value: u64, index: u64, on: bool) -> u64 {
    if on {
        value | (1u64 << index)
    } else {
        value & !(1u64 << index)
    }
}

/// The bits `start..end` of `value`, moved down to bit 0.
pub open spec fn bits(value: u64, start: u64, end: u64) -> u64 {
    ((value << ((64 - end) as u64)) >> ((64 - end) as u64)) >> start
}

/// The mask that has ones in the bits `start..end` and zeros elsewhere.
pub open spec fn field_mask(start: u64, end: u64) -> u64 {
    (((!0u64 << ((64 - end) as u64)) >> ((64 - end) as u64)) >> start) << start
}

/// `value` with the bits `start..end` replaced by `field`.
pub open spec fn with_bits(value: u64, start: u64, end: u64, field: u64) -> u64 {
    (value & !field_mask(start, end)) | (field << start)
}

/// Calls `BitField::get_bit` on a `u64`. Trusted: the result says whether the bit at that index is
/// one. The call panics on an index past the last bit.
#[verifier::external_body]
pub(crate) fn get_bit(value: u64, index: usize) -> (on: bool)
    requires
        index < 64,
    ensures
        on == bit(value, index as u64),
{
    value.get_bit(index)
}

/// Calls `BitField::get_bits` on a `u64` with a half-open range. Trusted: the result holds the bits
/// of the range, moved down to bit 0. The call panics on a range that leaves the value.
#[verifier::external_body]
pub(crate) fn get_bits(value: u64, start: usize, end: usize) -> (field: u64)
    requires
        start < end <= 64,
    ensures
        field == bits(value, start as u64, end as u64),
{
    value.get_bits(start..end)
}

/// Calls `BitField::set_bit` on a `u64`. Trusted: the bit at that index becomes `on` and every
/// other bit stays. The call panics on an index past the last bit.
#[verifier::external_body]
pub(crate) fn set_bit(value: &mut u64, index: usize, on: bool)
    requires
        index < 64,
    ensures
        *final(value) == with_bit(*old(value), index as u64, on),
{
    value.set_bit(index, on);
}

/// Calls `BitField::set_bits` on a `u64` with a half-open range. Trusted: the bits of the range
/// become those of `field` and every other bit stays. The call panics on a range that leaves the
/// value, and on a field that does not fit into the range.
#[verifier::external_body]
pub(crate) fn set_bits(value: &mut u64, start: usize, end: usize, field: u64)
    requires
        start < end <= 64,
        (field as nat) < pow2((end - start) as nat),
    ensures
        *final(value) == with_bits(*old(value), start as u64, end as u64, field),
{
    value.set_bits(start..end, field);
}

/// Writing one bit and reading it back gives what was written, and no other bit is touched.
pub proof fn law_set_bit_reads_back(value: u64, index: u64, on: bool, other: u64)
    requires
        index < 64,
        other < 64,
    ensures
        bit(with_bit(value, index, on), index) == on,
        other != index ==> bit(with_bit(value, index, on), other) == bit(value, other),
{
    assert((value | (1u64 << index)) & (1u64 << index) != 0) by (bit_vector)
        requires
            index < 64,
    ;
    assert((value & !(1u64 << index)) & (1u64 << index) == 0) by (bit_vector);
    if other != index {
        assert((value | (1u64 << index)) & (1u64 << other) == value & (1u64 << other)) by (bit_vector)
            requires
                index < 64,
                other < 64,
                other != index,
        ;
        assert((value & !(1u64 << index)) & (1u64 << other) == value & (1u64 << other)) by (bit_vector)
            requires
                index < 64,
                other < 64,
                other != index,
        ;
    }
}

} // verus!
