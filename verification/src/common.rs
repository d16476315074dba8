//! Byte and bit primitives shared by every component: splitting and merging
//! 16-bit words and reading or replacing a single bit of a byte.

use vstd::prelude::*;

verus! {

/// The 16-bit word whose high byte is `first` and whose low byte is `second`.
pub open spec fn spec_merge(first: u8, second: u8) -> u16 {
    (first * 256 + second) as u16
}

/// The high byte (`.0`) and low byte (`.1`) of a 16-bit word.
pub open spec fn spec_split(value: u16) -> (u8, u8) {
    ((value / 256) as u8, (value % 256) as u8)
}

/// Whether bit `offset` (0 = least significant) of `value` is set.
pub open spec fn spec_bit(value: u8, offset: u8) -> bool {
    (value >> offset) & 1 == 1
}

/// The byte equal to `value` with bit `offset` forced to `bit`.
pub open spec fn spec_set_bit(value: u8, offset: u8, bit: bool) -> u8 {
    if bit {
        value | (1u8 << offset)
    } else {
        value & !(1u8 << offset)
    }
}

/// Reading a bit back after forcing it gives the forced value, and the
/// other bits are untouched.
pub proof fn lemma_get_set_bit(value: u8, offset: u8, bit: bool)
    by (bit_vector)
    requires
        offset < 8,
    ensures
        spec_bit(spec_set_bit(value, offset, bit), offset) == bit,
        forall|other: u8|
            other < 8 && other != offset ==> spec_bit(spec_set_bit(value, offset, bit), other)
                == spec_bit(value, other),
{
}

/// Setting a clear bit and then clearing it again returns the byte to its
/// original value (a byte whose bit already stood would come back with it
/// cleared instead, so the round trip asks for a clear bit).
pub proof fn lemma_set_bit_round_trip(value: u8, offset: u8)
    by (bit_vector)
    requires
        offset < 8,
        !spec_bit(value, offset),
    ensures
        spec_set_bit(spec_set_bit(value, offset, true), offset, false) == value,
{
}

pub fn merge_two_u8s_into_u16(first: u8, second: u8) -> (result: u16)
    ensures
        result == spec_merge(first, second),
{
    first as u16 * 256 + second as u16
}

pub fn split_u16_into_two_u8s(value: u16) -> (result: (u8, u8))
    ensures
        result == spec_split(value),
{
    let first_u8 = (value / 256) as u8;
    let second_u8 = (value % 256) as u8;

    (first_u8, second_u8)
}

pub fn get_bit(value: u8, offset: u8) -> (result: bool)
    requires
        offset < 8,
    ensures
        result == spec_bit(value, offset),
{
    (value >> offset) & 1 == 1
}

pub fn set_bit(value: u8, offset: u8, bit: bool) -> (result: u8)
    requires
        offset < 8,
    ensures
        result == spec_set_bit(value, offset, bit),
{
    if bit {
        value | (1u8 << offset)
    } else {
        value & !(1u8 << offset)
    }
}

} // verus!
