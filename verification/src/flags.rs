//! The four CPU flags (Z, N, H, C), their packed-byte form used by `PUSH AF`
//! and `POP AF`, and the flag-reporting add and subtract used by the ALU.
//!
//! Because the flags are stored as four booleans, the low nibble of the
//! materialised F byte is zero after every mutation, as the hardware keeps it.

use vstd::prelude::*;

use crate::common::{get_bit, spec_bit};

verus! {

#[derive(PartialEq, Eq, Structural, Clone, Copy, Debug)]
pub struct Flags {
    /// This is set when the result is zero
    pub zero: bool,
    /// This is set when the operation is a subtraction
    pub subtraction: bool,
    /// This is set if the lower 4 bits overflow
    pub half_carry: bool,
    /// This is set if a value overflows
    pub carry: bool,
}

/// The F byte after boot-ROM handoff: Z, H and C set, N clear (0xB0).
pub open spec fn spec_flags_new() -> Flags {
    Flags { zero: true, subtraction: false, half_carry: true, carry: true }
}

/// The branch condition encoded by the 2-bit field of `JR cc`, `JP cc`,
/// `CALL cc` and `RET cc`: 0 = NZ, 1 = Z, 2 = NC, 3 = C.
pub open spec fn spec_condition(flags: Flags, condition_num: u8) -> bool {
    match condition_num % 4 {
        0 => !flags.zero,
        1 => flags.zero,
        2 => !flags.carry,
        _ => flags.carry,
    }
}

/// The packed F byte: Z at bit 7, N at bit 6, H at bit 5, C at bit 4,
/// low nibble always zero.
pub open spec fn spec_flags_byte(flags: Flags) -> u8 {
    ((if flags.zero { 128int } else { 0 }) + (if flags.subtraction { 64int } else { 0 }) + (
    if flags.half_carry { 32int } else { 0 }) + (if flags.carry { 16int } else { 0 })) as u8
}

/// The flags encoded in bits 7-4 of a byte, as `POP AF` reads them.
pub open spec fn spec_flags_from_byte(byte: u8) -> Flags {
    Flags {
        zero: spec_bit(byte, 7),
        subtraction: spec_bit(byte, 6),
        half_carry: spec_bit(byte, 5),
        carry: spec_bit(byte, 4),
    }
}

/// The wrapped sum of two bytes together with the flags an 8-bit `ADD` sets:
/// Z iff the wrapped result is zero, N clear, H iff the low nibbles overflow
/// (`(a & 0xF) + (b & 0xF) > 0xF`), C iff the full sum overflows
/// (`a + b > 0xFF`).
pub open spec fn spec_flag_add(a: u8, b: u8) -> (u8, Flags) {
    let result = vstd::wrapping::u8_specs::wrapping_add(a, b);
    (
        result,
        Flags {
            zero: result == 0,
            subtraction: false,
            half_carry: (a & 0xF) + (b & 0xF) > 0xF,
            carry: a + b > 0xFF,
        },
    )
}

/// The wrapped difference of two bytes together with the flags an 8-bit `SUB`
/// sets: Z iff the wrapped result is zero, N set, H iff the low nibble
/// borrows (`(a & 0xF) < (b & 0xF)`), C iff the subtraction borrows
/// (`a < b`).
pub open spec fn spec_flag_sub(a: u8, b: u8) -> (u8, Flags) {
    let result = vstd::wrapping::u8_specs::wrapping_sub(a, b);
    (
        result,
        Flags {
            zero: result == 0,
            subtraction: true,
            half_carry: (a & 0xF) < (b & 0xF),
            carry: a < b,
        },
    )
}

impl Flags {
    pub fn new() -> (result: Self)
        ensures
            result == spec_flags_new(),
    {
        Self { zero: true, subtraction: false, half_carry: true, carry: true }
    }

    pub fn is_condition_valid(&self, condition_num: u8) -> (result: bool)
        ensures
            result == spec_condition(*self, condition_num),
    {
        match condition_num % 4 {
            0 => !self.zero,
            1 => self.zero,
            2 => !self.carry,
            _ => self.carry,
        }
    }

    pub fn get_byte(&self) -> (result: u8)
        ensures
            result == spec_flags_byte(*self),
    {
        let mut byte: u8 = 0;

        byte += if self.zero { 128 } else { 0 };
        byte += if self.subtraction { 64 } else { 0 };
        byte += if self.half_carry { 32 } else { 0 };
        byte += if self.carry { 16 } else { 0 };

        byte
    }

    pub fn set_from_byte(&mut self, byte: u8)
        ensures
            *final(self) == spec_flags_from_byte(byte),
    {
        self.zero = get_bit(byte, 7);
        self.subtraction = get_bit(byte, 6);
        self.half_carry = get_bit(byte, 5);
        self.carry = get_bit(byte, 4);
    }
}

/// For every pair of bytes, the 8-bit `ADD` raises H exactly on a
/// low-nibble overflow (`(a & 0xF) + (b & 0xF) > 0xF`) and C exactly on a
/// full overflow (`a + b > 0xFF`), and the 8-bit `SUB` raises C exactly on
/// a borrow (`a < b`).
pub proof fn lemma_arithmetic_flag_invariants(a: u8, b: u8)
    ensures
        spec_flag_add(a, b).1.half_carry == ((a & 0xF) + (b & 0xF) > 0xF),
        spec_flag_add(a, b).1.carry == (a + b > 0xFF),
        spec_flag_add(a, b).1.subtraction == false,
        spec_flag_sub(a, b).1.half_carry == ((a & 0xF) < (b & 0xF)),
        spec_flag_sub(a, b).1.carry == (a < b),
        spec_flag_sub(a, b).1.subtraction == true,
{
}

/// Operations that work like the wrapping ones but also give you the flags.
pub fn flag_add(a: u8, b: u8) -> (result: (u8, Flags))
    ensures
        result == spec_flag_add(a, b),
{
    let result = a.wrapping_add(b);

    (
        result,
        Flags {
            zero: result == 0,
            subtraction: false,
            half_carry: (a & 0x0F) as u16 + (b & 0x0F) as u16 > 0x0F,
            carry: a as u16 + b as u16 > 0xFF,
        },
    )
}

/// Operations that work like the wrapping ones but also give you the flags.
pub fn flag_sub(a: u8, b: u8) -> (result: (u8, Flags))
    ensures
        result == spec_flag_sub(a, b),
{
    let result = a.wrapping_sub(b);

    (
        result,
        Flags {
            zero: result == 0,
            subtraction: true,
            half_carry: (a & 0x0F) < (b & 0x0F),
            carry: a < b,
        },
    )
}

} // verus!
