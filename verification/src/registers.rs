//! The CPU registers: eight one-byte registers, SP and PC, with the grouped
//! views (BC, DE, HL, AF and the HL+/HL- forms) that the opcode families
//! decode into 2-bit and 3-bit codes.

use vstd::prelude::*;

use crate::bus::{spec_bus_read, spec_bus_write, Bus, BusView};
use crate::common::{merge_two_u8s_into_u16, spec_merge, spec_split, split_u16_into_two_u8s};
use crate::flags::{spec_flags_byte, spec_flags_from_byte, Flags};

verus! {

#[derive(PartialEq, Eq, Structural, Clone, Copy, Debug)]
pub struct Registers {
    pub a: u8,
    pub b: u8,
    pub c: u8,
    pub d: u8,
    pub e: u8,
    pub h: u8,
    pub l: u8,
    pub sp: u16,
    pub pc: u16,
}

/// The register values after boot-ROM handoff.
pub open spec fn spec_registers_new() -> Registers {
    Registers {
        a: 0x01,
        b: 0x00,
        c: 0x13,
        d: 0x00,
        e: 0xD8,
        h: 0x01,
        l: 0x4D,
        sp: 0xFFFE,
        pc: 0x0100,
    }
}

/// The register selected by a 3-bit code, with code 6 standing for the byte
/// at address HL.
pub open spec fn spec_get_register(regs: Registers, bus: BusView, code: u8) -> u8 {
    match code % 8 {
        0 => regs.b,
        1 => regs.c,
        2 => regs.d,
        3 => regs.e,
        4 => regs.h,
        5 => regs.l,
        6 => spec_bus_read(bus, spec_merge(regs.h, regs.l)),
        _ => regs.a,
    }
}

/// The registers after storing `value` into the register selected by a 3-bit
/// code; code 6 leaves them unchanged (the byte goes to memory instead).
pub open spec fn spec_set_register_regs(regs: Registers, code: u8, value: u8) -> Registers {
    match code % 8 {
        0 => Registers { b: value, ..regs },
        1 => Registers { c: value, ..regs },
        2 => Registers { d: value, ..regs },
        3 => Registers { e: value, ..regs },
        4 => Registers { h: value, ..regs },
        5 => Registers { l: value, ..regs },
        6 => regs,
        _ => Registers { a: value, ..regs },
    }
}

/// The bus after storing `value` into the register selected by a 3-bit code:
/// only code 6 writes it, at address HL.
pub open spec fn spec_set_register_bus(regs: Registers, bus: BusView, code: u8, value: u8) -> BusView {
    if code % 8 == 6 {
        spec_bus_write(bus, spec_merge(regs.h, regs.l), value)
    } else {
        bus
    }
}

/// The two-byte register selected by a 2-bit code: BC, DE, HL or SP.
pub open spec fn spec_get_register_couple(regs: Registers, code: u8) -> u16 {
    match code % 4 {
        0 => spec_merge(regs.b, regs.c),
        1 => spec_merge(regs.d, regs.e),
        2 => spec_merge(regs.h, regs.l),
        _ => regs.sp,
    }
}

/// The registers after storing a two-byte value into BC, DE, HL or SP.
pub open spec fn spec_set_register_couple(regs: Registers, code: u8, value: u16) -> Registers {
    match code % 4 {
        0 => Registers { b: spec_split(value).0, c: spec_split(value).1, ..regs },
        1 => Registers { d: spec_split(value).0, e: spec_split(value).1, ..regs },
        2 => Registers { h: spec_split(value).0, l: spec_split(value).1, ..regs },
        _ => Registers { sp: value, ..regs },
    }
}

/// The address produced by the `(BC)`, `(DE)`, `(HL+)`, `(HL-)` operand
/// forms: codes 2 and 3 both give HL.
pub open spec fn spec_get_register_couple_with_increments_value(regs: Registers, code: u8) -> u16 {
    match code % 4 {
        0 => spec_merge(regs.b, regs.c),
        1 => spec_merge(regs.d, regs.e),
        _ => spec_merge(regs.h, regs.l),
    }
}

/// The registers after the `(HL+)` / `(HL-)` side effect: code 2 increments
/// HL, code 3 decrements it, the others change nothing.
pub open spec fn spec_get_register_couple_with_increments_regs(regs: Registers, code: u8) -> Registers {
    let hl = spec_merge(regs.h, regs.l);
    match code % 4 {
        2 => {
            let new = vstd::wrapping::u16_specs::wrapping_add(hl, 1);
            Registers { h: spec_split(new).0, l: spec_split(new).1, ..regs }
        },
        3 => {
            let new = vstd::wrapping::u16_specs::wrapping_sub(hl, 1);
            Registers { h: spec_split(new).0, l: spec_split(new).1, ..regs }
        },
        _ => regs,
    }
}

/// The two-byte register selected by the `PUSH`/`POP` code: BC, DE, HL or AF.
pub open spec fn spec_get_register_couple_with_flags(regs: Registers, flags: Flags, code: u8) -> u16 {
    match code % 4 {
        0 => spec_merge(regs.b, regs.c),
        1 => spec_merge(regs.d, regs.e),
        2 => spec_merge(regs.h, regs.l),
        _ => spec_merge(regs.a, spec_flags_byte(flags)),
    }
}

/// The registers after a `POP` into BC, DE, HL or AF (AF takes only A here;
/// the flags take the low byte, see `spec_set_register_couple_with_flags_flags`).
pub open spec fn spec_set_register_couple_with_flags_regs(regs: Registers, code: u8, value: u16) -> Registers {
    match code % 4 {
        0 => Registers { b: spec_split(value).0, c: spec_split(value).1, ..regs },
        1 => Registers { d: spec_split(value).0, e: spec_split(value).1, ..regs },
        2 => Registers { h: spec_split(value).0, l: spec_split(value).1, ..regs },
        _ => Registers { a: spec_split(value).0, ..regs },
    }
}

/// The flags after a `POP` into BC, DE, HL or AF: only AF rewrites them,
/// from the low byte of the popped value.
pub open spec fn spec_set_register_couple_with_flags_flags(flags: Flags, code: u8, value: u16) -> Flags {
    if code % 4 == 3 {
        spec_flags_from_byte(spec_split(value).1)
    } else {
        flags
    }
}

impl Registers {
    pub fn new() -> (result: Self)
        ensures
            result == spec_registers_new(),
    {
        Self {
            a: 0x01,
            b: 0x00,
            c: 0x13,
            d: 0x00,
            e: 0xD8,
            h: 0x01,
            l: 0x4D,
            sp: 0xFFFE,
            pc: 0x0100,
        }
    }

    pub fn get_register(&self, code: u8, bus: &Bus) -> (result: u8)
        requires
            bus.wf(),
        ensures
            result == spec_get_register(*self, bus@, code),
    {
        match code % 8 {
            0 => self.b,
            1 => self.c,
            2 => self.d,
            3 => self.e,
            4 => self.h,
            5 => self.l,
            6 => bus.read(merge_two_u8s_into_u16(self.h, self.l)),
            _ => self.a,
        }
    }

    pub fn set_register(&mut self, code: u8, value: u8, bus: &mut Bus)
        requires
            old(bus).wf(),
        ensures
            final(bus).wf(),
            *final(self) == spec_set_register_regs(*old(self), code, value),
            final(bus)@ == spec_set_register_bus(*old(self), old(bus)@, code, value),
    {
        match code % 8 {
            0 => self.b = value,
            1 => self.c = value,
            2 => self.d = value,
            3 => self.e = value,
            4 => self.h = value,
            5 => self.l = value,
            6 => bus.write(merge_two_u8s_into_u16(self.h, self.l), value),
            _ => self.a = value,
        }
    }

    pub fn get_register_couple(&self, code: u8) -> (result: u16)
        ensures
            result == spec_get_register_couple(*self, code),
    {
        match code % 4 {
            0 => merge_two_u8s_into_u16(self.b, self.c),
            1 => merge_two_u8s_into_u16(self.d, self.e),
            2 => merge_two_u8s_into_u16(self.h, self.l),
            _ => self.sp,
        }
    }

    pub fn set_register_couple(&mut self, code: u8, value: u16)
        ensures
            *final(self) == spec_set_register_couple(*old(self), code, value),
    {
        match code % 4 {
            0 => {
                let (high, low) = split_u16_into_two_u8s(value);
                self.b = high;
                self.c = low;
            },
            1 => {
                let (high, low) = split_u16_into_two_u8s(value);
                self.d = high;
                self.e = low;
            },
            2 => {
                let (high, low) = split_u16_into_two_u8s(value);
                self.h = high;
                self.l = low;
            },
            _ => self.sp = value,
        }
    }

    /// Cases:
    /// - 0: Registers BC
    /// - 1: Registers DE
    /// - 2: Registers HL, and increment hl
    /// - 3: Registers HL, and decrement hl
    pub fn get_register_couple_with_increments(&mut self, code: u8) -> (result: u16)
        ensures
            result == spec_get_register_couple_with_increments_value(*old(self), code),
            *final(self) == spec_get_register_couple_with_increments_regs(*old(self), code),
    {
        match code % 4 {
            0 => merge_two_u8s_into_u16(self.b, self.c),
            1 => merge_two_u8s_into_u16(self.d, self.e),
            2 => {
                let hl = merge_two_u8s_into_u16(self.h, self.l);
                let (high, low) = split_u16_into_two_u8s(hl.wrapping_add(1));
                self.h = high;
                self.l = low;
                hl
            },
            _ => {
                let hl = merge_two_u8s_into_u16(self.h, self.l);
                let (high, low) = split_u16_into_two_u8s(hl.wrapping_sub(1));
                self.h = high;
                self.l = low;
                hl
            },
        }
    }

    pub fn get_register_couple_with_flags(&self, code: u8, flags: &Flags) -> (result: u16)
        ensures
            result == spec_get_register_couple_with_flags(*self, *flags, code),
    {
        match code % 4 {
            0 => merge_two_u8s_into_u16(self.b, self.c),
            1 => merge_two_u8s_into_u16(self.d, self.e),
            2 => merge_two_u8s_into_u16(self.h, self.l),
            _ => merge_two_u8s_into_u16(self.a, flags.get_byte()),
        }
    }

    pub fn set_register_couple_with_flags(&mut self, code: u8, value: u16, flags: &mut Flags)
        ensures
            *final(self) == spec_set_register_couple_with_flags_regs(*old(self), code, value),
            *final(flags) == spec_set_register_couple_with_flags_flags(*old(flags), code, value),
    {
        match code % 4 {
            0 => {
                let (high, low) = split_u16_into_two_u8s(value);
                self.b = high;
                self.c = low;
            },
            1 => {
                let (high, low) = split_u16_into_two_u8s(value);
                self.d = high;
                self.e = low;
            },
            2 => {
                let (high, low) = split_u16_into_two_u8s(value);
                self.h = high;
                self.l = low;
            },
            _ => {
                let (high, low) = split_u16_into_two_u8s(value);
                self.a = high;
                flags.set_from_byte(low);
            },
        }
    }

} // impl Registers

impl Default for Registers {
    fn default() -> (result: Self)
        ensures
            result == spec_registers_new(),
    {
        Self::new()
    }
}

} // verus!
