//! The base opcode table: a 256-entry decoder driven by range-and-pattern
//! matching over the opcode bits, together with the specification-level
//! interpreter (`spec_interpret_opcode`) that pins down, opcode by opcode,
//! the registers, flags, memory and cycle counts of every instruction.

use vstd::prelude::*;

use crate::bus::{spec_bus_read, spec_bus_write, spec_next, spec_next_two, Bus, BusView};
use crate::common::{merge_two_u8s_into_u16, spec_merge, spec_split, split_u16_into_two_u8s};
use crate::consts::IF;
use crate::cpu::opcodes_cb::spec_interpret_cb_opcode;
use crate::cpu::{Bytes, Cpu, Cycles};
use crate::flags::{flag_add, flag_sub, spec_condition, spec_flag_add, spec_flag_sub, Flags};
use crate::registers::{
    spec_get_register, spec_get_register_couple, spec_get_register_couple_with_flags,
    spec_get_register_couple_with_increments_regs, spec_get_register_couple_with_increments_value,
    spec_set_register_bus, spec_set_register_couple, spec_set_register_couple_with_flags_flags,
    spec_set_register_couple_with_flags_regs, spec_set_register_regs, Registers,
};

verus! {

pub const CALL: u8 = 0xCD;
pub const JUMP: u8 = 0xC3;
pub const RELATIVE_JUMP: u8 = 0x18;
pub const RET: u8 = 0xC9;

/// Everything one instruction can touch, together with its size and cycle
/// count.
#[verifier::ext_equal]
pub ghost struct CpuOut {
    pub cpu: Cpu,
    pub flags: Flags,
    pub regs: Registers,
    pub bus: BusView,
    pub bytes: Bytes,
    pub cycles: Cycles,
}

/// The opcodes the decoder traps on: the holes of the SM83 table, plus
/// `STOP`, whose mode is out of scope.
pub open spec fn spec_is_implemented(opcode: u8) -> bool {
    !(opcode == 0x10 || opcode == 0xD3 || opcode == 0xDB || opcode == 0xDD || opcode == 0xE3
        || opcode == 0xE4 || opcode == 0xEB || opcode == 0xEC || opcode == 0xED || opcode == 0xF4
        || opcode == 0xFC || opcode == 0xFD)
}

pub fn is_opcode_implemented(opcode: u8) -> (result: bool)
    ensures
        result == spec_is_implemented(opcode),
{
    match opcode {
        0x10 | 0xD3 | 0xDB | 0xDD | 0xE3 | 0xE4 | 0xEB | 0xEC | 0xED | 0xF4 | 0xFC | 0xFD => false,
        _ => true,
    }
}

/// The conditional branches and `RETI` re-enter the interpreter on the
/// unconditional opcode they wrap; this rank orders that recursion.
pub open spec fn spec_opcode_rank(opcode: u8) -> nat {
    if opcode == 0x20 || opcode == 0x28 || opcode == 0x30 || opcode == 0x38 || opcode == 0xC0
        || opcode == 0xC8 || opcode == 0xD0 || opcode == 0xD8 || opcode == 0xC2 || opcode == 0xCA
        || opcode == 0xD2 || opcode == 0xDA || opcode == 0xC4 || opcode == 0xCC || opcode == 0xD4
        || opcode == 0xDC || opcode == 0xD9 {
        1
    } else {
        0
    }
}

/// A 16-bit base plus an offset byte read as a two's-complement number.
pub open spec fn spec_add_i8_to_u16(value: u16, offset: u8) -> u16 {
    if offset < 0x80 {
        vstd::wrapping::u16_specs::wrapping_add(value, offset as u16)
    } else {
        vstd::wrapping::u16_specs::wrapping_sub(value, (0x100 - offset) as u16)
    }
}

pub fn add_i8_to_u16(value: u16, offset: u8) -> (result: u16)
    ensures
        result == spec_add_i8_to_u16(value, offset),
{
    if offset < 0x80 {
        value.wrapping_add(offset as u16)
    } else {
        value.wrapping_sub(0x100 - offset as u16)
    }
}

/// The result and flags of the eight-entry ALU family `10ooorrr` /
/// `11ooo110`: ADD, ADC, SUB, SBC, AND, XOR, OR by operation code 0-6.
/// Operation 7 is `CP`, which the decoder handles apart because it drops
/// the result; this table treats it as SBC, and no caller passes it.
pub open spec fn spec_do_operation(operation_num: u8, num1: u8, num2: u8, flags: Flags) -> (
    u8,
    Flags,
) {
    match operation_num % 8 {
        0 => spec_flag_add(num1, num2),
        2 => spec_flag_sub(num1, num2),
        4 => (
            num1 & num2,
            Flags { zero: num1 & num2 == 0, subtraction: false, half_carry: true, carry: false },
        ),
        5 => (
            num1 ^ num2,
            Flags { zero: num1 ^ num2 == 0, subtraction: false, half_carry: false, carry: false },
        ),
        6 => (
            num1 | num2,
            Flags { zero: num1 | num2 == 0, subtraction: false, half_carry: false, carry: false },
        ),
        1 => {
            // ADD with carry: the carry joins both the low-nibble and the full sum
            let c = if flags.carry { 1int } else { 0int };
            let result = ((num1 + num2 + c) % 0x100) as u8;
            (
                result,
                Flags {
                    zero: result == 0,
                    subtraction: false,
                    half_carry: (num1 & 0x0F) + (num2 & 0x0F) + c > 0x0F,
                    carry: num1 + num2 + c > 0xFF,
                },
            )
        },
        _ => {
            // SUB with carry (borrow)
            let c = if flags.carry { 1int } else { 0int };
            let result = if num1 >= num2 + c {
                (num1 - num2 - c) as u8
            } else {
                (num1 - num2 - c + 0x100) as u8
            };
            (
                result,
                Flags {
                    zero: result == 0,
                    subtraction: true,
                    half_carry: (num2 & 0x0F) + c > (num1 & 0x0F),
                    carry: num2 + c > num1,
                },
            )
        },
    }
}

pub fn do_operation(operation_num: u8, num1: u8, num2: u8, flags: &Flags) -> (result: (u8, Flags))
    ensures
        result == spec_do_operation(operation_num, num1, num2, *flags),
{
    match operation_num % 8 {
        // Num1 + Num2
        0 => flag_add(num1, num2),

        // Num1 - Num2
        2 => flag_sub(num1, num2),

        // Num1 & Num2
        4 => (
            num1 & num2,
            Flags { zero: num1 & num2 == 0, subtraction: false, half_carry: true, carry: false },
        ),

        // Num1 ^ Num2
        5 => (
            num1 ^ num2,
            Flags { zero: num1 ^ num2 == 0, subtraction: false, half_carry: false, carry: false },
        ),

        // Num1 | Num2
        6 => (
            num1 | num2,
            Flags { zero: num1 | num2 == 0, subtraction: false, half_carry: false, carry: false },
        ),

        // Num1 + Num2 + Carry; the carry is counted both in the low nibble
        // and in the full sum when computing H and C
        1 => {
            let c: u8 = if flags.carry { 1 } else { 0 };
            let sum: u16 = num1 as u16 + num2 as u16 + c as u16;
            let result = (sum % 0x100) as u8;

            (
                result,
                Flags {
                    zero: result == 0,
                    subtraction: false,
                    half_carry: (num1 & 0x0F) as u16 + (num2 & 0x0F) as u16 + c as u16 > 0x0F,
                    carry: sum > 0xFF,
                },
            )
        },

        // Num1 - Num2 - Carry
        _ => {
            let c: u8 = if flags.carry { 1 } else { 0 };
            let total: u16 = num2 as u16 + c as u16;
            let result = if num1 as u16 >= total {
                (num1 as u16 - total) as u8
            } else {
                (num1 as u16 + 0x100 - total) as u8
            };

            (
                result,
                Flags {
                    zero: result == 0,
                    subtraction: true,
                    half_carry: (num2 & 0x0F) as u16 + c as u16 > (num1 & 0x0F) as u16,
                    carry: total > num1 as u16,
                },
            )
        },
    }
}

/// The `DAA` adjustment: from A and the flags the preceding binary
/// addition or subtraction left, the adjusted (packed-BCD) A and the new
/// flags: Z from the result, N kept, H cleared, C set exactly when the
/// high digit overflowed.
pub open spec fn spec_daa(a: u8, flags: Flags) -> (u8, Flags) {
    let low_adjust: u8 = if (!flags.subtraction && a & 0x0F > 0x09) || flags.half_carry {
        0x06
    } else {
        0
    };
    let should_carry = (!flags.subtraction && a > 0x99) || flags.carry;
    let adjust: u8 = if should_carry {
        low_adjust | 0x60
    } else {
        low_adjust
    };
    let result = if flags.subtraction {
        vstd::wrapping::u8_specs::wrapping_sub(a, adjust)
    } else {
        vstd::wrapping::u8_specs::wrapping_add(a, adjust)
    };
    (
        result,
        Flags {
            zero: result == 0,
            subtraction: flags.subtraction,
            half_carry: false,
            carry: should_carry,
        },
    )
}

/// Whether a byte holds two packed BCD digits.
pub open spec fn spec_is_bcd(value: u8) -> bool {
    value & 0x0F <= 0x09 && (value >> 4) <= 0x09
}

/// After a binary addition of two valid packed-BCD bytes, `DAA` always
/// leaves a valid packed-BCD byte in A.
pub proof fn lemma_daa_after_bcd_addition(a: u8, b: u8)
    by (bit_vector)
    requires
        spec_is_bcd(a),
        spec_is_bcd(b),
    ensures
        spec_is_bcd(spec_daa(spec_flag_add(a, b).0, spec_flag_add(a, b).1).0),
{
}

/// What one instruction of the base table does to the whole machine.
///
/// A halted CPU decodes nothing: it burns one machine cycle per step and
/// wakes only when some interrupt is pending in `IE & IF`.
pub open spec fn spec_interpret_opcode(
    cpu: Cpu,
    flags: Flags,
    regs: Registers,
    b: BusView,
    opcode: u8,
) -> CpuOut
    decreases spec_opcode_rank(opcode), 1int,
{
    if cpu.halt {
        let pending = b.ie & spec_bus_read(b, IF) & 0x1F != 0;
        CpuOut {
            cpu: Cpu { halt: !pending, ..cpu },
            flags,
            regs,
            bus: b,
            bytes: 0,
            cycles: 1,
        }
    } else if opcode < 0x40 {
        spec_interpret_opcode_00_3f(cpu, flags, regs, b, opcode)
    } else if opcode < 0xC0 {
        spec_interpret_opcode_40_bf(cpu, flags, regs, b, opcode)
    } else if opcode < 0xE0 {
        spec_interpret_opcode_c0_df(cpu, flags, regs, b, opcode)
    } else {
        spec_interpret_opcode_e0_ff(cpu, flags, regs, b, opcode)
    }
}

/// One quadrant of the base table (kept opaque so that each part of the
/// decoder is checked against its own quarter of the specification).
#[verifier::opaque]
pub open spec fn spec_interpret_opcode_00_3f(
    cpu: Cpu,
    flags: Flags,
    regs: Registers,
    b: BusView,
    opcode: u8,
) -> CpuOut
    decreases spec_opcode_rank(opcode), 0int,
{
    if opcode == 0x00 {
        // NOP
        CpuOut { cpu, flags, regs, bus: b, bytes: 1, cycles: 1 }
    } else if opcode == 0x01 || opcode == 0x11 || opcode == 0x21 || opcode == 0x31 {
        // LD rr, imm16
        CpuOut {
            cpu,
            flags,
            regs: spec_set_register_couple(regs, opcode >> 4, spec_next_two(b, regs)),
            bus: b,
            bytes: 3,
            cycles: 3,
        }
    } else if opcode == 0x02 || opcode == 0x12 || opcode == 0x22 || opcode == 0x32 {
        // LD (rr+/-), A
        let address = spec_get_register_couple_with_increments_value(regs, opcode >> 4);
        CpuOut {
            cpu,
            flags,
            regs: spec_get_register_couple_with_increments_regs(regs, opcode >> 4),
            bus: spec_bus_write(b, address, regs.a),
            bytes: 1,
            cycles: 2,
        }
    } else if opcode == 0x03 || opcode == 0x13 || opcode == 0x23 || opcode == 0x33 {
        // INC rr
        let new_value = vstd::wrapping::u16_specs::wrapping_add(
            spec_get_register_couple(regs, opcode >> 4),
            1,
        );
        CpuOut {
            cpu,
            flags,
            regs: spec_set_register_couple(regs, opcode >> 4, new_value),
            bus: b,
            bytes: 1,
            cycles: 2,
        }
    } else if opcode == 0x04 || opcode == 0x0C || opcode == 0x14 || opcode == 0x1C || opcode
        == 0x24 || opcode == 0x2C || opcode == 0x34 || opcode == 0x3C {
        // INC r: carry is left alone
        let add = spec_flag_add(spec_get_register(regs, b, opcode >> 3), 1);
        CpuOut {
            cpu,
            flags: Flags {
                zero: add.1.zero,
                subtraction: add.1.subtraction,
                half_carry: add.1.half_carry,
                carry: flags.carry,
            },
            regs: spec_set_register_regs(regs, opcode >> 3, add.0),
            bus: spec_set_register_bus(regs, b, opcode >> 3, add.0),
            bytes: 1,
            cycles: 1,
        }
    } else if opcode == 0x05 || opcode == 0x0D || opcode == 0x15 || opcode == 0x1D || opcode
        == 0x25 || opcode == 0x2D || opcode == 0x35 || opcode == 0x3D {
        // DEC r: carry is left alone
        let sub = spec_flag_sub(spec_get_register(regs, b, opcode >> 3), 1);
        CpuOut {
            cpu,
            flags: Flags {
                zero: sub.1.zero,
                subtraction: sub.1.subtraction,
                half_carry: sub.1.half_carry,
                carry: flags.carry,
            },
            regs: spec_set_register_regs(regs, opcode >> 3, sub.0),
            bus: spec_set_register_bus(regs, b, opcode >> 3, sub.0),
            bytes: 1,
            cycles: 1,
        }
    } else if opcode == 0x0B || opcode == 0x1B || opcode == 0x2B || opcode == 0x3B {
        // DEC rr
        let new_value = vstd::wrapping::u16_specs::wrapping_sub(
            spec_get_register_couple(regs, opcode >> 4),
            1,
        );
        CpuOut {
            cpu,
            flags,
            regs: spec_set_register_couple(regs, opcode >> 4, new_value),
            bus: b,
            bytes: 1,
            cycles: 2,
        }
    } else if opcode == 0x06 || opcode == 0x0E || opcode == 0x16 || opcode == 0x1E || opcode
        == 0x26 || opcode == 0x2E || opcode == 0x36 || opcode == 0x3E {
        // LD r, imm8
        let value = spec_next(b, regs, 1);
        CpuOut {
            cpu,
            flags,
            regs: spec_set_register_regs(regs, opcode >> 3, value),
            bus: spec_set_register_bus(regs, b, opcode >> 3, value),
            bytes: 2,
            cycles: 2,
        }
    } else if opcode == 0x07 || opcode == 0x0F || opcode == 0x17 || opcode == 0x1F {
        // RLCA / RRCA / RLA / RRA: the CB rotate on A, with Z, N and H cleared
        let r = spec_interpret_cb_opcode(flags, regs, b, opcode);
        CpuOut {
            cpu,
            flags: Flags {
                zero: false,
                subtraction: false,
                half_carry: false,
                carry: r.flags.carry,
            },
            regs: r.regs,
            bus: r.bus,
            bytes: 1,
            cycles: 1,
        }
    } else if opcode == 0x08 {
        // LD (imm16), SP
        let sp_parts = spec_split(regs.sp);
        let address = spec_next_two(b, regs);
        let b1 = spec_bus_write(b, address, sp_parts.1);
        let b2 = spec_bus_write(
            b1,
            vstd::wrapping::u16_specs::wrapping_add(address, 1),
            sp_parts.0,
        );
        CpuOut { cpu, flags, regs, bus: b2, bytes: 3, cycles: 5 }
    } else if opcode == 0x09 || opcode == 0x19 || opcode == 0x29 || opcode == 0x39 {
        // ADD HL, rr: Z is left alone
        let register_hl = spec_merge(regs.h, regs.l);
        let register_r = spec_get_register_couple(regs, opcode >> 4);
        let result = vstd::wrapping::u16_specs::wrapping_add(register_hl, register_r);
        CpuOut {
            cpu,
            flags: Flags {
                zero: flags.zero,
                subtraction: false,
                half_carry: (register_hl & 0x0FFF) + (register_r & 0x0FFF) > 0x0FFF,
                carry: register_hl + register_r > 0xFFFF,
            },
            regs: Registers { h: spec_split(result).0, l: spec_split(result).1, ..regs },
            bus: b,
            bytes: 1,
            cycles: 2,
        }
    } else if opcode == 0x0A || opcode == 0x1A || opcode == 0x2A || opcode == 0x3A {
        // LD A, (rr+/-)
        let address = spec_get_register_couple_with_increments_value(regs, opcode >> 4);
        let regs1 = spec_get_register_couple_with_increments_regs(regs, opcode >> 4);
        CpuOut {
            cpu,
            flags,
            regs: Registers { a: spec_bus_read(b, address), ..regs1 },
            bus: b,
            bytes: 1,
            cycles: 2,
        }
    } else if opcode == 0x18 {
        // JR imm8: a signed jump relative to the next instruction
        CpuOut {
            cpu,
            flags,
            regs: Registers {
                pc: spec_add_i8_to_u16(regs.pc, spec_next(b, regs, 1)),
                ..regs
            },
            bus: b,
            bytes: 2,
            cycles: 2,
        }
    } else if opcode == 0x20 || opcode == 0x28 || opcode == 0x30 || opcode == 0x38 {
        // JR cc, imm8
        if spec_condition(flags, opcode >> 3) {
            let r = spec_interpret_opcode(cpu, flags, regs, b, RELATIVE_JUMP);
            CpuOut { bytes: 2, cycles: 3, ..r }
        } else {
            CpuOut { cpu, flags, regs, bus: b, bytes: 2, cycles: 2 }
        }
    } else if opcode == 0x27 {
        // DAA: adjust A to packed BCD after an addition or subtraction
        let daa = spec_daa(regs.a, flags);
        CpuOut {
            cpu,
            flags: daa.1,
            regs: Registers { a: daa.0, ..regs },
            bus: b,
            bytes: 1,
            cycles: 1,
        }
    } else if opcode == 0x2F {
        // CPL: flip the bits of A
        CpuOut {
            cpu,
            flags: Flags { subtraction: true, half_carry: true, ..flags },
            regs: Registers { a: !regs.a, ..regs },
            bus: b,
            bytes: 1,
            cycles: 1,
        }
    } else if opcode == 0x37 {
        // SCF
        CpuOut {
            cpu,
            flags: Flags { subtraction: false, half_carry: false, carry: true, ..flags },
            regs,
            bus: b,
            bytes: 1,
            cycles: 1,
        }
    } else if opcode == 0x3F {
        // CCF
        CpuOut {
            cpu,
            flags: Flags { subtraction: false, half_carry: false, carry: !flags.carry, ..flags },
            regs,
            bus: b,
            bytes: 1,
            cycles: 1,
        }
    } else {
        // The holes of the table; the decoder refuses these up front
        CpuOut { cpu, flags, regs, bus: b, bytes: 0, cycles: 0 }
    }
}

/// One quadrant of the base table (kept opaque so that each part of the
/// decoder is checked against its own quarter of the specification).
#[verifier::opaque]
pub open spec fn spec_interpret_opcode_40_bf(
    cpu: Cpu,
    flags: Flags,
    regs: Registers,
    b: BusView,
    opcode: u8,
) -> CpuOut
    decreases spec_opcode_rank(opcode), 0int,
{
    if opcode == 0x76 {
        // HALT
        CpuOut { cpu: Cpu { halt: true, ..cpu }, flags, regs, bus: b, bytes: 1, cycles: 1 }
    } else if 0x40 <= opcode && opcode <= 0x7F {
        // LD r, r'
        let value = spec_get_register(regs, b, opcode);
        CpuOut {
            cpu,
            flags,
            regs: spec_set_register_regs(regs, opcode >> 3, value),
            bus: spec_set_register_bus(regs, b, opcode >> 3, value),
            bytes: 1,
            cycles: 1,
        }
    } else if 0x80 <= opcode && opcode <= 0xB7 {
        // ALU operation on A and r
        let op = spec_do_operation(opcode >> 3, regs.a, spec_get_register(regs, b, opcode), flags);
        CpuOut {
            cpu,
            flags: op.1,
            regs: Registers { a: op.0, ..regs },
            bus: b,
            bytes: 1,
            cycles: 1,
        }
    } else if 0xB8 <= opcode && opcode <= 0xBF {
        // CP r: compare by subtracting, dropping the result
        let sub = spec_flag_sub(regs.a, spec_get_register(regs, b, opcode));
        CpuOut { cpu, flags: sub.1, regs, bus: b, bytes: 1, cycles: 1 }
    } else {
        // The holes of the table; the decoder refuses these up front
        CpuOut { cpu, flags, regs, bus: b, bytes: 0, cycles: 0 }
    }
}

/// One quadrant of the base table (kept opaque so that each part of the
/// decoder is checked against its own quarter of the specification).
#[verifier::opaque]
pub open spec fn spec_interpret_opcode_c0_df(
    cpu: Cpu,
    flags: Flags,
    regs: Registers,
    b: BusView,
    opcode: u8,
) -> CpuOut
    decreases spec_opcode_rank(opcode), 0int,
{
    if opcode == 0xC0 || opcode == 0xC8 || opcode == 0xD0 || opcode == 0xD8 {
        // RET cc
        if spec_condition(flags, opcode >> 3) {
            let r = spec_interpret_opcode(cpu, flags, regs, b, RET);
            CpuOut { bytes: 0, cycles: 5, ..r }
        } else {
            CpuOut { cpu, flags, regs, bus: b, bytes: 1, cycles: 2 }
        }
    } else if opcode == 0xC1 || opcode == 0xD1 || opcode == 0xE1 || opcode == 0xF1 {
        // POP rr (AF in place of SP)
        let low = spec_bus_read(b, regs.sp);
        let sp1 = vstd::wrapping::u16_specs::wrapping_add(regs.sp, 1);
        let high = spec_bus_read(b, sp1);
        let sp2 = vstd::wrapping::u16_specs::wrapping_add(sp1, 1);
        let popped = spec_merge(high, low);
        let regs1 = Registers { sp: sp2, ..regs };
        CpuOut {
            cpu,
            flags: spec_set_register_couple_with_flags_flags(flags, opcode >> 4, popped),
            regs: spec_set_register_couple_with_flags_regs(regs1, opcode >> 4, popped),
            bus: b,
            bytes: 1,
            cycles: 3,
        }
    } else if opcode == 0xC2 || opcode == 0xCA || opcode == 0xD2 || opcode == 0xDA {
        // JP cc, imm16
        if spec_condition(flags, opcode >> 3) {
            let r = spec_interpret_opcode(cpu, flags, regs, b, JUMP);
            CpuOut { bytes: 0, cycles: 4, ..r }
        } else {
            CpuOut { cpu, flags, regs, bus: b, bytes: 3, cycles: 3 }
        }
    } else if opcode == 0xC3 {
        // JP imm16
        CpuOut {
            cpu,
            flags,
            regs: Registers { pc: spec_next_two(b, regs), ..regs },
            bus: b,
            bytes: 0,
            cycles: 4,
        }
    } else if opcode == 0xC4 || opcode == 0xCC || opcode == 0xD4 || opcode == 0xDC {
        // CALL cc, imm16
        if spec_condition(flags, opcode >> 3) {
            let r = spec_interpret_opcode(cpu, flags, regs, b, CALL);
            CpuOut { bytes: 0, cycles: 6, ..r }
        } else {
            CpuOut { cpu, flags, regs, bus: b, bytes: 3, cycles: 3 }
        }
    } else if opcode == 0xC5 || opcode == 0xD5 || opcode == 0xE5 || opcode == 0xF5 {
        // PUSH rr (AF in place of SP)
        let value = spec_get_register_couple_with_flags(regs, flags, opcode >> 4);
        let sp1 = vstd::wrapping::u16_specs::wrapping_sub(regs.sp, 1);
        let b1 = spec_bus_write(b, sp1, spec_split(value).0);
        let sp2 = vstd::wrapping::u16_specs::wrapping_sub(sp1, 1);
        let b2 = spec_bus_write(b1, sp2, spec_split(value).1);
        CpuOut {
            cpu,
            flags,
            regs: Registers { sp: sp2, ..regs },
            bus: b2,
            bytes: 1,
            cycles: 4,
        }
    } else if opcode == 0xC6 || opcode == 0xCE || opcode == 0xD6 || opcode == 0xDE || opcode
        == 0xE6 || opcode == 0xEE || opcode == 0xF6 {
        // ALU operation on A and imm8
        let op = spec_do_operation(opcode >> 3, regs.a, spec_next(b, regs, 1), flags);
        CpuOut {
            cpu,
            flags: op.1,
            regs: Registers { a: op.0, ..regs },
            bus: b,
            bytes: 2,
            cycles: 2,
        }
    } else if opcode == 0xC9 {
        // RET
        let c = spec_bus_read(b, regs.sp);
        let sp1 = vstd::wrapping::u16_specs::wrapping_add(regs.sp, 1);
        let p = spec_bus_read(b, sp1);
        let sp2 = vstd::wrapping::u16_specs::wrapping_add(sp1, 1);
        CpuOut {
            cpu,
            flags,
            regs: Registers { sp: sp2, pc: spec_merge(p, c), ..regs },
            bus: b,
            bytes: 0,
            cycles: 4,
        }
    } else if opcode == 0xCB {
        // The CB prefix: one more byte selects from the second table
        let r = spec_interpret_cb_opcode(flags, regs, b, spec_next(b, regs, 1));
        CpuOut {
            cpu,
            flags: r.flags,
            regs: r.regs,
            bus: r.bus,
            bytes: (r.bytes + 1) as u8,
            cycles: (r.cycles + 1) as u8,
        }
    } else if opcode == 0xCD {
        // CALL imm16: push the address of the next instruction, then jump
        let ret = spec_split(vstd::wrapping::u16_specs::wrapping_add(regs.pc, 3));
        let immediate_data = spec_next_two(b, regs);
        let sp1 = vstd::wrapping::u16_specs::wrapping_sub(regs.sp, 1);
        let b1 = spec_bus_write(b, sp1, ret.0);
        let sp2 = vstd::wrapping::u16_specs::wrapping_sub(sp1, 1);
        let b2 = spec_bus_write(b1, sp2, ret.1);
        CpuOut {
            cpu,
            flags,
            regs: Registers { sp: sp2, pc: immediate_data, ..regs },
            bus: b2,
            bytes: 0,
            cycles: 6,
        }
    } else if opcode == 0xC7 || opcode == 0xCF || opcode == 0xD7 || opcode == 0xDF || opcode
        == 0xE7 || opcode == 0xEF || opcode == 0xF7 || opcode == 0xFF {
        // RST n: push the next address and jump to vector n * 8
        let ret = spec_split(vstd::wrapping::u16_specs::wrapping_add(regs.pc, 1));
        let sp1 = vstd::wrapping::u16_specs::wrapping_sub(regs.sp, 1);
        let b1 = spec_bus_write(b, sp1, ret.0);
        let sp2 = vstd::wrapping::u16_specs::wrapping_sub(sp1, 1);
        let b2 = spec_bus_write(b1, sp2, ret.1);
        let n = (opcode >> 3) % 8;
        CpuOut {
            cpu,
            flags,
            regs: Registers { sp: sp2, pc: (n * 8) as u16, ..regs },
            bus: b2,
            bytes: 0,
            cycles: 4,
        }
    } else if opcode == 0xD9 {
        // RETI: RET, then enable interrupts
        let r = spec_interpret_opcode(cpu, flags, regs, b, RET);
        CpuOut { cpu: Cpu { ime: true, ..r.cpu }, bytes: 0, cycles: 4, ..r }
    } else {
        // The holes of the table; the decoder refuses these up front
        CpuOut { cpu, flags, regs, bus: b, bytes: 0, cycles: 0 }
    }
}

/// One quadrant of the base table (kept opaque so that each part of the
/// decoder is checked against its own quarter of the specification).
#[verifier::opaque]
pub open spec fn spec_interpret_opcode_e0_ff(
    cpu: Cpu,
    flags: Flags,
    regs: Registers,
    b: BusView,
    opcode: u8,
) -> CpuOut
    decreases spec_opcode_rank(opcode), 0int,
{
    if opcode == 0xC1 || opcode == 0xD1 || opcode == 0xE1 || opcode == 0xF1 {
        // POP rr (AF in place of SP)
        let low = spec_bus_read(b, regs.sp);
        let sp1 = vstd::wrapping::u16_specs::wrapping_add(regs.sp, 1);
        let high = spec_bus_read(b, sp1);
        let sp2 = vstd::wrapping::u16_specs::wrapping_add(sp1, 1);
        let popped = spec_merge(high, low);
        let regs1 = Registers { sp: sp2, ..regs };
        CpuOut {
            cpu,
            flags: spec_set_register_couple_with_flags_flags(flags, opcode >> 4, popped),
            regs: spec_set_register_couple_with_flags_regs(regs1, opcode >> 4, popped),
            bus: b,
            bytes: 1,
            cycles: 3,
        }
    } else if opcode == 0xC5 || opcode == 0xD5 || opcode == 0xE5 || opcode == 0xF5 {
        // PUSH rr (AF in place of SP)
        let value = spec_get_register_couple_with_flags(regs, flags, opcode >> 4);
        let sp1 = vstd::wrapping::u16_specs::wrapping_sub(regs.sp, 1);
        let b1 = spec_bus_write(b, sp1, spec_split(value).0);
        let sp2 = vstd::wrapping::u16_specs::wrapping_sub(sp1, 1);
        let b2 = spec_bus_write(b1, sp2, spec_split(value).1);
        CpuOut {
            cpu,
            flags,
            regs: Registers { sp: sp2, ..regs },
            bus: b2,
            bytes: 1,
            cycles: 4,
        }
    } else if opcode == 0xC6 || opcode == 0xCE || opcode == 0xD6 || opcode == 0xDE || opcode
        == 0xE6 || opcode == 0xEE || opcode == 0xF6 {
        // ALU operation on A and imm8
        let op = spec_do_operation(opcode >> 3, regs.a, spec_next(b, regs, 1), flags);
        CpuOut {
            cpu,
            flags: op.1,
            regs: Registers { a: op.0, ..regs },
            bus: b,
            bytes: 2,
            cycles: 2,
        }
    } else if opcode == 0xC7 || opcode == 0xCF || opcode == 0xD7 || opcode == 0xDF || opcode
        == 0xE7 || opcode == 0xEF || opcode == 0xF7 || opcode == 0xFF {
        // RST n: push the next address and jump to vector n * 8
        let ret = spec_split(vstd::wrapping::u16_specs::wrapping_add(regs.pc, 1));
        let sp1 = vstd::wrapping::u16_specs::wrapping_sub(regs.sp, 1);
        let b1 = spec_bus_write(b, sp1, ret.0);
        let sp2 = vstd::wrapping::u16_specs::wrapping_sub(sp1, 1);
        let b2 = spec_bus_write(b1, sp2, ret.1);
        let n = (opcode >> 3) % 8;
        CpuOut {
            cpu,
            flags,
            regs: Registers { sp: sp2, pc: (n * 8) as u16, ..regs },
            bus: b2,
            bytes: 0,
            cycles: 4,
        }
    } else if opcode == 0xE0 {
        // LDH (imm8), A
        let address = (0xFF00 + spec_next(b, regs, 1)) as u16;
        CpuOut { cpu, flags, regs, bus: spec_bus_write(b, address, regs.a), bytes: 2, cycles: 3 }
    } else if opcode == 0xE2 {
        // LD (C), A
        let address = (0xFF00 + regs.c) as u16;
        CpuOut { cpu, flags, regs, bus: spec_bus_write(b, address, regs.a), bytes: 1, cycles: 2 }
    } else if opcode == 0xE8 {
        // ADD SP, imm8: the flags come from the low byte of SP plus the raw byte
        let immediate_data = spec_next(b, regs, 1);
        let p = (regs.sp % 0x100) as u8;
        let add = spec_flag_add(p, immediate_data);
        CpuOut {
            cpu,
            flags: Flags {
                zero: false,
                subtraction: add.1.subtraction,
                half_carry: add.1.half_carry,
                carry: add.1.carry,
            },
            regs: Registers { sp: spec_add_i8_to_u16(regs.sp, immediate_data), ..regs },
            bus: b,
            bytes: 2,
            cycles: 4,
        }
    } else if opcode == 0xE9 {
        // JP HL
        CpuOut {
            cpu,
            flags,
            regs: Registers { pc: spec_merge(regs.h, regs.l), ..regs },
            bus: b,
            bytes: 0,
            cycles: 1,
        }
    } else if opcode == 0xEA {
        // LD (imm16), A
        CpuOut {
            cpu,
            flags,
            regs,
            bus: spec_bus_write(b, spec_next_two(b, regs), regs.a),
            bytes: 3,
            cycles: 4,
        }
    } else if opcode == 0xF0 {
        // LDH A, (imm8)
        let address = (0xFF00 + spec_next(b, regs, 1)) as u16;
        CpuOut {
            cpu,
            flags,
            regs: Registers { a: spec_bus_read(b, address), ..regs },
            bus: b,
            bytes: 2,
            cycles: 3,
        }
    } else if opcode == 0xF2 {
        // LD A, (C)
        let address = (0xFF00 + regs.c) as u16;
        CpuOut {
            cpu,
            flags,
            regs: Registers { a: spec_bus_read(b, address), ..regs },
            bus: b,
            bytes: 1,
            cycles: 2,
        }
    } else if opcode == 0xF3 {
        // DI
        CpuOut { cpu: Cpu { ime: false, ..cpu }, flags, regs, bus: b, bytes: 1, cycles: 1 }
    } else if opcode == 0xF8 {
        // LD HL, SP + imm8: flags as in ADD SP, imm8
        let immediate_data = spec_next(b, regs, 1);
        let p = (regs.sp % 0x100) as u8;
        let add = spec_flag_add(p, immediate_data);
        let new_value = spec_add_i8_to_u16(regs.sp, immediate_data);
        CpuOut {
            cpu,
            flags: Flags {
                zero: false,
                subtraction: add.1.subtraction,
                half_carry: add.1.half_carry,
                carry: add.1.carry,
            },
            regs: Registers {
                h: spec_split(new_value).0,
                l: spec_split(new_value).1,
                ..regs
            },
            bus: b,
            bytes: 2,
            cycles: 3,
        }
    } else if opcode == 0xF9 {
        // LD SP, HL
        CpuOut {
            cpu,
            flags,
            regs: Registers { sp: spec_merge(regs.h, regs.l), ..regs },
            bus: b,
            bytes: 1,
            cycles: 2,
        }
    } else if opcode == 0xFA {
        // LD A, (imm16)
        CpuOut {
            cpu,
            flags,
            regs: Registers { a: spec_bus_read(b, spec_next_two(b, regs)), ..regs },
            bus: b,
            bytes: 3,
            cycles: 4,
        }
    } else if opcode == 0xFB {
        // EI
        CpuOut { cpu: Cpu { ime: true, ..cpu }, flags, regs, bus: b, bytes: 1, cycles: 1 }
    } else if opcode == 0xFE {
        // CP imm8
        let sub = spec_flag_sub(regs.a, spec_next(b, regs, 1));
        CpuOut { cpu, flags: sub.1, regs, bus: b, bytes: 2, cycles: 2 }
    } else {
        // The holes of the table; the decoder refuses these up front
        CpuOut { cpu, flags, regs, bus: b, bytes: 0, cycles: 0 }
    }
}

/// Every instruction, and the idle dot of a halted CPU, takes at least one
/// machine cycle (and at most six), so the clocks downstream always move.
#[verifier::rlimit(100)]
#[verifier::spinoff_prover]
pub proof fn lemma_step_takes_a_cycle(
    cpu: Cpu,
    flags: Flags,
    regs: Registers,
    b: BusView,
    opcode: u8,
)
    requires
        cpu.halt || spec_is_implemented(opcode),
    ensures
        1 <= spec_interpret_opcode(cpu, flags, regs, b, opcode).cycles <= 6,
{
    reveal_with_fuel(spec_interpret_opcode, 3);
    reveal_with_fuel(spec_interpret_opcode_00_3f, 2);
    reveal(spec_interpret_opcode_40_bf);
    reveal_with_fuel(spec_interpret_opcode_c0_df, 2);
    reveal(spec_interpret_opcode_e0_ff);
}

impl Cpu {
    /// Decodes and runs one instruction of the base table, handing back how
    /// many bytes it occupied and how many machine cycles it took; a halted
    /// CPU skips the decode entirely. The table itself is split in four
    /// quarters below, each checked against its part of the specification.
    pub fn interpret_opcode(
        &mut self,
        opcode: u8,
        flags: &mut Flags,
        regs: &mut Registers,
        bus: &mut Bus,
    ) -> (result: (Bytes, Cycles))
        requires
            old(bus).wf(),
            old(self).halt || spec_is_implemented(opcode),
        ensures
            final(bus).wf(),
            ({
                let r = spec_interpret_opcode(*old(self), *old(flags), *old(regs), old(bus)@, opcode);
                &&& *final(self) == r.cpu
                &&& *final(flags) == r.flags
                &&& *final(regs) == r.regs
                &&& final(bus)@ == r.bus
                &&& result.0 == r.bytes
                &&& result.1 == r.cycles
            }),
            result.1 <= 6,
            final(self).div_cycle_counter == old(self).div_cycle_counter,
            final(self).tima_cycle_counter == old(self).tima_cycle_counter,
        decreases spec_opcode_rank(opcode), 1int,
    {
        if self.halt {
            // A halted CPU idles for a cycle; a pending interrupt wakes it
            let interrupt_enable = bus.ie;
            let interrupt_flag = bus.read(IF);
            if interrupt_enable & interrupt_flag & 0x1F != 0 {
                self.halt = false;
            }
            return (0, 1);
        }
        if opcode < 0x20 {
            self.interpret_opcode_00_1f(opcode, flags, regs, bus)
        } else if opcode < 0x40 {
            self.interpret_opcode_20_3f(opcode, flags, regs, bus)
        } else if opcode < 0xC0 {
            self.interpret_opcode_40_bf(opcode, flags, regs, bus)
        } else if opcode < 0xE0 {
            self.interpret_opcode_c0_df(opcode, flags, regs, bus)
        } else {
            self.interpret_opcode_e0_ff(opcode, flags, regs, bus)
        }
    }

    /// The 0x00-0x1F sixteenth of the base table.
    #[verifier::rlimit(100)]
    #[verifier::spinoff_prover]
    fn interpret_opcode_00_1f(
        &mut self,
        opcode: u8,
        flags: &mut Flags,
        regs: &mut Registers,
        bus: &mut Bus,
    ) -> (result: (Bytes, Cycles))
        requires
            old(bus).wf(),
            !old(self).halt,
            spec_is_implemented(opcode),
            opcode < 0x20,
        ensures
            final(bus).wf(),
            ({
                let r = spec_interpret_opcode(*old(self), *old(flags), *old(regs), old(bus)@, opcode);
                &&& *final(self) == r.cpu
                &&& *final(flags) == r.flags
                &&& *final(regs) == r.regs
                &&& final(bus)@ == r.bus
                &&& result.0 == r.bytes
                &&& result.1 == r.cycles
            }),
            result.1 <= 6,
            final(self).div_cycle_counter == old(self).div_cycle_counter,
            final(self).tima_cycle_counter == old(self).tima_cycle_counter,
        decreases spec_opcode_rank(opcode), 0int,
    {
        proof {
            reveal_with_fuel(spec_interpret_opcode, 2);
            reveal_with_fuel(spec_interpret_opcode_00_3f, 2);
        }

        match opcode {
            // Instruction `NOP`
            0x00 => (1, 1),

            // Instruction `LD rr, immediate data` - 00rr0001
            // Loads immediate data into given register couple
            0x01 | 0x11 | 0x21 | 0x31 => {
                let value = bus.next_two(regs);
                regs.set_register_couple(opcode >> 4, value);
                (3, 3)
            },

            // Instruction `LD (rr+/-), register A` - 00rr0010
            // Copy register A to address specified by register r (with increments)
            0x02 | 0x12 | 0x22 | 0x32 => {
                let address = regs.get_register_couple_with_increments(opcode >> 4);
                bus.write(address, regs.a);

                (1, 2)
            },

            // Instruction `INC rr` - 00rr0011
            // Increments by one given register couple
            0x03 | 0x13 | 0x23 | 0x33 => {
                let new_value = regs.get_register_couple(opcode >> 4).wrapping_add(1);
                regs.set_register_couple(opcode >> 4, new_value);

                (1, 2)
            },

            // Instruction `INC r` - 00rrr100
            // Increments by one given register and update flags, carry excepted
            0x04 | 0x0C | 0x14 | 0x1C | 0x24 | 0x2C | 0x34 | 0x3C => {
                let register_r = regs.get_register(opcode >> 3, bus);
                let (new_value, new_flags) = flag_add(register_r, 1);

                flags.zero = new_flags.zero;
                flags.subtraction = new_flags.subtraction;
                flags.half_carry = new_flags.half_carry;

                regs.set_register(opcode >> 3, new_value, bus);

                (1, 1)
            },

            // Instruction `DEC r` - 00rrr101
            // Decrements by one given register and update flags, carry excepted
            0x05 | 0x0D | 0x15 | 0x1D | 0x25 | 0x2D | 0x35 | 0x3D => {
                let register_r = regs.get_register(opcode >> 3, bus);
                let (new_value, new_flags) = flag_sub(register_r, 1);

                flags.zero = new_flags.zero;
                flags.subtraction = new_flags.subtraction;
                flags.half_carry = new_flags.half_carry;

                regs.set_register(opcode >> 3, new_value, bus);

                (1, 1)
            },

            // Instruction `DEC rr` - 00rr1011
            // Decrements by one given register couple
            0x0B | 0x1B | 0x2B | 0x3B => {
                let new_value = regs.get_register_couple(opcode >> 4).wrapping_sub(1);
                regs.set_register_couple(opcode >> 4, new_value);

                (1, 2)
            },

            // Instruction `LD r, immediate data` - 00rrr110
            // Loads immediate data into register
            0x06 | 0x0E | 0x16 | 0x1E | 0x26 | 0x2E | 0x36 | 0x3E => {
                let value = bus.next_one(regs);
                regs.set_register(opcode >> 3, value, bus);

                (2, 2)
            },

            // Instructions `RLCA`, `RRCA`, `RLA`, `RRA`
            // Exactly like the CB rotates on register A under the same opcode
            // byte, except that the zero flag is reset
            0x07 | 0x0F | 0x17 | 0x1F => {
                self.interpret_cb_opcode(opcode, flags, regs, bus);
                flags.zero = false;
                flags.subtraction = false;
                flags.half_carry = false;

                (1, 1)
            },

            // Instruction `LD (immediate data), SP` - 00001000
            // Load the lower part of SP into immediate data address and the higher part
            // in the next cell
            0x08 => {
                let (s, p) = split_u16_into_two_u8s(regs.sp);
                let address = bus.next_two(regs);

                bus.write(address, p);
                bus.write(address.wrapping_add(1), s);

                (3, 5)
            },

            // Instruction `ADD HL, rr` - 00rr1001
            // Add given register couple to register HL; Z is left alone
            0x09 | 0x19 | 0x29 | 0x39 => {
                let register_hl = merge_two_u8s_into_u16(regs.h, regs.l);
                let register_r = regs.get_register_couple(opcode >> 4);
                let result = register_hl.wrapping_add(register_r);

                flags.subtraction = false;

                // This is set if there's an overflow from bit 11 to bit 12
                flags.half_carry = (register_hl & 0x0FFF) as u32 + (register_r & 0x0FFF) as u32
                    > 0x0FFF;

                flags.carry = register_hl as u32 + register_r as u32 > 0xFFFF;

                let (high, low) = split_u16_into_two_u8s(result);
                regs.h = high;
                regs.l = low;

                (1, 2)
            },

            // Instruction `LD register A, (rr+/-)` - 00rr1010
            // Copy address specified by register rr (with increments) to register A
            0x0A | 0x1A | 0x2A | 0x3A => {
                let address = regs.get_register_couple_with_increments(opcode >> 4);
                regs.a = bus.read(address);

                (1, 2)
            },

            // Instruction `JR immediate data` - 00011000
            // Convert immediate data to signed 8 bit number and add it to the pc
            0x18 => {
                let jump_amount = bus.next_one(regs);
                regs.pc = add_i8_to_u16(regs.pc, jump_amount);

                (2, 2)
            },

            // The holes of the table, refused by the `requires` of this function
            _ => {
                proof {
                    assert(false);
                }
                (0, 0)
            },
        }
    }

    /// The 0x20-0x3F sixteenth of the base table.
    #[verifier::rlimit(100)]
    #[verifier::spinoff_prover]
    fn interpret_opcode_20_3f(
        &mut self,
        opcode: u8,
        flags: &mut Flags,
        regs: &mut Registers,
        bus: &mut Bus,
    ) -> (result: (Bytes, Cycles))
        requires
            old(bus).wf(),
            !old(self).halt,
            spec_is_implemented(opcode),
            0x20 <= opcode < 0x40,
        ensures
            final(bus).wf(),
            ({
                let r = spec_interpret_opcode(*old(self), *old(flags), *old(regs), old(bus)@, opcode);
                &&& *final(self) == r.cpu
                &&& *final(flags) == r.flags
                &&& *final(regs) == r.regs
                &&& final(bus)@ == r.bus
                &&& result.0 == r.bytes
                &&& result.1 == r.cycles
            }),
            result.1 <= 6,
            final(self).div_cycle_counter == old(self).div_cycle_counter,
            final(self).tima_cycle_counter == old(self).tima_cycle_counter,
        decreases spec_opcode_rank(opcode), 0int,
    {
        proof {
            reveal_with_fuel(spec_interpret_opcode, 2);
            reveal_with_fuel(spec_interpret_opcode_00_3f, 2);
        }

        match opcode {
            // Instruction `LD rr, immediate data` - 00rr0001
            // Loads immediate data into given register couple
            0x01 | 0x11 | 0x21 | 0x31 => {
                let value = bus.next_two(regs);
                regs.set_register_couple(opcode >> 4, value);
                (3, 3)
            },

            // Instruction `LD (rr+/-), register A` - 00rr0010
            // Copy register A to address specified by register r (with increments)
            0x02 | 0x12 | 0x22 | 0x32 => {
                let address = regs.get_register_couple_with_increments(opcode >> 4);
                bus.write(address, regs.a);

                (1, 2)
            },

            // Instruction `INC rr` - 00rr0011
            // Increments by one given register couple
            0x03 | 0x13 | 0x23 | 0x33 => {
                let new_value = regs.get_register_couple(opcode >> 4).wrapping_add(1);
                regs.set_register_couple(opcode >> 4, new_value);

                (1, 2)
            },

            // Instruction `INC r` - 00rrr100
            // Increments by one given register and update flags, carry excepted
            0x04 | 0x0C | 0x14 | 0x1C | 0x24 | 0x2C | 0x34 | 0x3C => {
                let register_r = regs.get_register(opcode >> 3, bus);
                let (new_value, new_flags) = flag_add(register_r, 1);

                flags.zero = new_flags.zero;
                flags.subtraction = new_flags.subtraction;
                flags.half_carry = new_flags.half_carry;

                regs.set_register(opcode >> 3, new_value, bus);

                (1, 1)
            },

            // Instruction `DEC r` - 00rrr101
            // Decrements by one given register and update flags, carry excepted
            0x05 | 0x0D | 0x15 | 0x1D | 0x25 | 0x2D | 0x35 | 0x3D => {
                let register_r = regs.get_register(opcode >> 3, bus);
                let (new_value, new_flags) = flag_sub(register_r, 1);

                flags.zero = new_flags.zero;
                flags.subtraction = new_flags.subtraction;
                flags.half_carry = new_flags.half_carry;

                regs.set_register(opcode >> 3, new_value, bus);

                (1, 1)
            },

            // Instruction `DEC rr` - 00rr1011
            // Decrements by one given register couple
            0x0B | 0x1B | 0x2B | 0x3B => {
                let new_value = regs.get_register_couple(opcode >> 4).wrapping_sub(1);
                regs.set_register_couple(opcode >> 4, new_value);

                (1, 2)
            },

            // Instruction `LD r, immediate data` - 00rrr110
            // Loads immediate data into register
            0x06 | 0x0E | 0x16 | 0x1E | 0x26 | 0x2E | 0x36 | 0x3E => {
                let value = bus.next_one(regs);
                regs.set_register(opcode >> 3, value, bus);

                (2, 2)
            },

            // Instruction `ADD HL, rr` - 00rr1001
            // Add given register couple to register HL; Z is left alone
            0x09 | 0x19 | 0x29 | 0x39 => {
                let register_hl = merge_two_u8s_into_u16(regs.h, regs.l);
                let register_r = regs.get_register_couple(opcode >> 4);
                let result = register_hl.wrapping_add(register_r);

                flags.subtraction = false;

                // This is set if there's an overflow from bit 11 to bit 12
                flags.half_carry = (register_hl & 0x0FFF) as u32 + (register_r & 0x0FFF) as u32
                    > 0x0FFF;

                flags.carry = register_hl as u32 + register_r as u32 > 0xFFFF;

                let (high, low) = split_u16_into_two_u8s(result);
                regs.h = high;
                regs.l = low;

                (1, 2)
            },

            // Instruction `LD register A, (rr+/-)` - 00rr1010
            // Copy address specified by register rr (with increments) to register A
            0x0A | 0x1A | 0x2A | 0x3A => {
                let address = regs.get_register_couple_with_increments(opcode >> 4);
                regs.a = bus.read(address);

                (1, 2)
            },

            // Instruction `JR condition, immediate data` - 001cc000
            // Convert immediate data to signed 8 bit number and add it to the pc if
            // condition applies
            0x20 | 0x28 | 0x30 | 0x38 => {
                if flags.is_condition_valid(opcode >> 3) {
                    self.interpret_opcode(RELATIVE_JUMP, flags, regs, bus);
                    (2, 3)
                } else {
                    (2, 2)
                }
            },

            // Instruction `DAA` - 00100111
            // Adjusts register A to packed BCD after an addition or subtraction
            0x27 => {
                let value_to_add_or_sub: u8 = if (!flags.subtraction && regs.a & 0x0F > 0x09)
                    || flags.half_carry {
                    0x06
                } else {
                    0
                };

                let should_carry = (!flags.subtraction && regs.a > 0x99) || flags.carry;

                let value_to_add_or_sub: u8 = if should_carry {
                    value_to_add_or_sub | 0x60
                } else {
                    value_to_add_or_sub
                };

                regs.a = match flags.subtraction {
                    false => regs.a.wrapping_add(value_to_add_or_sub),
                    true => regs.a.wrapping_sub(value_to_add_or_sub),
                };

                flags.zero = regs.a == 0;
                flags.carry = should_carry;
                flags.half_carry = false;

                (1, 1)
            },

            // Instruction `CPL` - 00101111
            // Flip the bits of register A
            0x2F => {
                regs.a = !regs.a;
                flags.subtraction = true;
                flags.half_carry = true;

                (1, 1)
            },

            // Instruction `SCF` - 00110111
            // Set carry flag
            0x37 => {
                flags.carry = true;
                flags.subtraction = false;
                flags.half_carry = false;

                (1, 1)
            },

            // Instruction `CCF` - 00111111
            // Flip carry flag
            0x3F => {
                flags.carry = !flags.carry;
                flags.subtraction = false;
                flags.half_carry = false;

                (1, 1)
            },
            // The holes of the table, refused by the `requires` of this function
            _ => {
                proof {
                    assert(false);
                }
                (0, 0)
            },
        }
    }

    /// The 0x40-0xBF quarter of the base table.
    #[verifier::rlimit(100)]
    #[verifier::spinoff_prover]
    fn interpret_opcode_40_bf(
        &mut self,
        opcode: u8,
        flags: &mut Flags,
        regs: &mut Registers,
        bus: &mut Bus,
    ) -> (result: (Bytes, Cycles))
        requires
            old(bus).wf(),
            !old(self).halt,
            spec_is_implemented(opcode),
            0x40 <= opcode < 0xC0,
        ensures
            final(bus).wf(),
            ({
                let r = spec_interpret_opcode(*old(self), *old(flags), *old(regs), old(bus)@, opcode);
                &&& *final(self) == r.cpu
                &&& *final(flags) == r.flags
                &&& *final(regs) == r.regs
                &&& final(bus)@ == r.bus
                &&& result.0 == r.bytes
                &&& result.1 == r.cycles
            }),
            result.1 <= 6,
            final(self).div_cycle_counter == old(self).div_cycle_counter,
            final(self).tima_cycle_counter == old(self).tima_cycle_counter,
        decreases spec_opcode_rank(opcode), 0int,
    {
        proof {
            reveal(spec_interpret_opcode_40_bf);
        }

        match opcode {
            // Instruction `HALT`
            // This is in the middle of the ld instructions
            0x76 => {
                self.halt = true;

                (1, 1)
            },

            // Instruction `LD x, y` - 01xxxyyy
            // Load the value of register y into register x
            0x40..=0x7F => {
                let register_y = regs.get_register(opcode, bus);
                regs.set_register(opcode >> 3, register_y, bus);

                (1, 1)
            },

            // Instructions `operation r` - 10ooorrr
            // Do operation "o" on register r and register A, store result in register A
            0x80..=0xB7 => {
                let register_r = regs.get_register(opcode, bus);
                let (result, new_flags) = do_operation(opcode >> 3, regs.a, register_r, flags);

                flags.zero = new_flags.zero;
                flags.carry = new_flags.carry;
                flags.subtraction = new_flags.subtraction;
                flags.half_carry = new_flags.half_carry;
                regs.a = result;

                (1, 1)
            },

            // Instruction `CP r` - 10111rrr
            // Subtract register r from register A, update the flags, but dump the result
            0xB8..=0xBF => {
                let register_r = regs.get_register(opcode, bus);
                let (_, new_flags) = flag_sub(regs.a, register_r);

                flags.zero = new_flags.zero;
                flags.carry = new_flags.carry;
                flags.subtraction = new_flags.subtraction;
                flags.half_carry = new_flags.half_carry;

                (1, 1)
            },
            // The holes of the table, refused by the `requires` of this function
            _ => {
                proof {
                    assert(false);
                }
                (0, 0)
            },
        }
    }

    /// The 0xC0-0xDF quarter of the base table.
    #[verifier::rlimit(100)]
    #[verifier::spinoff_prover]
    fn interpret_opcode_c0_df(
        &mut self,
        opcode: u8,
        flags: &mut Flags,
        regs: &mut Registers,
        bus: &mut Bus,
    ) -> (result: (Bytes, Cycles))
        requires
            old(bus).wf(),
            !old(self).halt,
            spec_is_implemented(opcode),
            0xC0 <= opcode < 0xE0,
        ensures
            final(bus).wf(),
            ({
                let r = spec_interpret_opcode(*old(self), *old(flags), *old(regs), old(bus)@, opcode);
                &&& *final(self) == r.cpu
                &&& *final(flags) == r.flags
                &&& *final(regs) == r.regs
                &&& final(bus)@ == r.bus
                &&& result.0 == r.bytes
                &&& result.1 == r.cycles
            }),
            result.1 <= 6,
            final(self).div_cycle_counter == old(self).div_cycle_counter,
            final(self).tima_cycle_counter == old(self).tima_cycle_counter,
        decreases spec_opcode_rank(opcode), 0int,
    {
        proof {
            reveal_with_fuel(spec_interpret_opcode_c0_df, 2);
        }

        match opcode {
            // Instruction `RET condition` - 110cc000
            // Like instruction ret but only if condition applies
            0xC0 | 0xC8 | 0xD0 | 0xD8 => {
                if flags.is_condition_valid(opcode >> 3) {
                    self.interpret_opcode(RET, flags, regs, bus);
                    (0, 5)
                } else {
                    (1, 2)
                }
            },

            // Instruction `POP rrf` - 11rr0001
            0xC1 | 0xD1 | 0xE1 | 0xF1 => {
                let low = bus.read(regs.sp);
                regs.sp = regs.sp.wrapping_add(1);
                let high = bus.read(regs.sp);
                regs.sp = regs.sp.wrapping_add(1);

                let popped_value = merge_two_u8s_into_u16(high, low);
                regs.set_register_couple_with_flags(opcode >> 4, popped_value, flags);

                (1, 3)
            },

            // Instruction `JP condition, immediate data` - 110cc010
            // Sets pc to immediate data if given condition is valid
            0xC2 | 0xCA | 0xD2 | 0xDA => {
                if flags.is_condition_valid(opcode >> 3) {
                    self.interpret_opcode(JUMP, flags, regs, bus);
                    (0, 4)
                } else {
                    (3, 3)
                }
            },

            // Instruction `JP immediate data` - 11000011
            // Sets pc to immediate data
            0xC3 => {
                let immediate_data = bus.next_two(regs);
                regs.pc = immediate_data;

                (0, 4)
            },

            // Instruction `CALL condition, immediate data`
            // Like the call instruction but only if the condition is valid
            0xC4 | 0xCC | 0xD4 | 0xDC => {
                if flags.is_condition_valid(opcode >> 3) {
                    self.interpret_opcode(CALL, flags, regs, bus);
                    (0, 6)
                } else {
                    (3, 3)
                }
            },

            // Instruction `PUSH rrf` - 11rr0101
            // Subtract one to sp, store high part of the given register (with flags) at
            // address sp, subtract one to sp again, store low part of the given register
            // at address sp again
            0xC5 | 0xD5 | 0xE5 | 0xF5 => {
                let (high, low) = split_u16_into_two_u8s(
                    regs.get_register_couple_with_flags(opcode >> 4, flags),
                );

                regs.sp = regs.sp.wrapping_sub(1);
                bus.write(regs.sp, high);
                regs.sp = regs.sp.wrapping_sub(1);
                bus.write(regs.sp, low);

                (1, 4)
            },

            // Instruction `operation immediate_data` - 11ooo110
            // Do operation "o" on immediate data byte and register A, store result in
            // register A
            0xC6 | 0xCE | 0xD6 | 0xDE | 0xE6 | 0xEE | 0xF6 => {
                let immediate_data = bus.next_one(regs);
                let (result, new_flags) = do_operation(opcode >> 3, regs.a, immediate_data, flags);

                flags.zero = new_flags.zero;
                flags.carry = new_flags.carry;
                flags.subtraction = new_flags.subtraction;
                flags.half_carry = new_flags.half_carry;
                regs.a = result;

                (2, 2)
            },

            // Instruction `RET` - 11001001
            // Load address sp into lower part of pc, increment sp, load address sp into
            // higher part of pc, and increment sp again
            0xC9 => {
                let c = bus.read(regs.sp);
                regs.sp = regs.sp.wrapping_add(1);
                let p = bus.read(regs.sp);
                regs.sp = regs.sp.wrapping_add(1);
                regs.pc = merge_two_u8s_into_u16(p, c);

                (0, 4)
            },

            // Instruction `CB`
            0xCB => {
                let next_opcode = bus.next_one(regs);
                let (bytes, cycles) = self.interpret_cb_opcode(next_opcode, flags, regs, bus);

                (bytes + 1, cycles + 1)
            },

            // Instruction `CALL immediate data` - 11001101
            // Decrement sp by one, load high part of pc into address sp, decrement sp
            // again, load low part of pc into address sp, finally, load immediate data
            // into pc. Note: Increment the pc by 3 before pushing because it needs to be
            // the pc after the call instruction which lasts 3 bytes
            0xCD => {
                let (p, c) = split_u16_into_two_u8s(regs.pc.wrapping_add(3));
                let immediate_data = bus.next_two(regs);

                regs.sp = regs.sp.wrapping_sub(1);
                bus.write(regs.sp, p);
                regs.sp = regs.sp.wrapping_sub(1);
                bus.write(regs.sp, c);
                regs.pc = immediate_data;

                (0, 6)
            },

            // Instruction `RST n` - 11nnn111
            // Push the program counter, then set it to n multiplied by eight
            0xC7 | 0xCF | 0xD7 | 0xDF | 0xE7 | 0xEF | 0xF7 | 0xFF => {
                // Pushing, NOTE: we add one because we push the pc of the next
                // instruction
                let (p, c) = split_u16_into_two_u8s(regs.pc.wrapping_add(1));
                regs.sp = regs.sp.wrapping_sub(1);
                bus.write(regs.sp, p);
                regs.sp = regs.sp.wrapping_sub(1);
                bus.write(regs.sp, c);

                // Jump table
                let n = (opcode >> 3) % 8;
                regs.pc = (n * 8) as u16;

                (0, 4)
            },

            // Instruction `RETI` - 11011001
            // Like the `RET` instruction but Interrupt Master Enable flag is set to true
            0xD9 => {
                self.interpret_opcode(RET, flags, regs, bus);
                self.ime = true;

                (0, 4)
            },
            // The holes of the table, refused by the `requires` of this function
            _ => {
                proof {
                    assert(false);
                }
                (0, 0)
            },
        }
    }

    /// The 0xE0-0xFF quarter of the base table.
    #[verifier::rlimit(100)]
    #[verifier::spinoff_prover]
    fn interpret_opcode_e0_ff(
        &mut self,
        opcode: u8,
        flags: &mut Flags,
        regs: &mut Registers,
        bus: &mut Bus,
    ) -> (result: (Bytes, Cycles))
        requires
            old(bus).wf(),
            !old(self).halt,
            spec_is_implemented(opcode),
            0xE0 <= opcode,
        ensures
            final(bus).wf(),
            ({
                let r = spec_interpret_opcode(*old(self), *old(flags), *old(regs), old(bus)@, opcode);
                &&& *final(self) == r.cpu
                &&& *final(flags) == r.flags
                &&& *final(regs) == r.regs
                &&& final(bus)@ == r.bus
                &&& result.0 == r.bytes
                &&& result.1 == r.cycles
            }),
            result.1 <= 6,
            final(self).div_cycle_counter == old(self).div_cycle_counter,
            final(self).tima_cycle_counter == old(self).tima_cycle_counter,
        decreases spec_opcode_rank(opcode), 0int,
    {
        proof {
            reveal(spec_interpret_opcode_e0_ff);
        }

        match opcode {
            // Instruction `POP rrf` - 11rr0001
            0xC1 | 0xD1 | 0xE1 | 0xF1 => {
                let low = bus.read(regs.sp);
                regs.sp = regs.sp.wrapping_add(1);
                let high = bus.read(regs.sp);
                regs.sp = regs.sp.wrapping_add(1);

                let popped_value = merge_two_u8s_into_u16(high, low);
                regs.set_register_couple_with_flags(opcode >> 4, popped_value, flags);

                (1, 3)
            },

            // Instruction `PUSH rrf` - 11rr0101
            // Subtract one to sp, store high part of the given register (with flags) at
            // address sp, subtract one to sp again, store low part of the given register
            // at address sp again
            0xC5 | 0xD5 | 0xE5 | 0xF5 => {
                let (high, low) = split_u16_into_two_u8s(
                    regs.get_register_couple_with_flags(opcode >> 4, flags),
                );

                regs.sp = regs.sp.wrapping_sub(1);
                bus.write(regs.sp, high);
                regs.sp = regs.sp.wrapping_sub(1);
                bus.write(regs.sp, low);

                (1, 4)
            },

            // Instruction `operation immediate_data` - 11ooo110
            // Do operation "o" on immediate data byte and register A, store result in
            // register A
            0xC6 | 0xCE | 0xD6 | 0xDE | 0xE6 | 0xEE | 0xF6 => {
                let immediate_data = bus.next_one(regs);
                let (result, new_flags) = do_operation(opcode >> 3, regs.a, immediate_data, flags);

                flags.zero = new_flags.zero;
                flags.carry = new_flags.carry;
                flags.subtraction = new_flags.subtraction;
                flags.half_carry = new_flags.half_carry;
                regs.a = result;

                (2, 2)
            },

            // Instruction `RST n` - 11nnn111
            // Push the program counter, then set it to n multiplied by eight
            0xC7 | 0xCF | 0xD7 | 0xDF | 0xE7 | 0xEF | 0xF7 | 0xFF => {
                // Pushing, NOTE: we add one because we push the pc of the next
                // instruction
                let (p, c) = split_u16_into_two_u8s(regs.pc.wrapping_add(1));
                regs.sp = regs.sp.wrapping_sub(1);
                bus.write(regs.sp, p);
                regs.sp = regs.sp.wrapping_sub(1);
                bus.write(regs.sp, c);

                // Jump table
                let n = (opcode >> 3) % 8;
                regs.pc = (n * 8) as u16;

                (0, 4)
            },

            // Instruction `LD io address, register A` - 11100000
            // Loads register a at address specified by immediate data with an offset of
            // `0xFF00`
            0xE0 => {
                let address = 0xFF00 + bus.next_one(regs) as u16;
                bus.write(address, regs.a);

                (2, 3)
            },

            // Instruction `LD (register C), A` - 11100010
            // Loads register a at address specified by register C with an offset of
            // `0xFF00`
            0xE2 => {
                let address = 0xFF00 + regs.c as u16;
                bus.write(address, regs.a);

                (1, 2)
            },

            // Instruction `ADD SP, immediate data` - 11101000
            // Add immediate data to register SP
            0xE8 => {
                let immediate_data = bus.next_one(regs);

                // In this instruction, the carry flag is set if the lower byte of sp and
                // the unsigned byte of immediate data overflows
                let p = (regs.sp % 0x100) as u8;
                regs.sp = add_i8_to_u16(regs.sp, immediate_data);

                let (_, new_flags) = flag_add(p, immediate_data);
                flags.zero = false;
                flags.carry = new_flags.carry;
                flags.subtraction = new_flags.subtraction;
                flags.half_carry = new_flags.half_carry;

                (2, 4)
            },

            // Instruction `JP HL` - 11101001
            // Sets pc to register HL
            0xE9 => {
                regs.pc = merge_two_u8s_into_u16(regs.h, regs.l);

                (0, 1)
            },

            // Instruction `LD (immediate data), register A` - 11101010
            // Load register A at address specified by immediate data
            0xEA => {
                let immediate_data = bus.next_two(regs);
                bus.write(immediate_data, regs.a);

                (3, 4)
            },

            // Instruction `LD register A, io address` - 11110000
            // Loads address specified by immediate data with an offset of `0xFF00` into
            // register A
            0xF0 => {
                let address = 0xFF00 + bus.next_one(regs) as u16;
                regs.a = bus.read(address);

                (2, 3)
            },

            // Instruction `LD register A, (register C)` - 11110010
            // Loads address specified by register C with an offset of `0xFF00` into
            // register A
            0xF2 => {
                let address = 0xFF00 + regs.c as u16;
                regs.a = bus.read(address);

                (1, 2)
            },

            // Disable Interrupt Master Enable flag
            0xF3 => {
                self.ime = false;
                (1, 1)
            },

            // Instruction `LD HL, SP + immediate data` - 11111000
            // Add SP to signed immediate data and copy the result to register HL
            0xF8 => {
                let immediate_data = bus.next_one(regs);

                // In this instruction, the carry flag is set if the lower byte of sp and
                // the unsigned byte of immediate data overflows
                let p = (regs.sp % 0x100) as u8;

                let (_, new_flags) = flag_add(p, immediate_data);
                flags.zero = false;
                flags.carry = new_flags.carry;
                flags.subtraction = new_flags.subtraction;
                flags.half_carry = new_flags.half_carry;

                let new_value = add_i8_to_u16(regs.sp, immediate_data);
                let (high, low) = split_u16_into_two_u8s(new_value);
                regs.h = high;
                regs.l = low;

                (2, 3)
            },

            // Instruction `LD SP, HL` - 11111001
            // Copy register HL to SP
            0xF9 => {
                regs.sp = merge_two_u8s_into_u16(regs.h, regs.l);

                (1, 2)
            },

            // Instruction `LD register A, (immediate data)` - 11111010
            // Load specified address into register A
            0xFA => {
                let immediate_data = bus.next_two(regs);
                regs.a = bus.read(immediate_data);

                (3, 4)
            },

            // Enable Interrupt Master Enable flag
            0xFB => {
                self.ime = true;
                (1, 1)
            },

            // Instruction `CP immediate data` - 11111110
            // Subtract immediate data from register A, update the flags, but dump the
            // result
            0xFE => {
                let immediate_data = bus.next_one(regs);
                let (_, new_flags) = flag_sub(regs.a, immediate_data);

                flags.zero = new_flags.zero;
                flags.carry = new_flags.carry;
                flags.subtraction = new_flags.subtraction;
                flags.half_carry = new_flags.half_carry;

                (2, 2)
            },
            // The holes of the table, refused by the `requires` of this function
            _ => {
                proof {
                    assert(false);
                }
                (0, 0)
            },
        }
    }
}

} // verus!
