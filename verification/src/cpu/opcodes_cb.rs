//! The CB-prefixed opcode table: rotates and shifts (0x00-0x3F), `BIT`
//! (0x40-0x7F), `RES` (0x80-0xBF) and `SET` (0xC0-0xFF), each over the
//! register picked by the low three bits (with code 6 meaning the byte at
//! HL).

use vstd::prelude::*;

use crate::bus::{Bus, BusView};
use crate::common::{get_bit, set_bit, spec_bit, spec_set_bit};
use crate::cpu::{Bytes, Cpu, Cycles};
use crate::flags::Flags;
use crate::registers::{
    spec_get_register, spec_set_register_bus, spec_set_register_regs, Registers,
};

verus! {

/// Everything a CB-prefixed instruction can touch, together with its size
/// and cycle count.
#[verifier::ext_equal]
pub ghost struct CbOut {
    pub flags: Flags,
    pub regs: Registers,
    pub bus: BusView,
    pub bytes: Bytes,
    pub cycles: Cycles,
}

/// The result and carry-out of the eight rotate/shift families, family
/// `opcode >> 3`: RLC, RRC, RL, RR, SLA, SRA, SWAP, SRL.
pub open spec fn spec_cb_transform(family: u8, value: u8, carry_in: bool) -> (u8, bool) {
    match family % 8 {
        0 => (((value << 1) | (value >> 7)) as u8, spec_bit(value, 7)),
        1 => (((value >> 1) | (value << 7)) as u8, spec_bit(value, 0)),
        2 => (((value << 1) | (if carry_in { 1u8 } else { 0u8 })) as u8, spec_bit(value, 7)),
        3 => (((value >> 1) | (if carry_in { 0x80u8 } else { 0u8 })) as u8, spec_bit(value, 0)),
        4 => ((value << 1) as u8, spec_bit(value, 7)),
        5 => (((value >> 1) | (value & 0x80)) as u8, spec_bit(value, 0)),
        6 => (((value >> 4) | (value << 4)) as u8, false),
        _ => ((value >> 1) as u8, spec_bit(value, 0)),
    }
}

/// What one CB-prefixed opcode does, byte and cycle counts included (both
/// counts leave out the CB prefix itself, which the base table adds).
/// The rotate and shift families set Z from the result and C from the bit
/// they shift out and clear N and H; `BIT n` sets Z to the complement of
/// the tested bit, clears N, sets H and keeps C; `RES` and `SET` move no
/// flag at all.
pub open spec fn spec_interpret_cb_opcode(
    flags: Flags,
    regs: Registers,
    b: BusView,
    opcode: u8,
) -> CbOut {
    let value = spec_get_register(regs, b, opcode);
    let n = (opcode >> 3) % 8;
    if opcode < 0x40 {
        let (result, carry) = spec_cb_transform(opcode >> 3, value, flags.carry);
        CbOut {
            flags: Flags { zero: result == 0, subtraction: false, half_carry: false, carry },
            regs: spec_set_register_regs(regs, opcode, result),
            bus: spec_set_register_bus(regs, b, opcode, result),
            bytes: 1,
            cycles: 1,
        }
    } else if opcode < 0x80 {
        CbOut {
            flags: Flags {
                zero: !spec_bit(value, n),
                subtraction: false,
                half_carry: true,
                carry: flags.carry,
            },
            regs,
            bus: b,
            bytes: 1,
            cycles: 1,
        }
    } else if opcode < 0xC0 {
        let result = spec_set_bit(value, n, false);
        CbOut {
            flags,
            regs: spec_set_register_regs(regs, opcode, result),
            bus: spec_set_register_bus(regs, b, opcode, result),
            bytes: 1,
            cycles: 1,
        }
    } else {
        let result = spec_set_bit(value, n, true);
        CbOut {
            flags,
            regs: spec_set_register_regs(regs, opcode, result),
            bus: spec_set_register_bus(regs, b, opcode, result),
            bytes: 1,
            cycles: 1,
        }
    }
}

impl Cpu {
    pub fn interpret_cb_opcode(
        &mut self,
        opcode: u8,
        flags: &mut Flags,
        regs: &mut Registers,
        bus: &mut Bus,
    ) -> (result: (Bytes, Cycles))
        requires
            old(bus).wf(),
        ensures
            final(bus).wf(),
            *final(self) == *old(self),
            ({
                let r = spec_interpret_cb_opcode(*old(flags), *old(regs), old(bus)@, opcode);
                &&& *final(flags) == r.flags
                &&& *final(regs) == r.regs
                &&& final(bus)@ == r.bus
                &&& result.0 == r.bytes
                &&& result.1 == r.cycles
            }),
    {
        let value = regs.get_register(opcode, bus);
        let n = (opcode >> 3) % 8;

        if opcode < 0x40 {
            // The rotate and shift families - 00fffrrr
            let carry_in = flags.carry;
            let (result, carry) = match (opcode >> 3) % 8 {
                // `RLC r`: rotate left, bit 7 into both carry and bit 0
                0 => ((value << 1) | (value >> 7), get_bit(value, 7)),
                // `RRC r`: rotate right, bit 0 into both carry and bit 7
                1 => ((value >> 1) | (value << 7), get_bit(value, 0)),
                // `RL r`: rotate left through the carry flag
                2 => ((value << 1) | (if carry_in { 1 } else { 0 }), get_bit(value, 7)),
                // `RR r`: rotate right through the carry flag
                3 => ((value >> 1) | (if carry_in { 0x80 } else { 0 }), get_bit(value, 0)),
                // `SLA r`: shift left into the carry flag
                4 => (value << 1, get_bit(value, 7)),
                // `SRA r`: shift right keeping bit 7, bit 0 into the carry flag
                5 => ((value >> 1) | (value & 0x80), get_bit(value, 0)),
                // `SWAP r`: swap high four bits with low four bits
                6 => ((value >> 4) | (value << 4), false),
                // `SRL r`: shift right, bit 0 into the carry flag
                _ => (value >> 1, get_bit(value, 0)),
            };

            flags.zero = result == 0;
            flags.subtraction = false;
            flags.half_carry = false;
            flags.carry = carry;
            regs.set_register(opcode, result, bus);

            (1, 1)
        } else if opcode < 0x80 {
            // Instruction `BIT n, r` - 01nnnrrr
            // Set the zero flag to the complement of the Nth bit of register R
            flags.zero = !get_bit(value, n);
            flags.subtraction = false;
            flags.half_carry = true;

            (1, 1)
        } else if opcode < 0xC0 {
            // Instruction `RES n, r` - 10nnnrrr
            // Set Nth bit of register R to 0
            let result = set_bit(value, n, false);
            regs.set_register(opcode, result, bus);

            (1, 1)
        } else {
            // Instruction `SET n, r` - 11nnnrrr
            // Set Nth bit of register R to 1
            let result = set_bit(value, n, true);
            regs.set_register(opcode, result, bus);

            (1, 1)
        }
    }
}


/// `BIT n, r` never moves a register or a byte of memory: it only sets Z
/// to the complement of the tested bit (and N, H to their fixed values),
/// leaving C alone.
pub proof fn lemma_cb_bit_reads_only(flags: Flags, regs: Registers, b: BusView, opcode: u8)
    requires
        0x40 <= opcode < 0x80,
    ensures
        ({
            let r = spec_interpret_cb_opcode(flags, regs, b, opcode);
            &&& r.regs == regs
            &&& r.bus == b
            &&& r.flags.zero == !spec_bit(
                spec_get_register(regs, b, opcode),
                (opcode >> 3) % 8,
            )
            &&& r.flags.carry == flags.carry
        }),
{
}

/// `CB SET n, r` followed by `CB RES n, r`, same bit and same plain
/// register, brings the registers (and the untouched memory) back to where
/// they started, provided the bit began clear; on a byte whose bit already
/// stood, the pair would hand back the byte with that bit cleared instead.
pub proof fn lemma_cb_set_res_round_trip(flags: Flags, regs: Registers, b: BusView, opcode: u8)
    requires
        0xC0 <= opcode,
        opcode % 8 != 6,
        !spec_bit(spec_get_register(regs, b, opcode), (opcode >> 3) % 8),
    ensures
        ({
            let set = spec_interpret_cb_opcode(flags, regs, b, opcode);
            let res = spec_interpret_cb_opcode(
                set.flags,
                set.regs,
                set.bus,
                (opcode - 0x40) as u8,
            );
            &&& res.regs == regs
            &&& res.bus == b
        }),
{
    let res_opcode = (opcode - 0x40) as u8;
    assert(res_opcode % 8 == opcode % 8 && (res_opcode >> 3) % 8 == (opcode >> 3) % 8
        && 0x80 <= res_opcode < 0xC0) by (bit_vector)
        requires
            0xC0 <= opcode,
            res_opcode == (opcode - 0x40) as u8,
    ;

    let value = spec_get_register(regs, b, opcode);
    crate::common::lemma_set_bit_round_trip(value, (opcode >> 3) % 8);
}

} // verus!
