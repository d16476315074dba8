//! The interrupt controller: sampling IE and IF between instructions and
//! dispatching to the fixed vectors, lowest bit first.

use vstd::prelude::*;

use crate::bus::{spec_bus_read, spec_bus_write, Bus, BusView};
use crate::common::{get_bit, set_bit, spec_bit, spec_set_bit, spec_split, split_u16_into_two_u8s};
use crate::consts::IF;
use crate::cpu::Cpu;
use crate::registers::Registers;

verus! {

/// The three interrupt sources the machine raises, in priority order.
#[derive(Clone, Copy, PartialEq, Eq, Structural, Debug)]
pub enum Interrupt {
    /// Triggers when vblank is entered
    VBlank,

    /// Triggers if:
    /// - STAT.3: Just entered PPU mode 0
    /// - STAT.4: Just entered PPU mode 1
    /// - STAT.5: Just entered PPU mode 2
    /// - STAT.6: LYC == LY
    Stat,

    /// Triggers when TIMA register overflows
    Timer,
}

/// The bit this interrupt occupies in IE and IF.
pub open spec fn spec_interrupt_bit(interrupt: Interrupt) -> u8 {
    match interrupt {
        Interrupt::VBlank => 0,
        Interrupt::Stat => 1,
        Interrupt::Timer => 2,
    }
}

/// The fixed address this interrupt jumps to.
pub open spec fn spec_interrupt_vector(interrupt: Interrupt) -> u16 {
    match interrupt {
        Interrupt::VBlank => 0x40,
        Interrupt::Stat => 0x48,
        Interrupt::Timer => 0x50,
    }
}

/// The registers and bus after the dispatch itself: PC is pushed like a
/// `CALL` pushes it and then set to the interrupt's vector.
pub open spec fn spec_dispatch_interrupt(
    interrupt: Interrupt,
    regs: Registers,
    b: BusView,
) -> (Registers, BusView) {
    let (p, c) = spec_split(regs.pc);
    let sp1 = vstd::wrapping::u16_specs::wrapping_sub(regs.sp, 1);
    let b1 = spec_bus_write(b, sp1, p);
    let sp2 = vstd::wrapping::u16_specs::wrapping_sub(regs.sp, 2);
    let b2 = spec_bus_write(b1, sp2, c);
    (
        Registers { sp: sp2, pc: spec_interrupt_vector(interrupt), ..regs },
        b2,
    )
}

/// The whole machine after one pending interrupt is handled: with IME set
/// the IF bit is acknowledged, PC is pushed and redirected, IME drops and
/// the CPU un-halts, taking 5 machine cycles; with IME clear the CPU only
/// un-halts and nothing else changes.
pub open spec fn spec_handle_interrupt(
    interrupt: Interrupt,
    cpu: Cpu,
    regs: Registers,
    b: BusView,
) -> (Cpu, Registers, BusView, u8) {
    if cpu.ime {
        let acknowledged = spec_set_bit(spec_bus_read(b, IF), spec_interrupt_bit(interrupt), false);
        let b1 = spec_bus_write(b, IF, acknowledged);
        let (regs2, b2) = spec_dispatch_interrupt(interrupt, regs, b1);
        (Cpu { ime: false, halt: false, ..cpu }, regs2, b2, 5)
    } else {
        (Cpu { halt: false, ..cpu }, regs, b, 0)
    }
}

/// The machine after the between-instructions interrupt sample: the lowest
/// set bit of `IE & IF` among the dispatched sources (VBlank, then STAT,
/// then Timer) is handled; any other pending bit (serial or joypad, whose
/// vectors this machine does not serve) still wakes a halted CPU.
pub open spec fn spec_execute_interrupts(
    cpu: Cpu,
    regs: Registers,
    b: BusView,
) -> (Cpu, Registers, BusView, u8) {
    let interrupt_enable = b.ie;
    let interrupt_flag = spec_bus_read(b, IF);
    if spec_bit(interrupt_enable, 0) && spec_bit(interrupt_flag, 0) {
        spec_handle_interrupt(Interrupt::VBlank, cpu, regs, b)
    } else if spec_bit(interrupt_enable, 1) && spec_bit(interrupt_flag, 1) {
        spec_handle_interrupt(Interrupt::Stat, cpu, regs, b)
    } else if spec_bit(interrupt_enable, 2) && spec_bit(interrupt_flag, 2) {
        spec_handle_interrupt(Interrupt::Timer, cpu, regs, b)
    } else if interrupt_enable & interrupt_flag & 0x1F != 0 {
        (Cpu { halt: false, ..cpu }, regs, b, 0)
    } else {
        (cpu, regs, b, 0)
    }
}

impl Cpu {
    /// We start executing an interrupt when both the interrupt enable and interrupt flag
    /// are enabled; the returned value is the machine cycles the dispatch consumed.
    pub fn execute_interrupts(&mut self, registers: &mut Registers, bus: &mut Bus) -> (cycles: u8)
        requires
            old(bus).wf(),
        ensures
            final(bus).wf(),
            (*final(self), *final(registers), final(bus)@, cycles) == spec_execute_interrupts(
                *old(self),
                *old(registers),
                old(bus)@,
            ),
            cycles == 5 || cycles == 0,
    {
        let interrupt_enable = bus.ie;
        let interrupt_flag = bus.read(IF);

        if get_bit(interrupt_enable, 0) && get_bit(interrupt_flag, 0) {
            return self.handle_interrupt(Interrupt::VBlank, registers, bus);
        }

        if get_bit(interrupt_enable, 1) && get_bit(interrupt_flag, 1) {
            return self.handle_interrupt(Interrupt::Stat, registers, bus);
        }

        if get_bit(interrupt_enable, 2) && get_bit(interrupt_flag, 2) {
            return self.handle_interrupt(Interrupt::Timer, registers, bus);
        }

        // A pending serial or joypad interrupt is never dispatched (this
        // machine serves no vector for them) but it still wakes the CPU
        if interrupt_enable & interrupt_flag & 0x1F != 0 {
            self.halt = false;
        }

        0
    }

    /// With IME set we acknowledge the interrupt's IF bit and dispatch it; either way
    /// the CPU leaves HALT, as a pending interrupt always wakes it.
    fn handle_interrupt(&mut self, interrupt: Interrupt, registers: &mut Registers, bus: &mut Bus) -> (cycles: u8)
        requires
            old(bus).wf(),
        ensures
            final(bus).wf(),
            (*final(self), *final(registers), final(bus)@, cycles) == spec_handle_interrupt(
                interrupt,
                *old(self),
                *old(registers),
                old(bus)@,
            ),
            cycles == 5 || cycles == 0,
    {
        if self.ime {
            let bit = match interrupt {
                Interrupt::VBlank => 0,
                Interrupt::Stat => 1,
                Interrupt::Timer => 2,
            };
            let acknowledged = set_bit(bus.read(IF), bit, false);
            bus.write(IF, acknowledged);

            self.dispatch_interrupt(interrupt, registers, bus);

            // We disable IME so interrupts are not called immediately, interrupts
            // typically end with a `RETI` instruction that turns this back on
            self.ime = false;

            // And we also un-halt the CPU
            self.halt = false;

            5
        } else {
            // A pending interrupt wakes the CPU even when IME is off, but IF and
            // IME stay as they are
            self.halt = false;

            0
        }
    }

    /// We `CALL` the arbitrary address specified by the interrupt
    fn dispatch_interrupt(&self, interrupt: Interrupt, registers: &mut Registers, bus: &mut Bus)
        requires
            old(bus).wf(),
        ensures
            final(bus).wf(),
            (*final(registers), final(bus)@) == spec_dispatch_interrupt(
                interrupt,
                *old(registers),
                old(bus)@,
            ),
    {
        let return_address: u16 = match interrupt {
            Interrupt::VBlank => 0x40,
            Interrupt::Stat => 0x48,
            Interrupt::Timer => 0x50,
        };

        // This is like the call instruction but we don't add three
        let (p, c) = split_u16_into_two_u8s(registers.pc);
        registers.sp = registers.sp.wrapping_sub(1);
        bus.write(registers.sp, p);
        registers.sp = registers.sp.wrapping_sub(1);
        bus.write(registers.sp, c);
        registers.pc = return_address;
    }
}

} // verus!
