//! The CPU besides the decoder: the IME and HALT latches and the two
//! timer counters (DIV and TIMA) that every executed instruction advances.

use vstd::prelude::*;

use crate::bus::{spec_bus_read, spec_bus_write, Bus, BusView};
use crate::common::get_bit;
use crate::consts::{DIV, IF, TAC, TIMA, TMA};

pub mod interrupts;
pub mod opcodes;
pub mod opcodes_cb;

verus! {

/// The number of bytes to skip after interpreting the instruction, if the instruction is
/// 2 bytes long we will need to skip 2 bytes
pub type Bytes = u8;

/// The amounts of cycles and instruction takes
pub type Cycles = u8;

#[derive(PartialEq, Eq, Structural, Clone, Copy, Debug)]
pub struct Cpu {
    /// IME, standing for "Interrupt Master Enable" is basically a switch on whether
    /// interrupts should be handled or not
    pub ime: bool,

    /// Whether or not the CPU is halted
    pub halt: bool,

    /// A cycle counter for keeping track of when to increment the DIV register
    pub div_cycle_counter: u8,

    /// A cycle counter for keeping track of when to increment the TIMA register
    pub tima_cycle_counter: u16,
}

impl Cpu {
    /// Bounds on the two cycle counters that every mutation keeps; they let
    /// the counters be advanced by an instruction's cycles without overflow.
    pub open spec fn wf(&self) -> bool {
        &&& self.div_cycle_counter <= 69
        &&& self.tima_cycle_counter <= 255
    }

    pub fn new() -> (result: Self)
        ensures
            result == (Cpu { ime: false, halt: false, div_cycle_counter: 1, tima_cycle_counter: 0 }),
            result.wf(),
    {
        Self { ime: false, halt: false, div_cycle_counter: 1, tima_cycle_counter: 0 }
    }
}

/// The DIV counter and bus after one instruction of `cycles` machine cycles:
/// a write to DIV resets the internal counter, and each time the counter
/// fills (64 cycles, that is 256 clock ticks) the DIV register increments.
pub open spec fn spec_update_div(cpu: Cpu, b: BusView, cycles: u8) -> (Cpu, BusView) {
    let (counter, b0) = if b.needs_to_reset_div_register {
        (0int, BusView { needs_to_reset_div_register: false, ..b })
    } else {
        (cpu.div_cycle_counter as int, b)
    };
    let counter = counter + cycles;
    if counter >= 64 {
        (
            Cpu { div_cycle_counter: (counter - 64) as u8, ..cpu },
            BusView {
                io: b0.io.update(
                    0x04,
                    vstd::wrapping::u8_specs::wrapping_add(b0.io[0x04], 1),
                ),
                ..b0
            },
        )
    } else {
        (Cpu { div_cycle_counter: counter as u8, ..cpu }, b0)
    }
}

/// The number of machine cycles between two TIMA increments, selected by the
/// low two bits of TAC; one machine cycle is four dots.
pub open spec fn spec_tima_period(tac: u8) -> u16 {
    match (crate::common::spec_bit(tac, 1), crate::common::spec_bit(tac, 0)) {
        (false, false) => 256u16,
        (false, true) => 4u16,
        (true, false) => 16u16,
        (true, true) => 64u16,
    }
}

/// One TIMA increment: on overflow TIMA is reloaded from TMA and the timer
/// interrupt bit (IF bit 2) is raised, otherwise TIMA just goes up by one.
pub open spec fn spec_tima_step(b: BusView) -> BusView {
    let tima = spec_bus_read(b, TIMA);
    let tma = spec_bus_read(b, TMA);
    if tima == 0xFF {
        let b1 = spec_bus_write(b, IF, spec_bus_read(b, IF) | 0b00000100);
        spec_bus_write(b1, TIMA, tma)
    } else {
        spec_bus_write(b, TIMA, (tima + 1) as u8)
    }
}

/// The bus and cycle counter after paying out every full TIMA period that
/// the counter holds.
pub open spec fn spec_tima_loop(b: BusView, counter: u16, period: u16) -> (BusView, u16)
    decreases counter,
{
    if period == 0 || counter < period {
        (b, counter)
    } else {
        spec_tima_loop(spec_tima_step(b), (counter - period) as u16, period)
    }
}

/// The TIMA counter and bus after one instruction of `cycles` machine
/// cycles: nothing happens unless TAC bit 2 enables the timer.
pub open spec fn spec_update_tima(cpu: Cpu, b: BusView, cycles: u8) -> (Cpu, BusView) {
    let tac = spec_bus_read(b, TAC);
    if !crate::common::spec_bit(tac, 2) {
        (cpu, b)
    } else {
        let counter = (cpu.tima_cycle_counter + cycles) as u16;
        let (b1, counter1) = spec_tima_loop(b, counter, spec_tima_period(tac));
        (Cpu { tima_cycle_counter: counter1, ..cpu }, b1)
    }
}

/// The timer law: with the timer enabled and TIMA full, paying in a full
/// period (and less than two) overflows it once, so TIMA reloads from TMA
/// and the timer interrupt, IF bit 2, is raised.
pub proof fn lemma_tima_overflow(cpu: Cpu, b: BusView, cycles: u8)
    requires
        b.io.len() == 0x80,
        crate::common::spec_bit(spec_bus_read(b, TAC), 2),
        spec_bus_read(b, TIMA) == 0xFF,
        spec_tima_period(spec_bus_read(b, TAC)) <= cpu.tima_cycle_counter + cycles,
        cpu.tima_cycle_counter + cycles < 2 * spec_tima_period(spec_bus_read(b, TAC)),
    ensures
        spec_bus_read(spec_update_tima(cpu, b, cycles).1, TIMA) == spec_bus_read(b, TMA),
        crate::common::spec_bit(spec_bus_read(spec_update_tima(cpu, b, cycles).1, IF), 2),
{
    reveal_with_fuel(spec_tima_loop, 3);

    let tac = spec_bus_read(b, TAC);
    let period = spec_tima_period(tac);
    assert(period > 0);

    let counter = (cpu.tima_cycle_counter + cycles) as u16;
    assert(period <= counter < 2 * period);
    assert(spec_tima_loop(b, counter, period).0 == spec_tima_step(b));

    let stepped = spec_tima_step(b);
    assert(stepped == spec_bus_write(
        spec_bus_write(b, IF, spec_bus_read(b, IF) | 0b00000100),
        TIMA,
        spec_bus_read(b, TMA),
    ));
    assert(spec_bus_read(stepped, TIMA) == spec_bus_read(b, TMA));

    let flag = spec_bus_read(b, IF);
    assert(spec_bus_read(stepped, IF) == flag | 0b00000100);
    assert(((flag | 0b00000100) >> 2u8) & 1 == 1) by (bit_vector);
}

impl Cpu {
    /// Increment the div register every 64 cycles
    pub fn update_div_register(&mut self, bus: &mut Bus, cycles_num: u8)
        requires
            old(self).wf(),
            old(bus).wf(),
            cycles_num <= 11,
        ensures
            final(self).wf(),
            final(bus).wf(),
            (*final(self), final(bus)@) == spec_update_div(*old(self), old(bus)@, cycles_num),
    {
        // When we write to the div register we also reset the cycle counter:
        // a DIV write clears the whole divider
        if bus.needs_to_reset_div_register {
            self.div_cycle_counter = 0;
            bus.needs_to_reset_div_register = false;
        }

        self.div_cycle_counter += cycles_num;

        if self.div_cycle_counter >= 64 {
            self.div_cycle_counter -= 64;

            // Increment the DIV register, by using IO directly, otherwise writing to DIV
            // will trigger a DIV reset
            let new_div = bus.read(DIV).wrapping_add(1);
            bus.io[0x04] = new_div;
        }

        proof {
            assert(bus@ =~= spec_update_div(*old(self), old(bus)@, cycles_num).1);
        }
    }

    /// Increase the tima register based on the contents of the timer control register
    pub fn update_tima_register(&mut self, bus: &mut Bus, cycles_num: u8)
        requires
            old(self).wf(),
            old(bus).wf(),
            cycles_num <= 11,
        ensures
            final(self).wf(),
            final(bus).wf(),
            (*final(self), final(bus)@) == spec_update_tima(*old(self), old(bus)@, cycles_num),
    {
        let timer_control = bus.read(TAC);

        // The third bit of timer control indicates whether or not we are counting
        if !get_bit(timer_control, 2) {
            return;
        }

        self.tima_cycle_counter += cycles_num as u16;

        // This is the threshold at which we increment the timer counter
        let increment_every: u16 = match (get_bit(timer_control, 1), get_bit(timer_control, 0)) {
            (false, false) => 256,
            (false, true) => 4,
            (true, false) => 16,
            (true, true) => 64,
        };

        let ghost entry_bus: BusView = bus@;
        let ghost entry_counter: u16 = self.tima_cycle_counter;

        while self.tima_cycle_counter >= increment_every
            invariant
                bus.wf(),
                increment_every == spec_tima_period(timer_control),
                increment_every > 0,
                timer_control == spec_bus_read(old(bus)@, TAC),
                crate::common::spec_bit(timer_control, 2),
                entry_bus == old(bus)@,
                entry_counter == old(self).tima_cycle_counter + cycles_num,
                self.ime == old(self).ime,
                self.halt == old(self).halt,
                self.div_cycle_counter == old(self).div_cycle_counter,
                spec_tima_loop(bus@, self.tima_cycle_counter, increment_every)
                    == spec_tima_loop(entry_bus, entry_counter, increment_every),
            decreases self.tima_cycle_counter,
        {
            let timer_counter = bus.read(TIMA);
            let timer_module = bus.read(TMA);

            self.tima_cycle_counter -= increment_every;

            if timer_counter == 0xFF {
                // When overflowing, we both trigger a timer interrupt and we reset the
                // value of the timer counter to that of the timer module
                let raised = bus.read(IF) | 0b00000100;
                bus.write(IF, raised);
                bus.write(TIMA, timer_module);
            } else {
                // When not overflowing, we just increment the timer
                bus.write(TIMA, timer_counter + 1);
            }
        }
    }
}

} // verus!
