//! Core of a cycle-stepped Game Boy (DMG) emulator: CPU fetch-decode-execute,
//! pixel-pipeline PPU, interrupt controller, timers, OAM DMA and the
//! memory-bank-controller cartridge logic behind an address-mapped bus.
//!
//! The machine is advanced one instruction at a time with [`GameBoy::step`],
//! or a whole frame at a time with [`GameBoy::step_for_a_frame`]; the host
//! reads the 160x144 framebuffer out of [`gpu::Gpu::screen`] between steps
//! and injects button states through [`GameBoy::joypad`].

use vstd::prelude::*;

pub mod bus;
pub mod common;
pub mod consts;
pub mod cpu;
pub mod errors;
pub mod flags;
pub mod gpu;
pub mod joypad;
pub mod registers;
pub mod screen;

use bus::{
    spec_bus_new, spec_bus_read, spec_bus_same_except_io, spec_next, spec_oam_copy, Bus, BusView,
};
use consts::{DMA, JOYP};
use cpu::interrupts::spec_execute_interrupts;
use cpu::opcodes::{spec_interpret_opcode, spec_is_implemented};
use cpu::{spec_update_div, spec_update_tima, Cpu};
use errors::EmuError;
use flags::{spec_flags_new, Flags};
use gpu::pixel_transfer::Layers;
use gpu::{Gpu, GpuState};
use joypad::{spec_joyp_byte, Joypad};
use registers::{spec_registers_new, Registers};

verus! {

pub struct GameBoy {
    pub bus: Bus,
    pub cpu: Cpu,
    pub flags: Flags,
    pub gpu: Gpu,
    pub joypad: Joypad,
    pub registers: Registers,

    /// The layers are completely decoupled from the other parts of the emulator
    pub layers: Layers,
}

/// The machine state after the CPU phase of one step: the decoded
/// instruction, the PC advance, the interrupt sample, the OAM DMA drain
/// and the two timers, in that order. The instruction's cycles plus the
/// five an interrupt dispatch takes (the last element) are what the
/// timers here and the PPU dots in `step` consume.
pub open spec fn spec_step_cpu_phase(
    cpu: Cpu,
    flags: Flags,
    regs: Registers,
    b: BusView,
    opcode: u8,
) -> (Cpu, Flags, Registers, BusView, u8) {
    let r = spec_interpret_opcode(cpu, flags, regs, b, opcode);
    let regs2 = Registers {
        pc: vstd::wrapping::u16_specs::wrapping_add(r.regs.pc, r.bytes as u16),
        ..r.regs
    };
    let (cpu3, regs3, b3, interrupt_cycles) = spec_execute_interrupts(r.cpu, regs2, r.bus);
    let cycles = (r.cycles + interrupt_cycles) as u8;
    let b4 = if b3.needs_to_dispatch_oam_dma {
        let copied = spec_oam_copy(b3, (spec_bus_read(b3, DMA) * 0x100) as u16, 0xA0);
        BusView { needs_to_dispatch_oam_dma: false, ..copied }
    } else {
        b3
    };
    let (cpu5, b5) = spec_update_div(cpu3, b4, cycles);
    let (cpu6, b6) = spec_update_tima(cpu5, b5, cycles);
    (cpu6, r.flags, regs3, b6, cycles)
}

impl GameBoy {
    /// What every constructor establishes and every step preserves.
    pub open spec fn wf(&self) -> bool {
        &&& self.bus.wf()
        &&& self.cpu.wf()
        &&& self.gpu.wf()
    }

    /// A machine at the boot-ROM handoff state over the given rom image,
    /// which must hold at least the full cartridge header.
    pub fn new_from_rom_array(rom: Vec<u8>) -> (result: Self)
        requires
            rom@.len() >= 0x150,
        ensures
            result.wf(),
            result.bus@ == spec_bus_new(rom@),
            result.cpu == (Cpu { ime: false, halt: false, div_cycle_counter: 1, tima_cycle_counter: 0 }),
            result.flags == spec_flags_new(),
            result.registers == spec_registers_new(),
            result.gpu.state == GpuState::OamSearch,
            result.gpu.ticks == 0,
            result.gpu.x == 0,
            result.gpu.y == 0,
            result.gpu.fifo@.len() == 0,
            result.gpu.sprites@.len() == 0,
            result.gpu.dump_slice,
            result.gpu.number_of_slices_pushed == 0,
            result.gpu.virtual_x == 0,
            forall|i: int, j: int|
                0 <= i < 144 && 0 <= j < 160 ==> (#[trigger] result.gpu.screen@[i]@[j])
                    == gpu::Color::Light,
            !result.joypad.is_a_pressed && !result.joypad.is_b_pressed
                && !result.joypad.is_select_pressed && !result.joypad.is_start_pressed,
            !result.joypad.is_right_pressed && !result.joypad.is_left_pressed
                && !result.joypad.is_up_pressed && !result.joypad.is_down_pressed,
    {
        Self {
            bus: Bus::new_from_rom_array(rom),
            cpu: Cpu::new(),
            flags: Flags::new(),
            gpu: Gpu::new(),
            joypad: Joypad::new(),
            registers: Registers::new(),
            layers: Layers::new(),
        }
    }

    /// Parse and run the next opcode, and tick the other pieces of hardware.
    ///
    /// A byte outside the opcode tables stops the machine before anything
    /// moves and is reported with its address; every implemented opcode
    /// (and every halted step) returns `Ok`.
    #[verifier::rlimit(100)]
    #[verifier::spinoff_prover]
    pub fn step(&mut self) -> (result: Result<(), EmuError>)
        requires
            old(self).wf(),
        ensures
            final(self).wf(),
            ({
                let opcode = spec_next(old(self).bus@, old(self).registers, 0);
                let p = spec_step_cpu_phase(
                    old(self).cpu,
                    old(self).flags,
                    old(self).registers,
                    old(self).bus@,
                    opcode,
                );
                &&& (result is Err <==> (!old(self).cpu.halt && !spec_is_implemented(opcode)))
                &&& (result is Err ==> *final(self) == *old(self) && result == Err::<(), EmuError>(
                    EmuError::UnimplementedOpcode(opcode, old(self).registers.pc),
                ))
                &&& (result is Ok ==> final(self).cpu == p.0)
                &&& (result is Ok ==> final(self).flags == p.1)
                &&& (result is Ok ==> final(self).registers == p.2)
                &&& (result is Ok ==> final(self).joypad == old(self).joypad)
                &&& (result is Ok ==> spec_bus_same_except_io(p.3, final(self).bus@, 0x00, 0x0F, 0x41, 0x44))
                &&& (result is Ok ==> spec_bus_read(final(self).bus@, JOYP) == spec_joyp_byte(
                    old(self).joypad,
                    p.3,
                ))
                &&& (result is Ok ==> spec_bus_read(final(self).bus@, 0xFF44)
                    == final(self).gpu.y)
            }),
    {
        let opcode = self.bus.next(0, &self.registers);

        if !self.cpu.halt && !cpu::opcodes::is_opcode_implemented(opcode) {
            return Err(EmuError::UnimplementedOpcode(opcode, self.registers.pc));
        }

        // CPU - Opcodes
        let (bytes, cycles) = self.cpu.interpret_opcode(
            opcode,
            &mut self.flags,
            &mut self.registers,
            &mut self.bus,
        );

        proof {
            // The instruction paid at least one cycle, so the PPU below runs
            // at least four dots and publishes LY
            cpu::opcodes::lemma_step_takes_a_cycle(
                old(self).cpu,
                old(self).flags,
                old(self).registers,
                old(self).bus@,
                opcode,
            );
        }

        self.registers.pc = self.registers.pc.wrapping_add(bytes as u16);

        // CPU - Interrupts; a dispatch costs the machine five more cycles
        let interrupt_cycles = self.cpu.execute_interrupts(&mut self.registers, &mut self.bus);
        let cycles = cycles + interrupt_cycles;

        // CPU - OAM DMA Transfer
        if self.bus.needs_to_dispatch_oam_dma {
            self.bus.dispatch_oam_transfer();
            self.bus.needs_to_dispatch_oam_dma = false;
        }

        // CPU - Timer registers
        self.cpu.update_div_register(&mut self.bus, cycles);
        self.cpu.update_tima_register(&mut self.bus, cycles);

        // GPU: a GPU tick is 1/4 of a machine cycle, so the GPU runs four
        // dots for every cycle the instruction took
        let ghost cpu_phase_bus: BusView = self.bus@;
        let ghost frozen_cpu: Cpu = self.cpu;
        let ghost frozen_flags: Flags = self.flags;
        let ghost frozen_regs: Registers = self.registers;

        let dots: u16 = cycles as u16 * 4;
        let mut dot: u16 = 0;

        while dot < dots
            invariant
                dot <= dots,
                self.bus.wf(),
                self.gpu.wf(),
                self.cpu == frozen_cpu,
                self.flags == frozen_flags,
                self.registers == frozen_regs,
                self.joypad == old(self).joypad,
                spec_bus_same_except_io(cpu_phase_bus, self.bus@, 0x0F, 0x41, 0x44, 0x44),
                dot > 0 ==> spec_bus_read(self.bus@, 0xFF44) == self.gpu.y,
            decreases dots - dot,
        {
            self.gpu.tick(&mut self.layers, &mut self.bus);
            dot += 1;
        }

        // JOYPAD: the refresh models the hardware driving the button lines,
        // so it lands in the register directly rather than through the
        // program-facing write (which reaches only the select bits)
        let joyp = self.joypad.to_byte(&self.bus);
        self.bus.io[0x00] = joyp;

        Ok(())
    }

    /// Calls the `step` function repeatedly and returns once a frame has
    /// finished rendering: the GPU's frame counter has moved (a VBlank ran
    /// to its end) and the machine stands at the next OAM search. A failing
    /// step is handed through unchanged, and a machine that produces no
    /// frame within a generous step budget (far beyond the 70224 dots a
    /// frame takes) fails fast instead of hanging the host.
    pub fn step_for_a_frame(&mut self) -> (result: Result<(), EmuError>)
        requires
            old(self).wf(),
        ensures
            final(self).wf(),
            result is Ok ==> final(self).gpu.state == GpuState::OamSearch
                && final(self).gpu.finished_frames != old(self).gpu.finished_frames,
            ({
                let first_opcode = spec_next(old(self).bus@, old(self).registers, 0);
                !old(self).cpu.halt && !spec_is_implemented(first_opcode) ==> *final(self)
                    == *old(self) && result == Err::<(), EmuError>(
                    EmuError::UnimplementedOpcode(first_opcode, old(self).registers.pc),
                )
            }),
            forall|op: u8, pc: u16|
                result == Err::<(), EmuError>(EmuError::UnimplementedOpcode(op, pc)) ==> op
                    == spec_next(final(self).bus@, final(self).registers, 0)
                    && pc == final(self).registers.pc && !final(self).cpu.halt
                    && !spec_is_implemented(op),
            result is Err ==> result == Err::<(), EmuError>(EmuError::FrameDidNotFinish) || (
            exists|op: u8, pc: u16|
                result == Err::<(), EmuError>(EmuError::UnimplementedOpcode(op, pc))),
    {
        let start_frames = self.gpu.finished_frames;

        // A frame is a few tens of thousands of steps; running out of this
        // budget means the machine is wedged
        let mut fuel: u32 = 5_000_000;

        while fuel > 0
            invariant
                self.wf(),
                start_frames == old(self).gpu.finished_frames,
                ({
                    let first_opcode = spec_next(old(self).bus@, old(self).registers, 0);
                    !old(self).cpu.halt && !spec_is_implemented(first_opcode) ==> *self
                        == *old(self) && fuel == 5_000_000
                }),
            decreases fuel,
        {
            // The frame counter moves on the VBlank hand-over; waiting for
            // the OAM search after it leaves the machine at the top of the
            // next frame
            if self.gpu.finished_frames != start_frames && self.gpu.state == GpuState::OamSearch {
                return Ok(());
            }

            match self.step() {
                Ok(()) => {},
                Err(error) => {
                    return Err(error);
                },
            }

            fuel -= 1;
        }

        if self.gpu.finished_frames != start_frames && self.gpu.state == GpuState::OamSearch {
            Ok(())
        } else {
            Err(EmuError::FrameDidNotFinish)
        }
    }
}

} // verus!
