//! The most simple MBC, it just has rom and external ram, no banks or anything.

use vstd::prelude::*;

use crate::bus::{spec_pad, vector_to_array, zero_vec, MbcView};
use crate::consts::{EXTERNAL_RAM_SIZE, ROM_SIZE};

verus! {

pub struct NoMbc {
    pub rom: Vec<u8>,
    pub external_ram: Vec<u8>,
}

impl View for NoMbc {
    type V = MbcView;

    open spec fn view(&self) -> MbcView {
        MbcView::NoMbc { rom: self.rom@, ram: self.external_ram@ }
    }
}

impl NoMbc {
    pub open spec fn wf(&self) -> bool {
        &&& self.rom@.len() == ROM_SIZE
        &&& self.external_ram@.len() == EXTERNAL_RAM_SIZE
    }

    /// A fixed 32 KiB of rom (the given image, zero padded) and 8 KiB of ram.
    pub fn new(rom: Vec<u8>) -> (result: Self)
        ensures
            result.wf(),
            result@ == (MbcView::NoMbc {
                rom: spec_pad(rom@, ROM_SIZE as nat),
                ram: Seq::new(EXTERNAL_RAM_SIZE as nat, |i: int| 0u8),
            }),
    {
        Self { rom: vector_to_array(rom, ROM_SIZE), external_ram: zero_vec(EXTERNAL_RAM_SIZE) }
    }

    pub fn get_rom_section_0(&self, address: u16) -> (result: u8)
        requires
            self.wf(),
            address < 0x8000,
        ensures
            result == self.rom@[address as int],
    {
        self.rom[address as usize]
    }

    pub fn get_rom_section_1(&self, address: u16) -> (result: u8)
        requires
            self.wf(),
            address < 0x8000,
        ensures
            result == self.rom@[address as int],
    {
        self.rom[address as usize]
    }

    pub fn get_external_ram(&self, address: u16) -> (result: u8)
        requires
            self.wf(),
            address < 0x2000,
        ensures
            result == self.external_ram@[address as int],
    {
        self.external_ram[address as usize]
    }

    pub fn set_external_ram(&mut self, address: u16, value: u8)
        requires
            old(self).wf(),
            address < 0x2000,
        ensures
            final(self).wf(),
            final(self).rom@ == old(self).rom@,
            final(self).external_ram@ == old(self).external_ram@.update(address as int, value),
    {
        self.external_ram[address as usize] = value;
    }

    pub fn direct_rom_write(&mut self, address: u16, value: u8)
        requires
            old(self).wf(),
            address < 0x8000,
        ensures
            final(self).wf(),
            final(self).external_ram@ == old(self).external_ram@,
            final(self).rom@ == old(self).rom@.update(address as int, value),
    {
        self.rom[address as usize] = value;
    }

    // We do nothing when writing to ROM
    pub fn signal_rom_write(&mut self, address: u16, value: u8)
        ensures
            *final(self) == *old(self),
    {
    }

} // impl NoMbc

} // verus!
