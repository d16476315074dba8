//! MBC3 cartridges: up to 2 MiB of banked rom and 32 KiB of banked ram.
//! The real-time clock of the hardware is not modelled.

use vstd::prelude::*;

use crate::bus::{
    calculate_ram_address, calculate_rom_address, get_ram_size, get_rom_size, spec_calc_ram_address,
    spec_calc_rom_address, spec_pad, spec_ram_size, spec_rom_size, zero_vec, MbcView,
};
use crate::consts::ROM_BANK_SIZE;

verus! {

pub struct Mbc3 {
    pub rom: Vec<u8>,
    pub external_ram: Vec<u8>,
    pub are_ram_and_timer_enabled: bool,
    pub rom_size: usize,
    pub ram_size: usize,
    pub ram_bank_number: usize,
    pub rom_bank_number: usize,
}

impl View for Mbc3 {
    type V = MbcView;

    open spec fn view(&self) -> MbcView {
        MbcView::Mbc3 {
            rom: self.rom@,
            ram: self.external_ram@,
            ram_enabled: self.are_ram_and_timer_enabled,
            rom_bank: self.rom_bank_number as int,
            ram_bank: self.ram_bank_number as int,
        }
    }
}

impl Mbc3 {
    pub open spec fn wf(&self) -> bool {
        &&& self.rom@.len() == self.rom_size
        &&& self.external_ram@.len() == self.ram_size
        &&& 0x8000 <= self.rom_size <= 0x800000
        &&& self.ram_size <= 0x20000
        &&& self.rom_bank_number <= 0x7F
        &&& self.ram_bank_number <= 0x03
    }

    pub fn new(rom: Vec<u8>) -> (result: Self)
        requires
            rom@.len() >= 0x150,
        ensures
            result.wf(),
            result@ == (MbcView::Mbc3 {
                rom: spec_pad(rom@, spec_rom_size(rom@)),
                ram: Seq::new(spec_ram_size(rom@), |i: int| 0u8),
                ram_enabled: false,
                rom_bank: 0int,
                ram_bank: 0int,
            }),
    {
        let ghost given_rom: Seq<u8> = rom@;
        let mut rom = rom;
        let rom_size = get_rom_size(&rom);
        let ram_size = get_ram_size(&rom);

        // Resizing given rom
        rom.resize(rom_size, 0);

        proof {
            assert(rom@ =~= spec_pad(given_rom, rom_size as nat));
        }

        // Creating the new ram
        let ram: Vec<u8> = zero_vec(ram_size);

        Self {
            rom,
            external_ram: ram,
            are_ram_and_timer_enabled: false,
            rom_bank_number: 0,
            ram_bank_number: 0,
            rom_size,
            ram_size,
        }
    }

    /// Section 0 is just the first bank
    pub fn get_rom_section_0(&self, address: u16) -> (result: u8)
        requires
            self.wf(),
            address < 0x4000,
        ensures
            result == self.rom@[address as int],
    {
        self.rom[address as usize]
    }

    /// Section 1 is like MBC1's except there's no bug that prohibits access to some banks
    pub fn get_rom_section_1(&self, address: u16) -> (result: u8)
        requires
            self.wf(),
            0x4000 <= address < 0x8000,
        ensures
            result == self.rom@[spec_calc_rom_address(
                self.rom_size as int,
                (address - ROM_BANK_SIZE) as u16,
                self.rom_bank_number as int,
            )],
    {
        let new_address = calculate_rom_address(
            self.rom_size,
            address - ROM_BANK_SIZE as u16,
            self.rom_bank_number,
        );

        self.rom[new_address]
    }

    /// Reads from disabled or absent ram return 0xFF.
    pub fn get_external_ram(&self, address: u16) -> (result: u8)
        requires
            self.wf(),
            address < 0x2000,
        ensures
            result == (if !self.are_ram_and_timer_enabled || self.ram_size == 0 {
                0xFFu8
            } else {
                self.external_ram@[spec_calc_ram_address(
                    self.ram_size as int,
                    address,
                    self.ram_bank_number as int,
                )]
            }),
    {
        if !self.are_ram_and_timer_enabled || self.ram_size == 0 {
            return 0xFF;
        }

        let new_address = calculate_ram_address(self.ram_size, address, self.ram_bank_number);
        self.external_ram[new_address]
    }

    /// Writes to disabled or absent ram are dropped.
    pub fn set_external_ram(&mut self, address: u16, value: u8)
        requires
            old(self).wf(),
            address < 0x2000,
        ensures
            final(self).wf(),
            final(self).rom@ == old(self).rom@,
            final(self).are_ram_and_timer_enabled == old(self).are_ram_and_timer_enabled,
            final(self).rom_bank_number == old(self).rom_bank_number,
            final(self).ram_bank_number == old(self).ram_bank_number,
            final(self).rom_size == old(self).rom_size,
            final(self).ram_size == old(self).ram_size,
            final(self).external_ram@ == (if !old(self).are_ram_and_timer_enabled || old(
                self,
            ).ram_size == 0 {
                old(self).external_ram@
            } else {
                old(self).external_ram@.update(
                    spec_calc_ram_address(
                        old(self).ram_size as int,
                        address,
                        old(self).ram_bank_number as int,
                    ),
                    value,
                )
            }),
    {
        if !self.are_ram_and_timer_enabled || self.ram_size == 0 {
            return;
        }

        let new_address = calculate_ram_address(self.ram_size, address, self.ram_bank_number);
        self.external_ram[new_address] = value;
    }

    pub fn direct_rom_write(&mut self, address: u16, value: u8)
        requires
            old(self).wf(),
            address < old(self).rom_size,
        ensures
            final(self).wf(),
            final(self).rom@ == old(self).rom@.update(address as int, value),
            final(self).external_ram@ == old(self).external_ram@,
            final(self).are_ram_and_timer_enabled == old(self).are_ram_and_timer_enabled,
            final(self).rom_bank_number == old(self).rom_bank_number,
            final(self).ram_bank_number == old(self).ram_bank_number,
            final(self).rom_size == old(self).rom_size,
            final(self).ram_size == old(self).ram_size,
    {
        self.rom[address as usize] = value;
    }

    pub fn signal_rom_write(&mut self, address: u16, value: u8)
        requires
            old(self).wf(),
            address < 0x8000,
        ensures
            final(self).wf(),
            final(self).rom@ == old(self).rom@,
            final(self).external_ram@ == old(self).external_ram@,
            final(self).rom_size == old(self).rom_size,
            final(self).ram_size == old(self).ram_size,
            final(self).are_ram_and_timer_enabled == (if address <= 0x1FFF {
                value & 0x0F == 0xA
            } else {
                old(self).are_ram_and_timer_enabled
            }),
            final(self).rom_bank_number as int == (if 0x2000 <= address && address <= 0x3FFF {
                (value % 0x80) as int
            } else {
                old(self).rom_bank_number as int
            }),
            final(self).ram_bank_number as int == (if 0x4000 <= address && address <= 0x5FFF {
                (value % 0x04) as int
            } else {
                old(self).ram_bank_number as int
            }),
    {
        // You enable or disable ram and the timer by writing to 0000-1FFF, it turns on if
        // the game writes "A", and any other number will turn it off for some reason
        if address <= 0x1FFF {
            self.are_ram_and_timer_enabled = value & 0x0F == 0xA;
            return;
        }

        // Address 2000-3FFF is the seven bit rom bank number register
        if 0x2000 <= address && address <= 0x3FFF {
            self.rom_bank_number = (value % 0x80) as usize;
            return;
        }

        // Address 4000-5FFF is the two bit ram bank number register
        if 0x4000 <= address && address <= 0x5FFF {
            self.ram_bank_number = (value % 0x04) as usize;
            return;
        }
    }

} // impl Mbc3

} // verus!
