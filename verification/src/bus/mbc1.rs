//! MBC1 cartridges: up to 2 MiB of banked rom and 32 KiB of banked ram,
//! switched through writes into the rom address range.

use vstd::prelude::*;

use crate::bus::{
    calculate_ram_address, calculate_rom_address, get_ram_size, get_rom_size, spec_calc_ram_address,
    spec_calc_rom_address, spec_pad, spec_ram_size, spec_rom_size, zero_vec, MbcView,
};
use crate::common::{get_bit, spec_bit};
use crate::consts::ROM_BANK_SIZE;

verus! {

#[derive(Clone, Copy, PartialEq, Eq, Structural, Debug)]
pub enum BankingMode {
    Simple,
    Advanced,
}

pub struct Mbc1 {
    pub rom: Vec<u8>,
    pub external_ram: Vec<u8>,
    pub is_ram_enabled: bool,
    pub rom_bank_number: usize,
    pub ram_bank_number: usize,
    pub banking_mode: BankingMode,
    pub rom_size: usize,
    pub ram_size: usize,
}

impl View for Mbc1 {
    type V = MbcView;

    open spec fn view(&self) -> MbcView {
        MbcView::Mbc1 {
            rom: self.rom@,
            ram: self.external_ram@,
            ram_enabled: self.is_ram_enabled,
            rom_bank: self.rom_bank_number as int,
            ram_bank: self.ram_bank_number as int,
            advanced: self.banking_mode == BankingMode::Advanced,
        }
    }
}

impl Mbc1 {
    pub open spec fn wf(&self) -> bool {
        &&& self.rom@.len() == self.rom_size
        &&& self.external_ram@.len() == self.ram_size
        &&& 0x8000 <= self.rom_size <= 0x800000
        &&& self.ram_size <= 0x20000
        &&& self.rom_bank_number <= 0x1F
        &&& self.ram_bank_number <= 0x03
    }

    pub fn new(rom: Vec<u8>) -> (result: Self)
        requires
            rom@.len() >= 0x150,
        ensures
            result.wf(),
            result@ == (MbcView::Mbc1 {
                rom: spec_pad(rom@, spec_rom_size(rom@)),
                ram: Seq::new(spec_ram_size(rom@), |i: int| 0u8),
                ram_enabled: false,
                rom_bank: 0int,
                ram_bank: 0int,
                advanced: false,
            }),
    {
        let ghost given_rom: Seq<u8> = rom@;
        let mut rom = rom;
        let rom_size = get_rom_size(&rom);
        let ram_size = get_ram_size(&rom);

        // Resizing given rom
        rom.resize(rom_size, 0);

        proof {
            assert(rom@ =~= spec_pad(given_rom, rom_size as nat));
        }

        // Creating the new ram
        let ram: Vec<u8> = zero_vec(ram_size);

        Self {
            rom,
            external_ram: ram,
            is_ram_enabled: false,
            rom_bank_number: 0,
            ram_bank_number: 0,
            banking_mode: BankingMode::Simple,
            rom_size,
            ram_size,
        }
    }

    /// Section 0 just uses the first bank in simple banking mode, in advanced banking, it
    /// uses the ram bank number to calculate the new address
    pub fn get_rom_section_0(&self, address: u16) -> (result: u8)
        requires
            self.wf(),
            address < 0x4000,
        ensures
            result == (match self.banking_mode {
                BankingMode::Simple => self.rom@[address as int],
                BankingMode::Advanced => self.rom@[spec_calc_rom_address(
                    self.rom_size as int,
                    address,
                    self.ram_bank_number * 0x20,
                )],
            }),
    {
        match self.banking_mode {
            BankingMode::Simple => self.rom[address as usize],
            BankingMode::Advanced => {
                let bank = self.ram_bank_number * 0x20;
                let new_address = calculate_rom_address(self.rom_size, address, bank);

                self.rom[new_address]
            },
        }
    }

    /// The bank that section 1 reads through: the secondary (ram) bank number in the
    /// high two bits, the rom bank number in the low five, with banks 0x20, 0x40 and
    /// 0x60 bumped up by one because the hardware cannot address them.
    pub open spec fn spec_section_1_bank(&self) -> int {
        let bank = self.ram_bank_number * 0x20 + self.rom_bank_number;
        if bank == 0x20 || bank == 0x40 || bank == 0x60 {
            bank + 1
        } else {
            bank
        }
    }

    /// Section 1 rom uses both the rom and ram bank number to calculate the new address
    pub fn get_rom_section_1(&self, address: u16) -> (result: u8)
        requires
            self.wf(),
            0x4000 <= address < 0x8000,
        ensures
            result == self.rom@[spec_calc_rom_address(
                self.rom_size as int,
                (address - ROM_BANK_SIZE) as u16,
                self.spec_section_1_bank(),
            )],
    {
        let mut bank = self.ram_bank_number * 0x20 + self.rom_bank_number;

        // For a bug these are not accessible
        if bank == 0x20 || bank == 0x40 || bank == 0x60 {
            bank += 1;
        }

        let new_address = calculate_rom_address(
            self.rom_size,
            address - ROM_BANK_SIZE as u16,
            bank,
        );

        self.rom[new_address]
    }

    /// Reads from disabled or absent ram return 0xFF.
    pub fn get_external_ram(&self, address: u16) -> (result: u8)
        requires
            self.wf(),
            address < 0x2000,
        ensures
            result == (if !self.is_ram_enabled || self.ram_size == 0 {
                0xFFu8
            } else {
                self.external_ram@[self.spec_ram_address(address)]
            }),
    {
        if !self.is_ram_enabled || self.ram_size == 0 {
            return 0xFF;
        }

        let new_address = self.calculate_ram_address(address);
        self.external_ram[new_address]
    }

    /// Writes to disabled or absent ram are dropped.
    pub fn set_external_ram(&mut self, address: u16, value: u8)
        requires
            old(self).wf(),
            address < 0x2000,
        ensures
            final(self).wf(),
            final(self).rom@ == old(self).rom@,
            final(self).is_ram_enabled == old(self).is_ram_enabled,
            final(self).rom_bank_number == old(self).rom_bank_number,
            final(self).ram_bank_number == old(self).ram_bank_number,
            final(self).banking_mode == old(self).banking_mode,
            final(self).rom_size == old(self).rom_size,
            final(self).ram_size == old(self).ram_size,
            final(self).external_ram@ == (if !old(self).is_ram_enabled || old(self).ram_size == 0 {
                old(self).external_ram@
            } else {
                old(self).external_ram@.update(old(self).spec_ram_address(address), value)
            }),
    {
        if !self.is_ram_enabled || self.ram_size == 0 {
            return;
        }

        let new_address = self.calculate_ram_address(address);
        self.external_ram[new_address] = value;
    }

    pub fn direct_rom_write(&mut self, address: u16, value: u8)
        requires
            old(self).wf(),
            address < old(self).rom_size,
        ensures
            final(self).wf(),
            final(self).rom@ == old(self).rom@.update(address as int, value),
            final(self).external_ram@ == old(self).external_ram@,
            final(self).is_ram_enabled == old(self).is_ram_enabled,
            final(self).rom_bank_number == old(self).rom_bank_number,
            final(self).ram_bank_number == old(self).ram_bank_number,
            final(self).banking_mode == old(self).banking_mode,
            final(self).rom_size == old(self).rom_size,
            final(self).ram_size == old(self).ram_size,
    {
        self.rom[address as usize] = value;
    }

    pub fn signal_rom_write(&mut self, address: u16, value: u8)
        requires
            old(self).wf(),
            address < 0x8000,
        ensures
            final(self).wf(),
            final(self).rom@ == old(self).rom@,
            final(self).external_ram@ == old(self).external_ram@,
            final(self).rom_size == old(self).rom_size,
            final(self).ram_size == old(self).ram_size,
            final(self).is_ram_enabled == (if address <= 0x1FFF {
                value & 0x0F == 0xA
            } else {
                old(self).is_ram_enabled
            }),
            final(self).rom_bank_number as int == (if 0x2000 <= address && address <= 0x3FFF {
                if value % 0x20 == 0 {
                    1int
                } else {
                    (value % 0x20) as int
                }
            } else {
                old(self).rom_bank_number as int
            }),
            final(self).ram_bank_number as int == (if 0x4000 <= address && address <= 0x5FFF {
                (value % 0x04) as int
            } else {
                old(self).ram_bank_number as int
            }),
            final(self).banking_mode == (if 0x6000 <= address && address <= 0x7FFF {
                if spec_bit(value, 0) {
                    BankingMode::Advanced
                } else {
                    BankingMode::Simple
                }
            } else {
                old(self).banking_mode
            }),
    {
        // You enable or disable ram by writing to 0000-1FFF, it turns on if the game
        // writes "A", and any other number will turn it off for some reason
        if address <= 0x1FFF {
            self.is_ram_enabled = value & 0x0F == 0xA;
            return;
        }

        // Address 2000-3FFF is the five bit rom bank number register
        if 0x2000 <= address && address <= 0x3FFF {
            self.rom_bank_number = (value % 0x20) as usize;

            // The rom bank cannot be 0
            if self.rom_bank_number == 0 {
                self.rom_bank_number = 1;
            }

            return;
        }

        // Address 4000-5FFF is the two bit ram bank number register
        if 0x4000 <= address && address <= 0x5FFF {
            self.ram_bank_number = (value % 0x04) as usize;
            return;
        }

        // Address 6000-7FFF is the one bit banking mode register
        if 0x6000 <= address && address <= 0x7FFF {
            self.banking_mode = match get_bit(value, 0) {
                false => BankingMode::Simple,
                true => BankingMode::Advanced,
            };
        }
    }

    /// The ram offset behind an access: bank 0 in simple banking mode, the selected
    /// bank otherwise, both wrapped to the ram that is actually there.
    pub open spec fn spec_ram_address(&self, address: u16) -> int {
        match self.banking_mode {
            BankingMode::Simple => address as int % self.ram_size as int,
            BankingMode::Advanced => spec_calc_ram_address(
                self.ram_size as int,
                address,
                self.ram_bank_number as int,
            ),
        }
    }

    /// Calculates the new ram address based on the address the game tells us and the ram
    /// banking mode
    fn calculate_ram_address(&self, address: u16) -> (result: usize)
        requires
            self.wf(),
            self.ram_size > 0,
        ensures
            result == self.spec_ram_address(address),
            result < self.ram_size,
    {
        match self.banking_mode {
            // If it's simple we just use bank 0
            BankingMode::Simple => address as usize % self.ram_size,
            // Otherwise we use the ram bank number
            BankingMode::Advanced => calculate_ram_address(
                self.ram_size,
                address,
                self.ram_bank_number,
            ),
        }
    }

} // impl Mbc1

} // verus!
