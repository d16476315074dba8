//! The address-mapped bus: 16-bit addresses are routed to the cartridge
//! (through the MBC), video ram, work ram, OAM, the I/O registers, high ram
//! and the interrupt-enable byte, with the DMA and DIV write side effects
//! the hardware has.

use vstd::prelude::*;

use crate::common::{merge_two_u8s_into_u16, spec_merge};
use crate::consts::{
    DIV, DMA, EOM_SIZE, EXTERNAL_RAM_SIZE, HIGH_RAM_SIZE, IO_SIZE, JOYP, ROM_SIZE,
    UNUSABLE_RAM_SIZE, VIDEO_RAM_SIZE, WORK_RAM_SIZE,
};
use crate::registers::Registers;

pub mod mbc1;
pub mod mbc3;
pub mod mbc_no;

use mbc1::Mbc1;
use mbc3::Mbc3;
use mbc_no::NoMbc;

verus! {

/// Raised by the rom-loading front end when the cartridge file cannot be
/// opened or read.
#[derive(Debug, Clone, Copy, PartialEq, Eq, Structural)]
pub enum BusError {
    CouldNotFindRom,
    CouldNotReadRom,
}

// ---------------------------------------------------------------------------
// The mathematical model of the cartridge
// ---------------------------------------------------------------------------

/// What a cartridge is to the specification: its (padded) rom and ram
/// contents and the state of its banking registers.
#[verifier::ext_equal]
pub ghost enum MbcView {
    NoMbc { rom: Seq<u8>, ram: Seq<u8> },
    Mbc1 {
        rom: Seq<u8>,
        ram: Seq<u8>,
        ram_enabled: bool,
        rom_bank: int,
        ram_bank: int,
        advanced: bool,
    },
    Mbc3 { rom: Seq<u8>, ram: Seq<u8>, ram_enabled: bool, rom_bank: int, ram_bank: int },
}

/// `s` padded with zeroes (or truncated) to exactly `size` bytes.
pub open spec fn spec_pad(s: Seq<u8>, size: nat) -> Seq<u8> {
    Seq::new(size, |i: int| if i < s.len() { s[i] } else { 0u8 })
}

/// The rom size encoded by header byte 0x148: `0x8000 << n`, with unknown
/// codes falling back to 32 KiB.
pub open spec fn spec_rom_size(rom: Seq<u8>) -> nat {
    match rom[0x148] {
        0u8 => 0x8000,
        1u8 => 0x10000,
        2u8 => 0x20000,
        3u8 => 0x40000,
        4u8 => 0x80000,
        5u8 => 0x100000,
        6u8 => 0x200000,
        7u8 => 0x400000,
        8u8 => 0x800000,
        _ => 0x8000,
    }
}

/// The ram size encoded by header byte 0x149, with unknown codes meaning
/// no ram at all.
pub open spec fn spec_ram_size(rom: Seq<u8>) -> nat {
    match rom[0x149] {
        2u8 => 0x2000,
        3u8 => 0x8000,
        4u8 => 0x20000,
        5u8 => 0x10000,
        _ => 0,
    }
}

/// The banked rom mapping: `(bank * 0x4000 + address) mod rom_size`.
pub open spec fn spec_calc_rom_address(rom_size: int, address: u16, bank: int) -> int {
    (bank * 0x4000 + address) % rom_size
}

/// The banked ram mapping: `(bank * 0x2000 + address) mod ram_size`.
pub open spec fn spec_calc_ram_address(ram_size: int, address: u16, bank: int) -> int {
    (bank * 0x2000 + address) % ram_size
}

/// The cartridge selected by header byte 0x147: 0x00 is rom only,
/// 0x01-0x03 are the MBC1 family, 0x11-0x13 the MBC3 family, and unknown
/// codes fall back to rom only.
pub open spec fn spec_new_mbc(rom: Seq<u8>) -> MbcView {
    let kind = rom[0x147];
    if 1 <= kind <= 3 {
        MbcView::Mbc1 {
            rom: spec_pad(rom, spec_rom_size(rom)),
            ram: Seq::new(spec_ram_size(rom), |i: int| 0u8),
            ram_enabled: false,
            rom_bank: 0,
            ram_bank: 0,
            advanced: false,
        }
    } else if 0x11 <= kind <= 0x13 {
        MbcView::Mbc3 {
            rom: spec_pad(rom, spec_rom_size(rom)),
            ram: Seq::new(spec_ram_size(rom), |i: int| 0u8),
            ram_enabled: false,
            rom_bank: 0,
            ram_bank: 0,
        }
    } else {
        MbcView::NoMbc {
            rom: spec_pad(rom, ROM_SIZE as nat),
            ram: Seq::new(EXTERNAL_RAM_SIZE as nat, |i: int| 0u8),
        }
    }
}

/// A byte of the rom range 0x0000-0x3FFF as the cartridge maps it.
pub open spec fn spec_mbc_rom0(m: MbcView, address: u16) -> u8 {
    match m {
        MbcView::NoMbc { rom, .. } => rom[address as int],
        MbcView::Mbc1 { rom, ram_bank, advanced, .. } => {
            if advanced {
                rom[spec_calc_rom_address(rom.len() as int, address, ram_bank * 0x20)]
            } else {
                rom[address as int]
            }
        },
        MbcView::Mbc3 { rom, .. } => rom[address as int],
    }
}

/// The bank behind the 0x4000-0x7FFF window of an MBC1 cartridge, with the
/// inaccessible banks 0x20, 0x40 and 0x60 bumped up by one.
pub open spec fn spec_mbc1_section_1_bank(rom_bank: int, ram_bank: int) -> int {
    let bank = ram_bank * 0x20 + rom_bank;
    if bank == 0x20 || bank == 0x40 || bank == 0x60 {
        bank + 1
    } else {
        bank
    }
}

/// A byte of the rom range 0x4000-0x7FFF as the cartridge maps it; the
/// argument is the bus address, bank-translated modulo the rom size.
pub open spec fn spec_mbc_rom1(m: MbcView, address: u16) -> u8 {
    match m {
        MbcView::NoMbc { rom, .. } => rom[address as int],
        MbcView::Mbc1 { rom, rom_bank, ram_bank, .. } => rom[spec_calc_rom_address(
            rom.len() as int,
            (address - 0x4000) as u16,
            spec_mbc1_section_1_bank(rom_bank, ram_bank),
        )],
        MbcView::Mbc3 { rom, rom_bank, .. } => rom[spec_calc_rom_address(
            rom.len() as int,
            (address - 0x4000) as u16,
            rom_bank,
        )],
    }
}

/// The ram offset behind an MBC1 external-ram access.
pub open spec fn spec_mbc1_ram_address(
    ram_size: int,
    advanced: bool,
    ram_bank: int,
    address: u16,
) -> int {
    if advanced {
        spec_calc_ram_address(ram_size, address, ram_bank)
    } else {
        address as int % ram_size
    }
}

/// A byte of external ram (`address` is the offset into 0xA000-0xBFFF);
/// disabled or absent ram reads as 0xFF.
pub open spec fn spec_mbc_ram_read(m: MbcView, address: u16) -> u8 {
    match m {
        MbcView::NoMbc { ram, .. } => ram[address as int],
        MbcView::Mbc1 { ram, ram_enabled, ram_bank, advanced, .. } => {
            if !ram_enabled || ram.len() == 0 {
                0xFFu8
            } else {
                ram[spec_mbc1_ram_address(ram.len() as int, advanced, ram_bank, address)]
            }
        },
        MbcView::Mbc3 { ram, ram_enabled, ram_bank, .. } => {
            if !ram_enabled || ram.len() == 0 {
                0xFFu8
            } else {
                ram[spec_calc_ram_address(ram.len() as int, address, ram_bank)]
            }
        },
    }
}

/// The cartridge after a write into external ram; disabled or absent ram
/// drops the write.
pub open spec fn spec_mbc_ram_write(m: MbcView, address: u16, value: u8) -> MbcView {
    match m {
        MbcView::NoMbc { rom, ram } => MbcView::NoMbc {
            rom,
            ram: ram.update(address as int, value),
        },
        MbcView::Mbc1 { rom, ram, ram_enabled, rom_bank, ram_bank, advanced } => {
            if !ram_enabled || ram.len() == 0 {
                m
            } else {
                MbcView::Mbc1 {
                    rom,
                    ram: ram.update(
                        spec_mbc1_ram_address(ram.len() as int, advanced, ram_bank, address),
                        value,
                    ),
                    ram_enabled,
                    rom_bank,
                    ram_bank,
                    advanced,
                }
            }
        },
        MbcView::Mbc3 { rom, ram, ram_enabled, rom_bank, ram_bank } => {
            if !ram_enabled || ram.len() == 0 {
                m
            } else {
                MbcView::Mbc3 {
                    rom,
                    ram: ram.update(
                        spec_calc_ram_address(ram.len() as int, address, ram_bank),
                        value,
                    ),
                    ram_enabled,
                    rom_bank,
                    ram_bank,
                }
            }
        },
    }
}

/// The cartridge after a direct (unsignalled) write into its rom image.
pub open spec fn spec_mbc_direct_write(m: MbcView, address: u16, value: u8) -> MbcView {
    match m {
        MbcView::NoMbc { rom, ram } => MbcView::NoMbc {
            rom: rom.update(address as int, value),
            ram,
        },
        MbcView::Mbc1 { rom, ram, ram_enabled, rom_bank, ram_bank, advanced } => MbcView::Mbc1 {
            rom: rom.update(address as int, value),
            ram,
            ram_enabled,
            rom_bank,
            ram_bank,
            advanced,
        },
        MbcView::Mbc3 { rom, ram, ram_enabled, rom_bank, ram_bank } => MbcView::Mbc3 {
            rom: rom.update(address as int, value),
            ram,
            ram_enabled,
            rom_bank,
            ram_bank,
        },
    }
}

/// The cartridge after a write into the rom range, which the MBCs read as
/// their control registers.
pub open spec fn spec_mbc_signal(m: MbcView, address: u16, value: u8) -> MbcView {
    match m {
        MbcView::NoMbc { .. } => m,
        MbcView::Mbc1 { rom, ram, ram_enabled, rom_bank, ram_bank, advanced } => MbcView::Mbc1 {
            rom,
            ram,
            ram_enabled: if address <= 0x1FFF {
                value & 0x0F == 0xA
            } else {
                ram_enabled
            },
            rom_bank: if 0x2000 <= address && address <= 0x3FFF {
                if value % 0x20 == 0 {
                    1int
                } else {
                    (value % 0x20) as int
                }
            } else {
                rom_bank
            },
            ram_bank: if 0x4000 <= address && address <= 0x5FFF {
                (value % 0x04) as int
            } else {
                ram_bank
            },
            advanced: if 0x6000 <= address && address <= 0x7FFF {
                crate::common::spec_bit(value, 0)
            } else {
                advanced
            },
        },
        MbcView::Mbc3 { rom, ram, ram_enabled, rom_bank, ram_bank } => MbcView::Mbc3 {
            rom,
            ram,
            ram_enabled: if address <= 0x1FFF {
                value & 0x0F == 0xA
            } else {
                ram_enabled
            },
            rom_bank: if 0x2000 <= address && address <= 0x3FFF {
                (value % 0x80) as int
            } else {
                rom_bank
            },
            ram_bank: if 0x4000 <= address && address <= 0x5FFF {
                (value % 0x04) as int
            } else {
                ram_bank
            },
        },
    }
}

// ---------------------------------------------------------------------------
// Small executable helpers
// ---------------------------------------------------------------------------

/// A vector of `n` zero bytes.
pub fn zero_vec(n: usize) -> (result: Vec<u8>)
    ensures
        result@ == Seq::new(n as nat, |i: int| 0u8),
{
    let mut v: Vec<u8> = Vec::new();

    while v.len() < n
        invariant
            v@.len() <= n,
            forall|i: int| 0 <= i < v@.len() ==> v@[i] == 0u8,
        decreases n - v.len(),
    {
        v.push(0);
    }

    proof {
        assert(v@ =~= Seq::new(n as nat, |i: int| 0u8));
    }

    v
}

/// The given bytes padded with zeroes (or truncated) to exactly `size`.
pub fn vector_to_array(vec: Vec<u8>, size: usize) -> (result: Vec<u8>)
    ensures
        result@ == spec_pad(vec@, size as nat),
{
    let mut array = zero_vec(size);
    let mut i: usize = 0;

    while i < size && i < vec.len()
        invariant
            array@.len() == size,
            i <= size,
            i <= vec@.len(),
            forall|j: int| 0 <= j < i ==> array@[j] == vec@[j],
            forall|j: int| i <= j < size ==> array@[j] == 0u8,
        decreases size - i,
    {
        array[i] = vec[i];
        i += 1;
    }

    proof {
        assert(array@ =~= spec_pad(vec@, size as nat));
    }

    array
}

/// Reads the rom size out of header byte 0x148.
pub fn get_rom_size(rom: &Vec<u8>) -> (result: usize)
    requires
        rom@.len() >= 0x150,
    ensures
        result == spec_rom_size(rom@),
        0x8000 <= result <= 0x800000,
{
    match rom[0x148] {
        0 => 0x8000,
        1 => 0x10000,
        2 => 0x20000,
        3 => 0x40000,
        4 => 0x80000,
        5 => 0x100000,
        6 => 0x200000,
        7 => 0x400000,
        8 => 0x800000,
        _ => 0x8000,
    }
}

/// Reads the ram size out of header byte 0x149.
pub fn get_ram_size(rom: &Vec<u8>) -> (result: usize)
    requires
        rom@.len() >= 0x150,
    ensures
        result == spec_ram_size(rom@),
        result <= 0x20000,
{
    match rom[0x149] {
        2 => 0x2000,
        3 => 0x8000,
        4 => 0x20000,
        5 => 0x10000,
        _ => 0,
    }
}

/// Maps a bank number and an in-bank offset onto the rom that is actually
/// there.
pub fn calculate_rom_address(rom_size: usize, address: u16, bank: usize) -> (result: usize)
    requires
        rom_size > 0,
        bank <= 0x80,
    ensures
        result == spec_calc_rom_address(rom_size as int, address, bank as int),
        result < rom_size,
{
    (bank * 0x4000 + address as usize) % rom_size
}

/// Maps a bank number and an in-bank offset onto the ram that is actually
/// there.
pub fn calculate_ram_address(ram_size: usize, address: u16, bank: usize) -> (result: usize)
    requires
        ram_size > 0,
        bank <= 0x03,
    ensures
        result == spec_calc_ram_address(ram_size as int, address, bank as int),
        result < ram_size,
{
    (bank * 0x2000 + address as usize) % ram_size
}

// ---------------------------------------------------------------------------
// The cartridge itself
// ---------------------------------------------------------------------------

/// The three supported cartridge kinds behind one dispatching type.
pub enum Mbc {
    NoMbc(NoMbc),
    Mbc1(Mbc1),
    Mbc3(Mbc3),
}

impl View for Mbc {
    type V = MbcView;

    open spec fn view(&self) -> MbcView {
        match self {
            Mbc::NoMbc(m) => m@,
            Mbc::Mbc1(m) => m@,
            Mbc::Mbc3(m) => m@,
        }
    }
}

impl Mbc {
    pub open spec fn wf(&self) -> bool {
        match self {
            Mbc::NoMbc(m) => m.wf(),
            Mbc::Mbc1(m) => m.wf(),
            Mbc::Mbc3(m) => m.wf(),
        }
    }

    /// Get byte in rom from address `0x0000` to `0x3FFF`
    pub fn get_rom_section_0(&self, address: u16) -> (result: u8)
        requires
            self.wf(),
            address < 0x4000,
        ensures
            result == spec_mbc_rom0(self@, address),
    {
        match self {
            Mbc::NoMbc(m) => m.get_rom_section_0(address),
            Mbc::Mbc1(m) => m.get_rom_section_0(address),
            Mbc::Mbc3(m) => m.get_rom_section_0(address),
        }
    }

    /// Get byte in rom from address `0x4000` to `0x7FFF`
    pub fn get_rom_section_1(&self, address: u16) -> (result: u8)
        requires
            self.wf(),
            0x4000 <= address < 0x8000,
        ensures
            result == spec_mbc_rom1(self@, address),
    {
        match self {
            Mbc::NoMbc(m) => m.get_rom_section_1(address),
            Mbc::Mbc1(m) => m.get_rom_section_1(address),
            Mbc::Mbc3(m) => m.get_rom_section_1(address),
        }
    }

    /// Get byte in ram; `address` is the offset into `0xA000`-`0xBFFF`
    pub fn get_external_ram(&self, address: u16) -> (result: u8)
        requires
            self.wf(),
            address < 0x2000,
        ensures
            result == spec_mbc_ram_read(self@, address),
    {
        match self {
            Mbc::NoMbc(m) => m.get_external_ram(address),
            Mbc::Mbc1(m) => m.get_external_ram(address),
            Mbc::Mbc3(m) => m.get_external_ram(address),
        }
    }

    /// Like the `get_external_ram` function but it sets a value in ram
    pub fn set_external_ram(&mut self, address: u16, value: u8)
        requires
            old(self).wf(),
            address < 0x2000,
        ensures
            final(self).wf(),
            final(self)@ == spec_mbc_ram_write(old(self)@, address, value),
    {
        match self {
            Mbc::NoMbc(m) => m.set_external_ram(address, value),
            Mbc::Mbc1(m) => m.set_external_ram(address, value),
            Mbc::Mbc3(m) => m.set_external_ram(address, value),
        }

        proof {
            assert(self@ =~= spec_mbc_ram_write(old(self)@, address, value));
        }
    }

    /// This is triggered when trying to write in rom, the cartridges use it to
    /// drive their banking registers
    pub fn signal_rom_write(&mut self, address: u16, value: u8)
        requires
            old(self).wf(),
            address < 0x8000,
        ensures
            final(self).wf(),
            final(self)@ == spec_mbc_signal(old(self)@, address, value),
    {
        match self {
            Mbc::NoMbc(m) => m.signal_rom_write(address, value),
            Mbc::Mbc1(m) => m.signal_rom_write(address, value),
            Mbc::Mbc3(m) => m.signal_rom_write(address, value),
        }

        proof {
            assert(self@ =~= spec_mbc_signal(old(self)@, address, value));
        }
    }

    /// Writes to rom without signaling anything; hosts use it to patch test
    /// programs into place
    pub fn direct_rom_write(&mut self, address: u16, value: u8)
        requires
            old(self).wf(),
            address < 0x8000,
        ensures
            final(self).wf(),
            final(self)@ == spec_mbc_direct_write(old(self)@, address, value),
    {
        match self {
            Mbc::NoMbc(m) => m.direct_rom_write(address, value),
            Mbc::Mbc1(m) => m.direct_rom_write(address, value),
            Mbc::Mbc3(m) => m.direct_rom_write(address, value),
        }

        proof {
            assert(self@ =~= spec_mbc_direct_write(old(self)@, address, value));
        }
    }

} // impl Mbc

/// Creates a specific MBC cartridge based on the header data from the rom
pub fn new_mbc(rom: Vec<u8>) -> (result: Mbc)
    requires
        rom@.len() >= 0x150,
    ensures
        result.wf(),
        result@ == spec_new_mbc(rom@),
{
    let mbc_type = rom[0x147];

    match mbc_type {
        1 | 2 | 3 => Mbc::Mbc1(Mbc1::new(rom)),
        0x11 | 0x12 | 0x13 => Mbc::Mbc3(Mbc3::new(rom)),
        _ => Mbc::NoMbc(NoMbc::new(rom)),
    }
}

// ---------------------------------------------------------------------------
// The bus
// ---------------------------------------------------------------------------

pub struct Bus {
    pub mbc: Mbc,
    pub video_ram: Vec<u8>,
    pub work_ram: Vec<u8>,
    pub eom: Vec<u8>,
    pub unusable_ram: Vec<u8>,
    pub io: Vec<u8>,
    pub high_ram: Vec<u8>,
    pub ie: u8,
    /// Gets true when the user writes to OAM DMA register
    pub needs_to_dispatch_oam_dma: bool,
    /// Gets true when the emulator writes to DIV, this means that we must
    /// reset the div register internal cycle counter
    pub needs_to_reset_div_register: bool,
}

/// What the bus is to the specification: the cartridge model, the contents
/// of every ram region and the two write-detection latches.
#[verifier::ext_equal]
pub ghost struct BusView {
    pub mbc: MbcView,
    pub video_ram: Seq<u8>,
    pub work_ram: Seq<u8>,
    pub eom: Seq<u8>,
    pub unusable_ram: Seq<u8>,
    pub io: Seq<u8>,
    pub high_ram: Seq<u8>,
    pub ie: u8,
    pub needs_to_dispatch_oam_dma: bool,
    pub needs_to_reset_div_register: bool,
}

impl View for Bus {
    type V = BusView;

    open spec fn view(&self) -> BusView {
        BusView {
            mbc: self.mbc@,
            video_ram: self.video_ram@,
            work_ram: self.work_ram@,
            eom: self.eom@,
            unusable_ram: self.unusable_ram@,
            io: self.io@,
            high_ram: self.high_ram@,
            ie: self.ie,
            needs_to_dispatch_oam_dma: self.needs_to_dispatch_oam_dma,
            needs_to_reset_div_register: self.needs_to_reset_div_register,
        }
    }
}

/// The byte that a read at `address` returns, routed through the address map.
pub open spec fn spec_bus_read(b: BusView, address: u16) -> u8 {
    if address < 0x4000 {
        spec_mbc_rom0(b.mbc, address)
    } else if address < 0x8000 {
        spec_mbc_rom1(b.mbc, address)
    } else if address < 0xA000 {
        b.video_ram[address - 0x8000]
    } else if address < 0xC000 {
        spec_mbc_ram_read(b.mbc, (address - 0xA000) as u16)
    } else if address < 0xE000 {
        b.work_ram[address - 0xC000]
    } else if address < 0xFE00 {
        b.work_ram[address - 0xE000]
    } else if address < 0xFEA0 {
        b.eom[address - 0xFE00]
    } else if address < 0xFF00 {
        b.unusable_ram[address - 0xFEA0]
    } else if address < 0xFF80 {
        b.io[address - 0xFF00]
    } else if address < 0xFFFF {
        b.high_ram[address - 0xFF80]
    } else {
        b.ie
    }
}

/// The bus after a write at `address`: writes to the DMA and DIV registers
/// additionally raise their latches (and DIV reads back as zero), a JOYP
/// write reaches only the two select bits (the rest of the register is
/// read-only to the program), writes to the rom range drive the MBC
/// banking registers, the echo region aliases work ram, and everything
/// else lands in its region.
pub open spec fn spec_bus_write(b: BusView, address: u16, value: u8) -> BusView {
    if address == DMA {
        BusView { needs_to_dispatch_oam_dma: true, io: b.io.update(0x46, value), ..b }
    } else if address == DIV {
        BusView { needs_to_reset_div_register: true, io: b.io.update(0x04, 0u8), ..b }
    } else if address == JOYP {
        BusView { io: b.io.update(0x00, (b.io[0] & 0xCF) | (value & 0x30)), ..b }
    } else if address < 0x8000 {
        BusView { mbc: spec_mbc_signal(b.mbc, address, value), ..b }
    } else if address < 0xA000 {
        BusView { video_ram: b.video_ram.update(address - 0x8000, value), ..b }
    } else if address < 0xC000 {
        BusView { mbc: spec_mbc_ram_write(b.mbc, (address - 0xA000) as u16, value), ..b }
    } else if address < 0xE000 {
        BusView { work_ram: b.work_ram.update(address - 0xC000, value), ..b }
    } else if address < 0xFE00 {
        BusView { work_ram: b.work_ram.update(address - 0xE000, value), ..b }
    } else if address < 0xFEA0 {
        BusView { eom: b.eom.update(address - 0xFE00, value), ..b }
    } else if address < 0xFF00 {
        BusView { unusable_ram: b.unusable_ram.update(address - 0xFEA0, value), ..b }
    } else if address < 0xFF80 {
        BusView { io: b.io.update(address - 0xFF00, value), ..b }
    } else if address < 0xFFFF {
        BusView { high_ram: b.high_ram.update(address - 0xFF80, value), ..b }
    } else {
        BusView { ie: value, ..b }
    }
}

/// What the I/O registers hold right after boot, register by register.
pub open spec fn spec_io_default(i: int) -> u8 {
    if i == 0x00 { 0xCF } else if i == 0x02 { 0x7E } else if i == 0x04 { 0x18 }
    else if i == 0x07 { 0xF8 } else if i == 0x0F { 0xE1 } else if i == 0x10 { 0x80 }
    else if i == 0x11 { 0xBF } else if i == 0x12 { 0xF3 } else if i == 0x13 { 0xFF }
    else if i == 0x14 { 0xBF } else if i == 0x16 { 0x3F } else if i == 0x18 { 0xFF }
    else if i == 0x19 { 0xBF } else if i == 0x1A { 0x7F } else if i == 0x1B { 0xFF }
    else if i == 0x1C { 0x9F } else if i == 0x1D { 0xFF } else if i == 0x1E { 0xBF }
    else if i == 0x20 { 0xFF } else if i == 0x23 { 0xBF } else if i == 0x24 { 0x77 }
    else if i == 0x25 { 0xF3 } else if i == 0x26 { 0xF1 } else if i == 0x40 { 0x91 }
    else if i == 0x41 { 0x81 } else if i == 0x46 { 0xFF } else if i == 0x47 { 0xFC }
    else if i == 0x4D { 0xFF } else if i == 0x4F { 0xFF } else if i == 0x51 { 0xFF }
    else if i == 0x52 { 0xFF } else if i == 0x53 { 0xFF } else if i == 0x54 { 0xFF }
    else if i == 0x55 { 0xFF } else if i == 0x56 { 0xFF } else if i == 0x68 { 0xFF }
    else if i == 0x69 { 0xFF } else if i == 0x6A { 0xFF } else if i == 0x6B { 0xFF }
    else if i == 0x70 { 0xFF } else { 0 }
}

/// The whole I/O region right after boot.
pub open spec fn spec_new_io() -> Seq<u8> {
    Seq::new(IO_SIZE as nat, |i: int| spec_io_default(i))
}

/// The I/O default values.
#[verifier::rlimit(40)]
pub fn new_io() -> (result: Vec<u8>)
    ensures
        result@ == spec_new_io(),
{
    let mut io = zero_vec(IO_SIZE);

    io[0x00] = 0xCF; io[0x02] = 0x7E; io[0x04] = 0x18; io[0x07] = 0xF8; io[0x0F] = 0xE1;
    io[0x10] = 0x80; io[0x11] = 0xBF; io[0x12] = 0xF3; io[0x13] = 0xFF; io[0x14] = 0xBF;
    io[0x16] = 0x3F; io[0x18] = 0xFF; io[0x19] = 0xBF; io[0x1A] = 0x7F; io[0x1B] = 0xFF;
    io[0x1C] = 0x9F; io[0x1D] = 0xFF; io[0x1E] = 0xBF; io[0x20] = 0xFF; io[0x23] = 0xBF;
    io[0x24] = 0x77; io[0x25] = 0xF3; io[0x26] = 0xF1; io[0x40] = 0x91; io[0x41] = 0x81;
    io[0x46] = 0xFF; io[0x47] = 0xFC; io[0x4D] = 0xFF; io[0x4F] = 0xFF; io[0x51] = 0xFF;
    io[0x52] = 0xFF; io[0x53] = 0xFF; io[0x54] = 0xFF; io[0x55] = 0xFF; io[0x56] = 0xFF;
    io[0x68] = 0xFF; io[0x69] = 0xFF; io[0x6A] = 0xFF; io[0x6B] = 0xFF; io[0x70] = 0xFF;

    proof {
        assert(io@ =~= spec_new_io());
    }

    io
}

/// The bus right after boot: every ram region zeroed, the I/O registers at
/// their boot values, and the cartridge built from the rom header.
pub open spec fn spec_bus_new(rom: Seq<u8>) -> BusView {
    BusView {
        mbc: spec_new_mbc(rom),
        video_ram: Seq::new(VIDEO_RAM_SIZE as nat, |i: int| 0u8),
        work_ram: Seq::new(WORK_RAM_SIZE as nat, |i: int| 0u8),
        eom: Seq::new(EOM_SIZE as nat, |i: int| 0u8),
        unusable_ram: Seq::new(UNUSABLE_RAM_SIZE as nat, |i: int| 0u8),
        io: spec_new_io(),
        high_ram: Seq::new(HIGH_RAM_SIZE as nat, |i: int| 0u8),
        ie: 0,
        needs_to_dispatch_oam_dma: false,
        needs_to_reset_div_register: false,
    }
}

/// Two bus states that agree everywhere except possibly at four I/O
/// registers: how a subsystem that only touches those registers relates
/// the bus it returns to the bus it was given.
pub open spec fn spec_bus_same_except_io(
    a: BusView,
    b: BusView,
    e1: int,
    e2: int,
    e3: int,
    e4: int,
) -> bool {
    &&& b.mbc == a.mbc
    &&& b.video_ram == a.video_ram
    &&& b.work_ram == a.work_ram
    &&& b.eom == a.eom
    &&& b.unusable_ram == a.unusable_ram
    &&& b.high_ram == a.high_ram
    &&& b.ie == a.ie
    &&& b.io.len() == a.io.len()
    &&& forall|i: int|
        0 <= i < a.io.len() && i != e1 && i != e2 && i != e3 && i != e4 ==> b.io[i] == a.io[i]
    &&& b.needs_to_dispatch_oam_dma == a.needs_to_dispatch_oam_dma
    &&& b.needs_to_reset_div_register == a.needs_to_reset_div_register
}

impl Bus {
    pub open spec fn wf(&self) -> bool {
        &&& self.mbc.wf()
        &&& self.video_ram@.len() == VIDEO_RAM_SIZE
        &&& self.work_ram@.len() == WORK_RAM_SIZE
        &&& self.eom@.len() == EOM_SIZE
        &&& self.unusable_ram@.len() == UNUSABLE_RAM_SIZE
        &&& self.io@.len() == IO_SIZE
        &&& self.high_ram@.len() == HIGH_RAM_SIZE
    }

    /// A fresh bus over the given rom image, which must hold at least the
    /// full cartridge header.
    pub fn new_from_rom_array(rom: Vec<u8>) -> (result: Self)
        requires
            rom@.len() >= 0x150,
        ensures
            result.wf(),
            result@ == spec_bus_new(rom@),
    {
        let result = Self {
            mbc: new_mbc(rom),
            video_ram: zero_vec(VIDEO_RAM_SIZE),
            work_ram: zero_vec(WORK_RAM_SIZE),
            eom: zero_vec(EOM_SIZE),
            unusable_ram: zero_vec(UNUSABLE_RAM_SIZE),
            io: new_io(),
            high_ram: zero_vec(HIGH_RAM_SIZE),
            ie: 0,
            needs_to_dispatch_oam_dma: false,
            needs_to_reset_div_register: false,
        };

        proof {
            assert(result@ =~= spec_bus_new(rom@));
        }

        result
    }

    pub fn read(&self, address: u16) -> (result: u8)
        requires
            self.wf(),
        ensures
            result == spec_bus_read(self@, address),
    {
        if address < 0x4000 {
            self.mbc.get_rom_section_0(address)
        } else if address < 0x8000 {
            self.mbc.get_rom_section_1(address)
        } else if address < 0xA000 {
            self.video_ram[(address - 0x8000) as usize]
        } else if address < 0xC000 {
            self.mbc.get_external_ram(address - 0xA000)
        } else if address < 0xE000 {
            self.work_ram[(address - 0xC000) as usize]
        } else if address < 0xFE00 {
            self.work_ram[(address - 0xE000) as usize]
        } else if address < 0xFEA0 {
            self.eom[(address - 0xFE00) as usize]
        } else if address < 0xFF00 {
            self.unusable_ram[(address - 0xFEA0) as usize]
        } else if address < 0xFF80 {
            self.io[(address - 0xFF00) as usize]
        } else if address < 0xFFFF {
            self.high_ram[(address - 0xFF80) as usize]
        } else {
            self.ie
        }
    }

    pub fn write(&mut self, address: u16, value: u8)
        requires
            old(self).wf(),
        ensures
            final(self).wf(),
            final(self)@ == spec_bus_write(old(self)@, address, value),
    {
        if address == DMA {
            self.needs_to_dispatch_oam_dma = true;
            self.io[0x46] = value;
        } else if address == DIV {
            self.needs_to_reset_div_register = true;
            self.io[0x04] = 0;
        } else if address == JOYP {
            // Only the two select bits of JOYP are writable by the program
            let masked = (self.io[0] & 0xCF) | (value & 0x30);
            self.io[0x00] = masked;
        } else if address < 0x8000 {
            self.mbc.signal_rom_write(address, value);
        } else if address < 0xA000 {
            self.video_ram[(address - 0x8000) as usize] = value;
        } else if address < 0xC000 {
            self.mbc.set_external_ram(address - 0xA000, value);
        } else if address < 0xE000 {
            self.work_ram[(address - 0xC000) as usize] = value;
        } else if address < 0xFE00 {
            self.work_ram[(address - 0xE000) as usize] = value;
        } else if address < 0xFEA0 {
            self.eom[(address - 0xFE00) as usize] = value;
        } else if address < 0xFF00 {
            self.unusable_ram[(address - 0xFEA0) as usize] = value;
        } else if address < 0xFF80 {
            self.io[(address - 0xFF00) as usize] = value;
        } else if address < 0xFFFF {
            self.high_ram[(address - 0xFF80) as usize] = value;
        } else {
            self.ie = value;
        }

        proof {
            assert(self@ =~= spec_bus_write(old(self)@, address, value));
        }
    }

} // impl Bus

/// The byte `offset` places after the one PC points at.
pub open spec fn spec_next(b: BusView, regs: Registers, offset: u16) -> u8 {
    spec_bus_read(b, vstd::wrapping::u16_specs::wrapping_add(regs.pc, offset))
}

/// The little-endian two-byte immediate operand after the opcode byte.
pub open spec fn spec_next_two(b: BusView, regs: Registers) -> u16 {
    spec_merge(spec_next(b, regs, 2), spec_next(b, regs, 1))
}

impl Bus {
    /// Returns the byte X times after the `PC` register
    pub fn next(&self, offset: u16, registers: &Registers) -> (result: u8)
        requires
            self.wf(),
        ensures
            result == spec_next(self@, *registers, offset),
    {
        self.read(registers.pc.wrapping_add(offset))
    }

    /// Returns the byte after the `PC` register
    pub fn next_one(&self, registers: &Registers) -> (result: u8)
        requires
            self.wf(),
        ensures
            result == spec_next(self@, *registers, 1),
    {
        self.next(1, registers)
    }

    /// Returns the next two bytes from the `PC` register in little endian format
    pub fn next_two(&self, registers: &Registers) -> (result: u16)
        requires
            self.wf(),
        ensures
            result == spec_next_two(self@, *registers),
    {
        merge_two_u8s_into_u16(self.next(2, registers), self.next(1, registers))
    }

} // impl Bus

/// The bus after the first `n` bytes of the OAM DMA copy: byte `i` of the
/// 160-byte block addressed by the DMA register moves to OAM byte `i`, in
/// order.
pub open spec fn spec_oam_copy(b: BusView, source: u16, n: nat) -> BusView
    decreases n,
{
    if n == 0 {
        b
    } else {
        let prev = spec_oam_copy(b, source, (n - 1) as nat);
        spec_bus_write(
            prev,
            (0xFE00 + n - 1) as u16,
            spec_bus_read(prev, (source + n - 1) as u16),
        )
    }
}

impl Bus {
    /// Performs the OAM transfer the DMA register asked for: the 0xA0 bytes
    /// starting at `DMA << 8` are copied into OAM.
    pub fn dispatch_oam_transfer(&mut self)
        requires
            old(self).wf(),
        ensures
            final(self).wf(),
            final(self)@ == spec_oam_copy(
                old(self)@,
                (spec_bus_read(old(self)@, DMA) * 0x100) as u16,
                0xA0,
            ),
    {
        // The source block starts at the page selected by the DMA register;
        // its low byte is zero
        let oam_dma_start = self.read(DMA) as u16 * 0x100;
        let ghost start_bus: BusView = self@;

        let mut i: u16 = 0;

        while i < 0xA0
            invariant
                self.wf(),
                i <= 0xA0,
                oam_dma_start <= 0xFF00,
                self@ == spec_oam_copy(start_bus, oam_dma_start, i as nat),
            decreases 0xA0 - i,
        {
            let byte = self.read(oam_dma_start + i);
            self.write(0xFE00 + i, byte);
            i += 1;
        }
    }

} // impl Bus

} // verus!
