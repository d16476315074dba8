//! Addresses of the memory-mapped hardware registers and the sizes of the
//! fixed RAM regions of the address space.

use vstd::prelude::*;

verus! {

// Region sizes
pub const EOM_SIZE: usize = 160;
pub const HIGH_RAM_SIZE: usize = 127;
pub const IO_SIZE: usize = 128;
pub const IO_START: usize = 0xFF00;
pub const VIDEO_RAM_SIZE: usize = 8192;
pub const WORK_RAM_SIZE: usize = 8192;
pub const UNUSABLE_RAM_SIZE: usize = 96;
pub const EXTERNAL_RAM_SIZE: usize = 0x2000;
pub const ROM_BANK_SIZE: usize = 0x4000;
pub const ROM_SIZE: usize = 0x8000;

// Display
pub const DISPLAY_SIZE_X: usize = 160;
pub const DISPLAY_SIZE_Y: usize = 144;

// Joypad
pub const JOYP: u16 = 0xFF00;

// Timers and interrupts
pub const DIV: u16 = 0xFF04;
pub const TIMA: u16 = 0xFF05;
pub const TMA: u16 = 0xFF06;
pub const TAC: u16 = 0xFF07;
pub const IF: u16 = 0xFF0F;
pub const IE: u16 = 0xFFFF;

// PPU registers
pub const LCDC: u16 = 0xFF40;
pub const STAT: u16 = 0xFF41;
pub const SCY: u16 = 0xFF42;
pub const SCX: u16 = 0xFF43;
pub const LY: u16 = 0xFF44;
pub const LYC: u16 = 0xFF45;
pub const DMA: u16 = 0xFF46;
pub const BGP: u16 = 0xFF47;
pub const OBP0: u16 = 0xFF48;
pub const OBP1: u16 = 0xFF49;
pub const WY: u16 = 0xFF4A;
pub const WX: u16 = 0xFF4B;

} // verus!
