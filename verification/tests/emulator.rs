//! The instruction-level behavior of the machine, one opcode at a time.

use dmg_core::GameBoy;

/// Creates a `GameBoy` struct, with just one opcode as the rom, for testing purposes
fn create_gb_from_opcode(opcode: u8) -> GameBoy {
    let mut rom = vec![0u8; 0x8000];
    rom[0x0100] = opcode;

    GameBoy::new_from_rom_array(rom)
}

fn create_gb_from_opcode_with_immediate_data(
    opcode: u8,
    immediate1: u8,
    immediate2: u8,
) -> GameBoy {
    let mut rom = vec![0u8; 0x8000];
    rom[0x0100] = opcode;
    rom[0x0101] = immediate1;
    rom[0x0102] = immediate2;

    GameBoy::new_from_rom_array(rom)
}

fn hl(gb: &GameBoy) -> u16 {
    (gb.registers.h as u16) * 256 + gb.registers.l as u16
}

#[test]
fn increment() {
    let mut gb = create_gb_from_opcode(0x04);
    gb.step().unwrap();

    assert_eq!(0x01, gb.registers.b);
    assert_eq!(false, gb.flags.zero);
}

#[test]
fn decrement() {
    let mut gb = create_gb_from_opcode(0x25);
    gb.step().unwrap();

    assert_eq!(0x00, gb.registers.h);
    assert_eq!(true, gb.flags.zero);
}

#[test]
fn load_r_into_r() {
    let mut gb = create_gb_from_opcode(0x4C);
    gb.step().unwrap();

    assert_eq!(0x01, gb.registers.c);
}

#[test]
fn load_ii_into_rr() {
    let mut gb = create_gb_from_opcode_with_immediate_data(0x31, 0x42, 0x69);
    gb.step().unwrap();

    assert_eq!(0x6942, gb.registers.sp);
}

#[test]
fn xor_r() {
    let mut gb = create_gb_from_opcode(0xAC);
    gb.step().unwrap();

    assert_eq!(0, gb.registers.a);
}

#[test]
fn ld_r_into_ram() {
    let mut gb = create_gb_from_opcode(0x22);

    gb.registers.h = 0xC0;
    gb.registers.l = 0x00;

    gb.step().unwrap();

    assert_eq!(0x01, gb.bus.read(hl(&gb).wrapping_sub(1)));
    assert_eq!(0x01, gb.registers.l);
}

// Jumps vary so much, so it's better to have more tests

#[test]
fn c3() {
    let mut gb = create_gb_from_opcode_with_immediate_data(0xC3, 0x42, 0x69);
    gb.step().unwrap();

    assert_eq!(0x6942, gb.registers.pc);
}

#[test]
fn ca() {
    let mut gb = create_gb_from_opcode_with_immediate_data(0xCA, 0x42, 0x69);
    gb.flags.zero = false;
    gb.step().unwrap();

    // this should not jump at all
    assert_eq!(0x0103, gb.registers.pc);
}

#[test]
fn jump_relative() {
    let mut gb = create_gb_from_opcode_with_immediate_data(0x20, 0xFF, 0x00);
    gb.flags.zero = false;
    gb.step().unwrap();

    assert_eq!(0x0101, gb.registers.pc);
}

#[test]
fn return_() {
    let mut gb = create_gb_from_opcode(0xC9);
    gb.registers.sp = 0x0020; // We set the sp at 0x0020 so that it fetches a part of
                              // the rom that is predictable (all zeroes)
    gb.step().unwrap();

    assert_eq!(0x0022, gb.registers.sp);
    assert_eq!(0x0000, gb.registers.pc);
}

#[test]
fn get_bit() {
    assert!(dmg_core::common::get_bit(0b0000_1000u8, 3));
    assert!(dmg_core::common::get_bit(0b1000_0000u8, 7));
}

#[test]
fn set_bit() {
    let mut blank_int: u8 = 0b0000_0000;

    blank_int = dmg_core::common::set_bit(blank_int, 3, true);
    assert_eq!(blank_int, 0b0000_1000);

    blank_int = dmg_core::common::set_bit(blank_int, 7, true);
    assert_eq!(blank_int, 0b1000_1000);

    blank_int = dmg_core::common::set_bit(blank_int, 3, false);
    assert_eq!(blank_int, 0b1000_0000);
}
