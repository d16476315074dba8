//! Scenario tests for the subsystems around the decoder: flag rules, BCD
//! adjustment, bit instructions, cartridge banking, PPU timing, interrupt
//! dispatch, OAM DMA, the timers and the joypad register.

use dmg_core::consts::{DIV, IE, IF, JOYP, LY, TAC, TIMA, TMA};
use dmg_core::errors::EmuError;
use dmg_core::flags::{flag_add, flag_sub};
use dmg_core::gpu::pixel_transfer::Layers;
use dmg_core::gpu::{Color, Gpu, GpuState};
use dmg_core::gpu::tile_parser::Line;
use dmg_core::screen::Screen;
use dmg_core::GameBoy;

fn blank_rom() -> Vec<u8> {
    vec![0u8; 0x8000]
}

fn gb_with_program(program: &[u8]) -> GameBoy {
    let mut rom = blank_rom();
    rom[0x0100..0x0100 + program.len()].copy_from_slice(program);
    GameBoy::new_from_rom_array(rom)
}

// ---------------------------------------------------------------------------
// Instruction round trips against the public single-step vectors
// ---------------------------------------------------------------------------

#[test]
fn inc_a_from_one() {
    let mut gb = gb_with_program(&[0x3C]);
    gb.registers.a = 0x01;
    gb.step().unwrap();

    // INC never touches the carry flag, which the boot state leaves set
    assert_eq!(0x02, gb.registers.a);
    assert!(!gb.flags.zero);
    assert!(!gb.flags.subtraction);
    assert!(!gb.flags.half_carry);
    assert!(gb.flags.carry);
}

#[test]
fn inc_a_half_carry() {
    let mut gb = gb_with_program(&[0x3C]);
    gb.registers.a = 0x0F;
    gb.step().unwrap();

    assert_eq!(0x10, gb.registers.a);
    assert!(gb.flags.half_carry);
    assert!(!gb.flags.subtraction);
    assert!(!gb.flags.zero);
}

#[test]
fn xor_a_clears_a_and_sets_only_zero() {
    let mut gb = gb_with_program(&[0xAF]);
    gb.registers.a = 0x01;
    gb.step().unwrap();

    assert_eq!(0x00, gb.registers.a);
    assert!(gb.flags.zero);
    assert!(!gb.flags.subtraction);
    assert!(!gb.flags.half_carry);
    assert!(!gb.flags.carry);
}

#[test]
fn call_pushes_the_return_address() {
    let mut gb = gb_with_program(&[0xCD, 0x34, 0x12]);

    let (bytes, cycles) =
        gb.cpu
            .interpret_opcode(0xCD, &mut gb.flags, &mut gb.registers, &mut gb.bus);

    assert_eq!(0, bytes);
    assert_eq!(6, cycles);
    assert_eq!(0xFFFC, gb.registers.sp);
    assert_eq!(0x03, gb.bus.read(0xFFFC));
    assert_eq!(0x01, gb.bus.read(0xFFFD));
    assert_eq!(0x1234, gb.registers.pc);
}

#[test]
fn ret_pops_the_return_address() {
    let mut gb = gb_with_program(&[0xC9]);
    gb.bus.write(0xFFFC, 0x03);
    gb.bus.write(0xFFFD, 0x01);
    gb.registers.sp = 0xFFFC;

    let (bytes, cycles) =
        gb.cpu
            .interpret_opcode(0xC9, &mut gb.flags, &mut gb.registers, &mut gb.bus);

    assert_eq!(0, bytes);
    assert_eq!(4, cycles);
    assert_eq!(0xFFFE, gb.registers.sp);
    assert_eq!(0x0103, gb.registers.pc);
}

// ---------------------------------------------------------------------------
// Flag rules and DAA
// ---------------------------------------------------------------------------

#[test]
fn add_flags_on_full_overflow() {
    let (result, flags) = flag_add(0x3A, 0xC6);

    assert_eq!(0x00, result);
    assert!(flags.zero);
    assert!(flags.half_carry);
    assert!(flags.carry);
    assert!(!flags.subtraction);
}

#[test]
fn sub_flags_on_borrow() {
    let (result, flags) = flag_sub(0x3E, 0x40);

    assert_eq!(0xFE, result);
    assert!(flags.carry);
    assert!(!flags.half_carry);
    assert!(flags.subtraction);

    let (_, flags) = flag_sub(0x40, 0x3E);
    assert!(!flags.carry);
    assert!(flags.half_carry);
}

#[test]
fn daa_fixes_a_bcd_addition() {
    // 0x19 + 0x28 in packed BCD is 47; the binary sum 0x41 needs the 0x06
    // adjustment
    let mut gb = gb_with_program(&[0xC6, 0x28, 0x27]);
    gb.registers.a = 0x19;

    gb.step().unwrap();
    assert_eq!(0x41, gb.registers.a);

    gb.step().unwrap();
    assert_eq!(0x47, gb.registers.a);
    assert!(!gb.flags.carry);
}

// ---------------------------------------------------------------------------
// Bit instructions
// ---------------------------------------------------------------------------

#[test]
fn cb_set_then_res_round_trip() {
    let mut gb = gb_with_program(&[0xCB, 0xD8, 0xCB, 0x98]);

    gb.step().unwrap();
    assert_eq!(0x08, gb.registers.b);

    gb.step().unwrap();
    assert_eq!(0x00, gb.registers.b);
}

#[test]
fn cb_bit_tests_without_mutating() {
    // BIT 7, B with B = 0x00: the bit is clear, so Z comes out set
    let mut gb = gb_with_program(&[0xCB, 0x78]);
    gb.step().unwrap();

    assert_eq!(0x00, gb.registers.b);
    assert!(gb.flags.zero);

    // ... and with the bit set, Z comes out clear
    let mut gb = gb_with_program(&[0xCB, 0x78]);
    gb.registers.b = 0x80;
    gb.step().unwrap();

    assert_eq!(0x80, gb.registers.b);
    assert!(!gb.flags.zero);
}

#[test]
fn cb_rlc_rotates_through_bit_seven() {
    let mut gb = gb_with_program(&[0xCB, 0x00]);
    gb.registers.b = 0x80;
    gb.step().unwrap();

    assert_eq!(0x01, gb.registers.b);
    assert!(gb.flags.carry);
    assert!(!gb.flags.zero);
}

// ---------------------------------------------------------------------------
// MBC1 banking
// ---------------------------------------------------------------------------

#[test]
fn mbc1_rom_bank_translation() {
    let mut rom = vec![0u8; 0x20000]; // 128 KiB
    rom[0x0147] = 0x01; // MBC1
    rom[0x0148] = 0x02; // 128 KiB of rom
    rom[0x0149] = 0x00; // no ram
    rom[0x14000] = 0xAB;
    rom[0x04000] = 0xCD;

    let mut gb = GameBoy::new_from_rom_array(rom);

    // Selecting bank 5 maps 0x4000 onto 0x14000
    gb.bus.write(0x2000, 0x05);
    assert_eq!(0xAB, gb.bus.read(0x4000));

    // Bank 0 silently becomes bank 1
    gb.bus.write(0x2000, 0x00);
    assert_eq!(0xCD, gb.bus.read(0x4000));
}

#[test]
fn mbc1_disabled_ram_drops_writes() {
    let mut rom = vec![0u8; 0x8000];
    rom[0x0147] = 0x01; // MBC1
    rom[0x0149] = 0x00; // no ram at all

    let mut gb = GameBoy::new_from_rom_array(rom);

    // With ram disabled the write is dropped...
    gb.bus.write(0xA000, 0x77);
    // ... and after enabling, the absent ram still reads back 0xFF
    gb.bus.write(0x0000, 0x0A);
    assert_eq!(0xFF, gb.bus.read(0xA000));
}

// ---------------------------------------------------------------------------
// PPU timing
// ---------------------------------------------------------------------------

#[test]
fn oam_search_hands_over_to_pixel_transfer() {
    let mut gb = gb_with_program(&[0x76]);

    let mut dots: u32 = 0;
    while gb.gpu.state == GpuState::OamSearch {
        gb.gpu.tick(&mut gb.layers, &mut gb.bus);
        dots += 1;
        assert!(dots < 1000);
    }

    assert_eq!(GpuState::PixelTransfer, gb.gpu.state);
    assert_eq!(0, gb.gpu.ticks);
    assert_eq!(80, dots);
    assert_eq!(40, gb.gpu.sprites.len());
}

#[test]
fn vblank_entry_raises_the_vblank_interrupt() {
    let mut gb = gb_with_program(&[0x76]);
    gb.bus.write(IF, 0x00);

    gb.gpu.state = GpuState::VBlank;
    gb.gpu.ticks = 0;
    gb.gpu.y = 144;
    gb.gpu.x = 0;

    gb.gpu.vblank(&mut gb.layers, &mut gb.bus);

    assert_eq!(1, gb.bus.read(IF) & 1);
}

#[test]
fn ly_follows_the_beam() {
    let mut gb = gb_with_program(&[0x76]);

    gb.gpu.tick(&mut gb.layers, &mut gb.bus);
    assert_eq!(gb.gpu.y, gb.bus.read(LY));
}

#[test]
fn a_halted_machine_still_renders_a_frame() {
    let mut gb = gb_with_program(&[0x76]);

    gb.step_for_a_frame().unwrap();
    assert_eq!(GpuState::OamSearch, gb.gpu.state);
    assert_eq!(1, gb.gpu.finished_frames);
    assert_eq!(144, gb.gpu.screen.len());
    assert_eq!(160, gb.gpu.screen[0].len());
}

#[test]
fn a_frame_is_70224_dots() {
    let mut gb = gb_with_program(&[0x76]);

    // Every visible scanline is padded out to exactly 456 dots, so line 1
    // opens at dot 456...
    for _ in 0..456 {
        gb.gpu.tick(&mut gb.layers, &mut gb.bus);
    }
    assert_eq!(GpuState::OamSearch, gb.gpu.state);
    assert_eq!(0, gb.gpu.ticks);
    assert_eq!(1, gb.gpu.y);

    // ... and the whole frame, 144 visible lines and ten VBlank lines,
    // is 154 x 456 = 70224 dots
    for _ in 456..70224 {
        gb.gpu.tick(&mut gb.layers, &mut gb.bus);
    }
    assert_eq!(GpuState::OamSearch, gb.gpu.state);
    assert_eq!(0, gb.gpu.ticks);
    assert_eq!(1, gb.gpu.finished_frames);
}

#[test]
fn stat_reports_mode_and_coincidence() {
    let mut gb = gb_with_program(&[0x76]);

    // The boot STAT is 0x81; after one dot its hardware bits read mode 2
    // (OAM search) and the LY==LYC coincidence for line 0
    gb.gpu.tick(&mut gb.layers, &mut gb.bus);
    assert_eq!(0x86, gb.bus.read(0xFF41));

    // At the line 0 pixel transfer the mode bits read 3
    while gb.gpu.state == GpuState::OamSearch {
        gb.gpu.tick(&mut gb.layers, &mut gb.bus);
    }
    gb.gpu.tick(&mut gb.layers, &mut gb.bus);
    assert_eq!(0x87, gb.bus.read(0xFF41));
}

// ---------------------------------------------------------------------------
// Interrupt dispatch
// ---------------------------------------------------------------------------

#[test]
fn interrupt_dispatch_takes_five_cycles() {
    let mut gb = gb_with_program(&[0x00]);
    gb.bus.write(IE, 0x01);
    gb.bus.write(IF, 0x01);
    gb.cpu.ime = true;

    let cycles = gb.cpu.execute_interrupts(&mut gb.registers, &mut gb.bus);

    assert_eq!(5, cycles);
    assert_eq!(0x0040, gb.registers.pc);
    assert_eq!(0xFFFC, gb.registers.sp);
    assert_eq!(0x01, gb.bus.read(0xFFFD));
    assert_eq!(0x00, gb.bus.read(0xFFFC));
    assert_eq!(0x00, gb.bus.read(IF) & 0x01);
    assert!(!gb.cpu.ime);
}

#[test]
fn pending_interrupt_wakes_a_halted_cpu_without_ime() {
    let mut gb = gb_with_program(&[0x00]);
    gb.bus.write(IE, 0x01);
    gb.bus.write(IF, 0x01);
    gb.cpu.ime = false;
    gb.cpu.halt = true;

    let pc_before = gb.registers.pc;
    gb.step().unwrap();

    assert!(!gb.cpu.halt);
    assert_eq!(0x01, gb.bus.read(IF) & 0x01);
    assert_eq!(pc_before, gb.registers.pc);
}

// ---------------------------------------------------------------------------
// OAM DMA
// ---------------------------------------------------------------------------

#[test]
fn dma_copies_a_block_into_oam() {
    let mut gb = gb_with_program(&[0x00]);

    for i in 0..0xA0_u16 {
        gb.bus.write(0xC000 + i, (i % 251) as u8);
    }
    gb.bus.write(0xFF46, 0xC0);

    gb.step().unwrap();

    // All 160 bytes land in OAM, the last one included
    for i in 0..0xA0_u16 {
        assert_eq!(gb.bus.read(0xC000 + i), gb.bus.read(0xFE00 + i));
    }
    // The block itself is unharmed
    assert_eq!(0x01, gb.bus.read(0xC001));
}

// ---------------------------------------------------------------------------
// Timers
// ---------------------------------------------------------------------------

#[test]
fn tima_overflow_reloads_and_interrupts() {
    let mut gb = gb_with_program(&[0x00]);
    gb.bus.write(TAC, 0x05); // enabled, one increment every 16 dots
    gb.bus.write(TIMA, 0xFF);
    gb.bus.write(TMA, 0x42);
    gb.bus.write(IF, 0x00);

    // 4 machine cycles are 16 dots
    gb.cpu.update_tima_register(&mut gb.bus, 4);

    assert_eq!(0x42, gb.bus.read(TIMA));
    assert_eq!(0x04, gb.bus.read(IF) & 0x04);
}

#[test]
fn writing_div_resets_it() {
    let mut gb = gb_with_program(&[0x00]);

    gb.bus.write(DIV, 0x55);
    assert_eq!(0x00, gb.bus.read(DIV));

    gb.cpu.update_div_register(&mut gb.bus, 6);
    assert_eq!(0x00, gb.bus.read(DIV));
}

// ---------------------------------------------------------------------------
// Joypad
// ---------------------------------------------------------------------------

#[test]
fn joyp_reports_the_selected_group() {
    let mut gb = gb_with_program(&[0x00]);

    // A program write reaches only the select bits; bit 4 low (and bit 5
    // high) selects the directional pad. The rest of the boot value 0xCF
    // stays, so the register now holds 0xEF.
    gb.bus.write(JOYP, 0x20);
    assert_eq!(0xEF, gb.bus.read(JOYP));

    gb.joypad.is_left_pressed = true;
    assert_eq!(0xED, gb.joypad.to_byte(&gb.bus));
}

#[test]
fn lcd_off_parks_the_ppu() {
    let mut gb = gb_with_program(&[0x76]);

    // Run a little, then switch the LCD off: the beam parks at the top and
    // LY reads zero without advancing
    for _ in 0..100 {
        gb.gpu.tick(&mut gb.layers, &mut gb.bus);
    }
    let lcdc = gb.bus.read(0xFF40);
    gb.bus.write(0xFF40, lcdc & 0x7F);

    gb.gpu.tick(&mut gb.layers, &mut gb.bus);
    assert_eq!(GpuState::OamSearch, gb.gpu.state);
    assert_eq!(0, gb.bus.read(LY));

    gb.gpu.tick(&mut gb.layers, &mut gb.bus);
    assert_eq!(0, gb.gpu.ticks);
}

// ---------------------------------------------------------------------------
// The address map and the error path
// ---------------------------------------------------------------------------

#[test]
fn echo_ram_mirrors_work_ram() {
    let mut gb = gb_with_program(&[0x00]);

    gb.bus.write(0xC123, 0x5A);
    assert_eq!(0x5A, gb.bus.read(0xE123));
}

#[test]
fn unimplemented_opcode_is_reported() {
    let mut gb = gb_with_program(&[0xD3]);

    assert_eq!(
        Err(EmuError::UnimplementedOpcode(0xD3, 0x0100)),
        gb.step()
    );
    // Nothing moved
    assert_eq!(0x0100, gb.registers.pc);
}

// ---------------------------------------------------------------------------
// Host-facing helpers
// ---------------------------------------------------------------------------

#[test]
fn the_framebuffer_starts_light() {
    let gpu = Gpu::new();

    assert_eq!(144, gpu.screen.len());
    for row in &gpu.screen {
        assert_eq!(160, row.len());
        for pixel in row {
            assert_eq!(Color::Light, *pixel);
        }
    }
}

#[test]
fn new_blank() {
    let line = Line::new_blank();

    assert_eq!(8, line.colors.len());
    for color in &line.colors {
        assert_eq!(Color::Light, *color);
    }
}

#[test]
fn draw_line_decodes_both_planes() {
    let mut line = Line::new_blank();

    // The high plane all ones and the low plane all zeroes is a row of
    // medium-dark pixels
    line.draw_line(0xFF, 0x00);
    for color in &line.colors {
        assert_eq!(Color::MediumlyDark, *color);
    }

    // ... and both planes set gives the darkest shade
    line.draw_line(0xFF, 0xFF);
    for color in &line.colors {
        assert_eq!(Color::Dark, *color);
    }
}

#[test]
fn the_screen_starts_dark() {
    let screen = Screen::new();

    assert_eq!(144, screen.display.len());
    assert_eq!(160, screen.display[0].len());
    assert!(!screen.display[0][0]);
}

#[test]
fn fresh_layers_hold_no_sprite() {
    let layers = Layers::new();

    assert!(layers.sprite.sprite_to_draw.is_none());
    assert_eq!(0, layers.window.window_ly);
}
