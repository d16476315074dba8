//! The PPU: a four-state scanline engine ticked once per dot (four dots per
//! machine cycle), feeding a 160x144 framebuffer of 2-bit colors through
//! three fetcher layers (background, window, sprites) and a pixel fifo.

use vstd::prelude::*;

use crate::bus::{spec_bus_read, spec_bus_write, Bus, BusView};
use crate::common::{get_bit, spec_bit};
use crate::consts::{DISPLAY_SIZE_X, DISPLAY_SIZE_Y, IF, LCDC, LY, LYC, STAT};
use crate::gpu::blanks::{spec_hblank_interrupt_flag, spec_hblank_pad, spec_vblank_interrupt_flag};
use crate::gpu::oam_search::spec_oam_sprites;

pub mod blanks;
pub mod oam_search;
pub mod pixel_transfer;
pub mod tile_parser;

use pixel_transfer::sprite::SpriteData;
use pixel_transfer::{Layers, PixelTransferState};

verus! {

#[derive(Clone, Copy, Debug, PartialEq, Eq, Structural)]
pub enum Color {
    Light,
    MediumlyLight,
    MediumlyDark,
    Dark,
}

#[derive(PartialEq, Eq, Structural, Clone, Copy, Debug)]
pub enum GpuState {
    OamSearch,
    PixelTransfer,
    HBlank,
    VBlank,
}

/// The data of each pixel in the fifo
#[derive(Clone, Copy, Debug, PartialEq, Eq, Structural)]
pub struct PixelData {
    pub color: Color,

    /// This dictates the order of pixel drawing: when slices are mixed, the
    /// pixel with the strictly higher z index wins
    pub z_index: u8,
}

/// How a layer's slice is mixed over the one below it.
#[derive(Clone, Copy, PartialEq, Eq, Structural, Debug)]
pub enum Priority {
    AlwaysAbove,

    /// When the underlying slice shows through the light pixels of the above slice
    TransparentLight,

    /// When the above slice's pixels are drawn only above light pixels
    AboveLight,
}

pub struct Gpu {
    pub screen: Vec<Vec<Color>>,
    pub ticks: u16,
    pub state: GpuState,
    pub x: u8,
    pub y: u8,

    pub fifo: Vec<PixelData>,

    /// This is filled during OAM Search
    pub sprites: Vec<SpriteData>,

    /// The GPU has 4 states, one of which is pixel transfer, which also has many states
    pub pixel_transfer_state: PixelTransferState,

    /// The pixel transfer states happen in 2 dots, this is true whenever we are currently
    /// executing the first one, and false when we execute the second one; the layers
    /// don't need to track this, it's handled by the pixel transfer driver
    pub is_pixel_transfer_first_call: bool,

    /// The first slice of pixels is always cut off, this boolean keeps track of whether
    /// or not it has been dumped
    pub dump_slice: bool,

    /// The number of slices that have been pushed without counting the X scrolling
    pub number_of_slices_pushed: u8,

    /// `number_of_slices_pushed` * 8
    pub virtual_x: u8,

    /// How many dots the current line's pixel transfer took, recorded at
    /// its hand-over so HBlank can pad the scanline out to 456 dots
    pub transfer_dots: u16,

    /// How many frames have been completed (the VBlank to OAM search
    /// hand-overs) since power-on; lets hosts wait for, and contracts speak
    /// of, an actually produced frame
    pub finished_frames: u64,
}

/// LCDC bit 7: whether the PPU runs at all.
pub open spec fn spec_lcd_enabled(b: BusView) -> bool {
    spec_bit(spec_bus_read(b, LCDC), 7)
}

/// The IF write the current mode's handler performs on this dot, if any:
/// each mode raises its STAT (and VBlank) interrupt sources on its first
/// dot and leaves the bus alone afterwards.
pub open spec fn spec_tick_handler_bus(gpu: Gpu, b: BusView) -> BusView {
    match gpu.state {
        GpuState::OamSearch => if gpu.ticks == 0 && spec_bit(spec_bus_read(b, STAT), 5) {
            spec_bus_write(b, IF, spec_bus_read(b, IF) | 0b00000010)
        } else {
            b
        },
        GpuState::HBlank => if gpu.ticks == 0 {
            spec_bus_write(b, IF, spec_hblank_interrupt_flag(b, (gpu.y + 1) as u8))
        } else {
            b
        },
        GpuState::VBlank => if gpu.ticks == 0 {
            spec_bus_write(b, IF, spec_vblank_interrupt_flag(b, gpu.y))
        } else {
            b
        },
        GpuState::PixelTransfer => b,
    }
}

/// The STAT byte with its hardware-driven low bits refreshed: bits 0-1
/// report the mode (0 HBlank, 1 VBlank, 2 OAM search, 3 pixel transfer),
/// bit 2 the LY==LYC coincidence, and the program's source-enable bits
/// above them stay.
pub open spec fn spec_stat_byte(stat: u8, state: GpuState, coincidence: bool) -> u8 {
    let mode: u8 = match state {
        GpuState::HBlank => 0,
        GpuState::VBlank => 1,
        GpuState::OamSearch => 2,
        GpuState::PixelTransfer => 3,
    };
    (stat & 0xF8) | mode | (if coincidence {
        4u8
    } else {
        0u8
    })
}

/// The bus after one dot's bookkeeping writes: LY published, then the low
/// STAT bits refreshed against the new line and mode.
pub open spec fn spec_publish_ly_and_stat(b: BusView, state: GpuState, y: u8) -> BusView {
    let w = spec_bus_write(b, LY, y);
    BusView {
        io: w.io.update(
            0x41,
            spec_stat_byte(spec_bus_read(w, STAT), state, y == spec_bus_read(w, LYC)),
        ),
        ..w
    }
}

impl Gpu {
    /// The shape and bounds the scanline machine maintains: the framebuffer
    /// keeps its 160x144 shape, the beam coordinates stay inside it while
    /// pixels are being produced, and LY follows the mode timing.
    pub open spec fn wf(&self) -> bool {
        &&& self.screen@.len() == DISPLAY_SIZE_Y
        &&& forall|i: int|
            0 <= i < self.screen@.len() ==> (#[trigger] self.screen@[i])@.len() == DISPLAY_SIZE_X
        &&& self.state == GpuState::PixelTransfer ==> self.x < 160 && self.y < 144
        &&& self.state == GpuState::HBlank && self.ticks == 0 ==> self.y < 144
        &&& self.state == GpuState::HBlank && self.ticks >= 1 ==> self.y <= 144 && self.x == 0
        &&& self.state == GpuState::VBlank ==> self.x == 0 && self.ticks <= 4559
        &&& self.state == GpuState::VBlank && self.ticks == 0 ==> self.y == 144
        &&& self.state == GpuState::VBlank && self.ticks >= 1 ==> self.y == 144 + (self.ticks
            - 1) / 456
        &&& self.state == GpuState::OamSearch ==> self.x == 0
        &&& self.state == GpuState::OamSearch && self.ticks == 0 ==> self.y < 144 || self.y == 153
        &&& self.state == GpuState::OamSearch && self.ticks >= 1 ==> self.y < 144
    }

    pub fn new() -> (result: Self)
        ensures
            result.wf(),
            result.ticks == 0,
            result.state == GpuState::OamSearch,
            result.x == 0,
            result.y == 0,
            result.fifo@ == Seq::<PixelData>::empty(),
            result.sprites@ == Seq::<SpriteData>::empty(),
            result.pixel_transfer_state == PixelTransferState::GetTile,
            result.is_pixel_transfer_first_call,
            result.dump_slice,
            result.number_of_slices_pushed == 0,
            result.virtual_x == 0,
            result.transfer_dots == 0,
            result.finished_frames == 0,
            forall|i: int, j: int|
                0 <= i < DISPLAY_SIZE_Y && 0 <= j < DISPLAY_SIZE_X ==> (
                #[trigger] result.screen@[i]@[j]) == Color::Light,
    {
        let mut screen: Vec<Vec<Color>> = Vec::new();

        while screen.len() < DISPLAY_SIZE_Y
            invariant
                screen@.len() <= DISPLAY_SIZE_Y,
                forall|i: int|
                    0 <= i < screen@.len() ==> (#[trigger] screen@[i])@.len() == DISPLAY_SIZE_X,
                forall|i: int, j: int|
                    0 <= i < screen@.len() && 0 <= j < DISPLAY_SIZE_X ==> (
                    #[trigger] screen@[i]@[j]) == Color::Light,
            decreases DISPLAY_SIZE_Y - screen.len(),
        {
            let mut row: Vec<Color> = Vec::new();

            while row.len() < DISPLAY_SIZE_X
                invariant
                    row@.len() <= DISPLAY_SIZE_X,
                    forall|j: int| 0 <= j < row@.len() ==> #[trigger] row@[j] == Color::Light,
                decreases DISPLAY_SIZE_X - row.len(),
            {
                row.push(Color::Light);
            }

            screen.push(row);
        }

        Self {
            screen,
            ticks: 0,
            state: GpuState::OamSearch,
            x: 0,
            y: 0,
            fifo: Vec::new(),
            sprites: Vec::new(),
            pixel_transfer_state: PixelTransferState::GetTile,
            is_pixel_transfer_first_call: true,
            dump_slice: true,
            number_of_slices_pushed: 0,
            virtual_x: 0,
            transfer_dots: 0,
            finished_frames: 0,
        }
    }

    /// Counts one dot of the current mode and enters `new_state` on the dot
    /// that completes `ticks` of them, so the mode lasts exactly that long.
    pub fn switch_when_ticks(&mut self, ticks: u16, new_state: GpuState)
        requires
            ticks >= 1,
        ensures
            final(self).screen@ == old(self).screen@,
            final(self).x == old(self).x,
            final(self).y == old(self).y,
            final(self).fifo@ == old(self).fifo@,
            final(self).sprites@ == old(self).sprites@,
            final(self).pixel_transfer_state == old(self).pixel_transfer_state,
            final(self).is_pixel_transfer_first_call == old(self).is_pixel_transfer_first_call,
            final(self).dump_slice == old(self).dump_slice,
            final(self).number_of_slices_pushed == old(self).number_of_slices_pushed,
            final(self).virtual_x == old(self).virtual_x,
            final(self).transfer_dots == old(self).transfer_dots,
            final(self).finished_frames == old(self).finished_frames,
            old(self).ticks >= ticks - 1 ==> final(self).state == new_state && final(self).ticks
                == 0,
            old(self).ticks < ticks - 1 ==> final(self).state == old(self).state
                && final(self).ticks == old(self).ticks + 1,
    {
        if self.ticks >= ticks - 1 {
            self.state = new_state;
            self.ticks = 0;
        } else {
            self.ticks += 1;
        }
    }

    /// One dot of the PPU: with the LCD enabled, run the current mode's
    /// handler, publish the current scanline in LY and refresh the
    /// hardware-driven low bits of STAT; with LCDC bit 7 clear the PPU
    /// hibernates, no dots advance, the frame restarts at OAM search and LY
    /// reads zero. Of the bus, only IF (raised interrupts), STAT's low bits
    /// and LY ever move.
    pub fn tick(&mut self, layers: &mut Layers, bus: &mut Bus)
        requires
            old(self).wf(),
            old(bus).wf(),
        ensures
            final(self).wf(),
            final(bus).wf(),
            crate::bus::spec_bus_same_except_io(old(bus)@, final(bus)@, 0x0F, 0x41, 0x44, 0x44),
            spec_bus_read(final(bus)@, LY) == final(self).y,
            final(self).screen@.len() == old(self).screen@.len(),
            forall|i: int|
                0 <= i < final(self).screen@.len() && i != old(self).y ==> final(self).screen@[i]
                    == old(self).screen@[i],
            old(self).state != GpuState::PixelTransfer ==> final(self).screen@
                == old(self).screen@,
            old(self).state != GpuState::VBlank || !spec_lcd_enabled(old(bus)@) ==> final(self).finished_frames == old(self).finished_frames,
            !spec_lcd_enabled(old(bus)@) ==> final(self).state == GpuState::OamSearch
                && final(self).ticks == 0 && final(self).x == 0 && final(self).y == 0
                && final(self).sprites@ == old(self).sprites@
                && final(bus)@ == spec_publish_ly_and_stat(old(bus)@, GpuState::OamSearch, 0),
            spec_lcd_enabled(old(bus)@) ==> final(bus)@ == spec_publish_ly_and_stat(
                spec_tick_handler_bus(*old(self), old(bus)@),
                final(self).state,
                final(self).y,
            ),
            spec_lcd_enabled(old(bus)@) && old(self).state == GpuState::OamSearch ==> {
                &&& (old(self).ticks == 0 ==> final(self).y == (if old(self).y >= 144 {
                    0u8
                } else {
                    old(self).y
                }) && final(self).sprites@ == spec_oam_sprites(old(bus)@))
                &&& (old(self).ticks != 0 ==> final(self).y == old(self).y
                    && final(self).sprites@ == old(self).sprites@)
                &&& (old(self).ticks >= 79 ==> final(self).state == GpuState::PixelTransfer
                    && final(self).ticks == 0)
                &&& (old(self).ticks < 79 ==> final(self).state == GpuState::OamSearch
                    && final(self).ticks == old(self).ticks + 1)
            },
            spec_lcd_enabled(old(bus)@) && old(self).state == GpuState::HBlank ==> {
                &&& final(self).y == (if old(self).ticks == 0 {
                    (old(self).y + 1) as u8
                } else {
                    old(self).y
                })
                &&& (old(self).ticks >= spec_hblank_pad(old(self).transfer_dots) - 1 ==> final(self).ticks == 0 && final(self).state == (if final(self).y == 144 {
                    GpuState::VBlank
                } else {
                    GpuState::OamSearch
                }))
                &&& (old(self).ticks < spec_hblank_pad(old(self).transfer_dots) - 1 ==> final(self).ticks == old(self).ticks + 1 && final(self).state == GpuState::HBlank)
            },
            spec_lcd_enabled(old(bus)@) && old(self).state == GpuState::VBlank ==> {
                &&& final(self).y == (if old(self).ticks % 456 == 0 && old(self).ticks != 0 {
                    (old(self).y + 1) as u8
                } else {
                    old(self).y
                })
                &&& (old(self).ticks >= 4559 ==> final(self).state == GpuState::OamSearch
                    && final(self).ticks == 0 && final(self).finished_frames
                    == vstd::wrapping::u64_specs::wrapping_add(old(self).finished_frames, 1))
                &&& (old(self).ticks < 4559 ==> final(self).state == GpuState::VBlank
                    && final(self).ticks == old(self).ticks + 1 && final(self).finished_frames
                    == old(self).finished_frames)
            },
            spec_lcd_enabled(old(bus)@) && old(self).state == GpuState::PixelTransfer ==> {
                &&& final(self).y == old(self).y
                &&& final(self).sprites@ == old(self).sprites@
                &&& (final(self).state == GpuState::PixelTransfer || (final(self).state
                    == GpuState::HBlank && final(self).ticks == 0))
            },
    {
        // LCDC bit 7 switches the whole PPU off: it hibernates with the
        // line counter forced to zero and resumes at OAM search
        if !get_bit(bus.read(LCDC), 7) {
            self.state = GpuState::OamSearch;
            self.ticks = 0;
            self.x = 0;
            self.y = 0;
            bus.write(LY, 0);
            self.refresh_stat(bus);

            proof {
                assert(bus@ =~= spec_publish_ly_and_stat(old(bus)@, GpuState::OamSearch, 0));
            }

            return;
        }

        match self.state {
            GpuState::OamSearch => self.oam_search(bus),
            GpuState::PixelTransfer => self.pixel_transfer(layers, bus),
            GpuState::HBlank => self.hblank(layers, bus),
            GpuState::VBlank => self.vblank(layers, bus),
        }

        let ghost handler_bus: crate::bus::BusView = bus@;

        bus.write(LY, self.y);
        self.refresh_stat(bus);

        proof {
            assert(bus@ =~= spec_publish_ly_and_stat(handler_bus, self.state, self.y));
        }
    }

    /// Refreshes the hardware-driven low bits of STAT: the mode in bits 0-1
    /// and the LY==LYC coincidence in bit 2. The program cannot write them,
    /// so they land in the register directly.
    fn refresh_stat(&self, bus: &mut Bus)
        requires
            old(bus).wf(),
        ensures
            final(bus).wf(),
            final(bus)@ == (BusView {
                io: old(bus)@.io.update(
                    0x41,
                    spec_stat_byte(
                        spec_bus_read(old(bus)@, STAT),
                        self.state,
                        self.y == spec_bus_read(old(bus)@, LYC),
                    ),
                ),
                ..old(bus)@
            }),
    {
        let stat = bus.read(STAT);
        let mode: u8 = match self.state {
            GpuState::HBlank => 0,
            GpuState::VBlank => 1,
            GpuState::OamSearch => 2,
            GpuState::PixelTransfer => 3,
        };
        let coincidence: u8 = if self.y == bus.read(LYC) {
            4
        } else {
            0
        };
        let refreshed = (stat & 0xF8) | mode | coincidence;
        bus.io[0x41] = refreshed;
    }
}

} // verus!
