//! The pixel transfer mode: a five-step fetcher (get tile, low byte, high
//! byte, sleep, push) running over three layers whose slices are mixed by
//! z-index and priority, one pixel leaving the fifo per dot.

use vstd::prelude::*;

use crate::bus::{Bus, BusView};
use crate::common::{get_bit, spec_bit};
use crate::consts::LCDC;
use crate::gpu::{Color, Gpu, GpuState, PixelData, Priority};

pub mod background;
pub mod sprite;
pub mod window;

use background::{spec_bg_push, spec_bg_tile_id, spec_bg_fetch, BackgroundLayer};
use sprite::{
    spec_sprite_fetch, spec_sprite_push, spec_sprite_selection, SpriteLayer,
};
use window::{spec_window_fetch, spec_window_push, spec_window_tile_id, WindowLayer};

verus! {

/// The three layers in mixing order: the background below, the window over
/// it, the sprites on top.
pub struct Layers {
    pub background: BackgroundLayer,
    pub window: WindowLayer,
    pub sprite: SpriteLayer,
}

impl Layers {
    pub fn new() -> (result: Self)
        ensures
            result.background == (BackgroundLayer {
                lcdc_3: false,
                tile_id: 0,
                tile_data_low: 0,
                tile_data_high: 0,
                leftover_low: 0,
                leftover_high: 0,
            }),
            result.window == (WindowLayer {
                lcdc_6: false,
                tile_id: 0,
                tile_data_low: 0,
                tile_data_high: 0,
                window_ly: 0,
            }),
            result.sprite == (SpriteLayer {
                sprite_to_draw: None,
                rendered_sprites: 0,
                tile_data_low: 0,
                tile_data_high: 0,
                leftover_palette: sprite::Palette::OBP0,
                leftover_low: 0,
                leftover_high: 0,
                left_side_shift: 0,
                is_sprite_left_side: false,
            }),
    {
        Self {
            background: BackgroundLayer::new(),
            window: WindowLayer::new(),
            sprite: SpriteLayer::new(),
        }
    }
}

#[derive(PartialEq, Eq, Structural, Clone, Copy, Debug)]
pub enum PixelTransferState {
    GetTile,
    GetLowTileData,
    GetHighTileData,
    Sleep,
    PushPixels,
}

/// The color encoded by a pixel's two bit planes, high plane first.
pub open spec fn spec_bools_to_color(bool1: bool, bool2: bool) -> Color {
    match (bool1, bool2) {
        (false, false) => Color::Light,
        (false, true) => Color::MediumlyLight,
        (true, false) => Color::MediumlyDark,
        (true, true) => Color::Dark,
    }
}

pub fn bools_to_color(bool1: bool, bool2: bool) -> (result: Color)
    ensures
        result == spec_bools_to_color(bool1, bool2),
{
    match (bool1, bool2) {
        (false, false) => Color::Light,
        (false, true) => Color::MediumlyLight,
        (true, false) => Color::MediumlyDark,
        (true, true) => Color::Dark,
    }
}

/// The line of a tile as the two bytes that encode it spell it out: pixel
/// `i` takes its low plane from bit `i` of `low` and its high plane from
/// bit `i` of `high` (the fifo pops from the back, so bit 7 leaves first).
pub open spec fn spec_bytes_to_slice(low: u8, high: u8) -> Seq<PixelData> {
    Seq::new(
        8,
        |i: int|
            PixelData {
                color: spec_bools_to_color(spec_bit(high, i as u8), spec_bit(low, i as u8)),
                z_index: 0,
            },
    )
}

/// This function builds the line of a tile by the two bytes that represent it. The two
/// bits from both bytes dictate the color of a single pixel
pub fn bytes_to_slice(low: u8, high: u8) -> (result: Vec<PixelData>)
    ensures
        result@ == spec_bytes_to_slice(low, high),
{
    let mut pixel_data: Vec<PixelData> = Vec::new();
    let mut i: u8 = 0;

    while i < 8
        invariant
            i <= 8,
            pixel_data@.len() == i,
            forall|j: int| 0 <= j < i ==> pixel_data@[j] == spec_bytes_to_slice(low, high)[j],
        decreases 8 - i,
    {
        pixel_data.push(
            PixelData { color: bools_to_color(get_bit(high, i), get_bit(low, i)), z_index: 0 },
        );
        i += 1;
    }

    proof {
        assert(pixel_data@ =~= spec_bytes_to_slice(low, high));
    }

    pixel_data
}

/// The palette recoloring shared by the background and window layers: every
/// 2-bit index, transparent or not, maps through the palette byte.
pub open spec fn spec_apply_dmg_palette(slice: Seq<PixelData>, palette: u8) -> Seq<PixelData> {
    Seq::new(
        slice.len(),
        |i: int|
            PixelData {
                color: (match slice[i].color {
                    Color::Light => spec_bools_to_color(spec_bit(palette, 1), spec_bit(palette, 0)),
                    Color::MediumlyLight => spec_bools_to_color(
                        spec_bit(palette, 3),
                        spec_bit(palette, 2),
                    ),
                    Color::MediumlyDark => spec_bools_to_color(
                        spec_bit(palette, 5),
                        spec_bit(palette, 4),
                    ),
                    Color::Dark => spec_bools_to_color(
                        spec_bit(palette, 7),
                        spec_bit(palette, 6),
                    ),
                }),
                z_index: slice[i].z_index,
            },
    )
}

/// Implementation of the tile-data addressing gate of the hardware
/// schematics: tile data comes from the 0x8000 area exactly when LCDC bit 4
/// is set or the tile index is 0x80 or more.
pub open spec fn spec_vuza_gate(x: u8, y: u8) -> u16 {
    if (x & 0x10) != 0 || (y & 0x80) != 0 {
        0u16
    } else {
        1u16
    }
}

pub fn vuza_gate(x: u8, y: u8) -> (result: u16)
    ensures
        result == spec_vuza_gate(x, y),
{
    if (x & 0x10) != 0 || (y & 0x80) != 0 {
        0
    } else {
        1
    }
}

/// A 16-bit rotation to the right, used to scroll fetched tile rows by the
/// fine part of SCX.
pub open spec fn spec_rotate_right_u16(value: u16, amount: u16) -> u16 {
    (value >> amount) | (value << ((16 - amount) as u16))
}

pub fn rotate_right_u16(value: u16, amount: u16) -> (result: u16)
    requires
        0 < amount < 16,
    ensures
        result == spec_rotate_right_u16(value, amount),
{
    (value >> amount) | (value << (16 - amount))
}

/// Mixing by z-index: the above pixel shows only where it is strictly in
/// front; the slices are zipped, so the result is as long as the shorter.
pub open spec fn spec_mix_with_z_index(below: Seq<PixelData>, above: Seq<PixelData>) -> Seq<
    PixelData,
> {
    Seq::new(
        if below.len() <= above.len() {
            below.len()
        } else {
            above.len()
        },
        |i: int|
            if above[i].z_index > below[i].z_index {
                above[i]
            } else {
                below[i]
            },
    )
}

pub fn mix_with_z_index(below_slice: &Vec<PixelData>, above_slice: &Vec<PixelData>) -> (result: Vec<
    PixelData,
>)
    ensures
        result@ == spec_mix_with_z_index(below_slice@, above_slice@),
{
    let mut new_slice: Vec<PixelData> = Vec::new();
    let mut i: usize = 0;

    while i < below_slice.len() && i < above_slice.len()
        invariant
            new_slice@.len() == i,
            i <= below_slice@.len(),
            i <= above_slice@.len(),
            forall|j: int|
                0 <= j < i ==> new_slice@[j] == spec_mix_with_z_index(
                    below_slice@,
                    above_slice@,
                )[j],
        decreases below_slice@.len() - i,
    {
        // We select the pixel based on the higher z index
        if above_slice[i].z_index > below_slice[i].z_index {
            new_slice.push(above_slice[i]);
        } else {
            new_slice.push(below_slice[i]);
        }
        i += 1;
    }

    proof {
        assert(new_slice@ =~= spec_mix_with_z_index(below_slice@, above_slice@));
    }

    new_slice
}

/// Mixing for `AboveLight` sprites: the above pixel shows only where the
/// pixel below came out light.
pub open spec fn spec_mix_above_light(below: Seq<PixelData>, above: Seq<PixelData>) -> Seq<
    PixelData,
> {
    Seq::new(
        if below.len() <= above.len() {
            below.len()
        } else {
            above.len()
        },
        |i: int|
            if below[i].color == Color::Light {
                above[i]
            } else {
                below[i]
            },
    )
}

pub fn mix_above_light(below_slice: &Vec<PixelData>, above_slice: &Vec<PixelData>) -> (result: Vec<
    PixelData,
>)
    ensures
        result@ == spec_mix_above_light(below_slice@, above_slice@),
{
    let mut new_slice: Vec<PixelData> = Vec::new();
    let mut i: usize = 0;

    while i < below_slice.len() && i < above_slice.len()
        invariant
            new_slice@.len() == i,
            i <= below_slice@.len(),
            i <= above_slice@.len(),
            forall|j: int|
                0 <= j < i ==> new_slice@[j] == spec_mix_above_light(
                    below_slice@,
                    above_slice@,
                )[j],
        decreases below_slice@.len() - i,
    {
        // The above sprite will only show when the below pixel is light, no need to
        // check for priority
        if below_slice[i].color == Color::Light {
            new_slice.push(above_slice[i]);
        } else {
            new_slice.push(below_slice[i]);
        }
        i += 1;
    }

    proof {
        assert(new_slice@ =~= spec_mix_above_light(below_slice@, above_slice@));
    }

    new_slice
}

/// How the sprite slice mixes over what lies below: each selected sprite
/// carries its own priority bit, and with no sprite the slice is fully
/// transparent.
pub open spec fn spec_sprite_mix_priority(layer: SpriteLayer) -> Priority {
    match layer.sprite_to_draw {
        Some(sprite) => sprite.priority,
        None => Priority::TransparentLight,
    }
}

/// The slice the three layers push together: the background below, the
/// window mixed over it by z index, and the sprite slice mixed on top by
/// the selected sprite's priority.
pub open spec fn spec_mixed_slice(
    layers: Layers,
    number_of_slices_pushed: u8,
    b: BusView,
) -> Seq<PixelData> {
    let below = spec_mix_with_z_index(
        spec_bg_push(layers.background, number_of_slices_pushed, b).1,
        spec_window_push(layers.window, b),
    );
    let sprite = spec_sprite_push(layers.sprite, b).1;
    match spec_sprite_mix_priority(layers.sprite) {
        Priority::AlwaysAbove => sprite,
        Priority::TransparentLight => spec_mix_with_z_index(below, sprite),
        Priority::AboveLight => spec_mix_above_light(below, sprite),
    }
}

/// The fifo as one pixel-transfer dot leaves it before the pop: the push
/// step fills an empty fifo with the mixed slice (or discards the first
/// slice of a line), and every other step leaves the fifo alone.
pub open spec fn spec_fetch_fifo(gpu: Gpu, layers: Layers, b: BusView) -> Seq<PixelData> {
    if gpu.pixel_transfer_state == PixelTransferState::PushPixels && gpu.fifo@.len() == 0 {
        if gpu.dump_slice {
            Seq::<PixelData>::empty()
        } else {
            spec_mixed_slice(layers, gpu.number_of_slices_pushed, b)
        }
    } else {
        gpu.fifo@
    }
}

impl Gpu {
    /// Steps the five-step fetcher cycle forward by one state.
    pub fn cycle_state(&mut self)
        ensures
            *final(self) == (Gpu {
                pixel_transfer_state: (match old(self).pixel_transfer_state {
                    PixelTransferState::GetTile => PixelTransferState::GetLowTileData,
                    PixelTransferState::GetLowTileData => PixelTransferState::GetHighTileData,
                    PixelTransferState::GetHighTileData => PixelTransferState::Sleep,
                    PixelTransferState::Sleep => PixelTransferState::PushPixels,
                    PixelTransferState::PushPixels => PixelTransferState::GetTile,
                }),
                is_pixel_transfer_first_call: true,
                ..*old(self)
            }),
    {
        self.pixel_transfer_state = match self.pixel_transfer_state {
            PixelTransferState::GetTile => PixelTransferState::GetLowTileData,
            PixelTransferState::GetLowTileData => PixelTransferState::GetHighTileData,
            PixelTransferState::GetHighTileData => PixelTransferState::Sleep,
            PixelTransferState::Sleep => PixelTransferState::PushPixels,
            PixelTransferState::PushPixels => PixelTransferState::GetTile,
        };

        self.is_pixel_transfer_first_call = true;
    }

    /// Inverts the `is_pixel_transfer_first_call` field and returns the previous value,
    /// meant to be used in the pixel transfer states to check whether to activate step 1
    /// or step 2
    pub fn is_first_call(&mut self) -> (result: bool)
        ensures
            *final(self) == (Gpu {
                is_pixel_transfer_first_call: !old(self).is_pixel_transfer_first_call,
                ..*old(self)
            }),
            result == old(self).is_pixel_transfer_first_call,
    {
        self.is_pixel_transfer_first_call = !self.is_pixel_transfer_first_call;
        !self.is_pixel_transfer_first_call
    }

    /// In this state the pixels are getting fetched and put into the screen; it has 5
    /// steps, and except the fifth step, they last 2 dots
    /// 1. Get tile
    /// 2. Get low tile data
    /// 3. Get high tile data
    /// 4. Sleep
    /// 5. Pushing pixels
    pub fn pixel_transfer(&mut self, layers: &mut Layers, bus: &Bus)
        requires
            old(self).wf(),
            bus.wf(),
            old(self).state == GpuState::PixelTransfer,
        ensures
            final(self).wf(),
            final(self).y == old(self).y,
            final(self).sprites@ == old(self).sprites@,
            final(self).screen@.len() == old(self).screen@.len(),
            forall|i: int|
                0 <= i < final(self).screen@.len() && i != old(self).y ==> final(self).screen@[i]
                    == old(self).screen@[i],
            final(self).state == GpuState::PixelTransfer || (final(self).state == GpuState::HBlank
                && final(self).ticks == 0),
            final(self).finished_frames == old(self).finished_frames,
            final(self).state == GpuState::PixelTransfer ==> final(self).transfer_dots == old(self).transfer_dots,
            final(self).state == GpuState::HBlank ==> final(self).transfer_dots
                == vstd::wrapping::u16_specs::wrapping_add(old(self).ticks, 1),
            ({
                let fifo_mid = spec_fetch_fifo(*old(self), *old(layers), bus@);
                &&& (fifo_mid.len() == 0 ==> final(self).x == old(self).x && final(self).screen@
                    == old(self).screen@ && final(self).fifo@ == fifo_mid && final(self).state
                    == GpuState::PixelTransfer && final(self).ticks
                    == vstd::wrapping::u16_specs::wrapping_add(old(self).ticks, 1))
                &&& (fifo_mid.len() > 0 ==> {
                    &&& final(self).x == old(self).x + 1
                    &&& final(self).fifo@ == fifo_mid.subrange(0, fifo_mid.len() - 1)
                    &&& final(self).screen@[old(self).y as int]@
                        == old(self).screen@[old(self).y as int]@.update(
                        old(self).x as int,
                        fifo_mid[fifo_mid.len() - 1].color,
                    )
                    &&& (old(self).x + 1 == 160 ==> final(self).state == GpuState::HBlank
                        && final(self).ticks == 0 && final(self).number_of_slices_pushed == 0)
                    &&& (old(self).x + 1 < 160 ==> final(self).state == GpuState::PixelTransfer
                        && final(self).ticks == vstd::wrapping::u16_specs::wrapping_add(
                        old(self).ticks,
                        1,
                    ))
                })
            }),
    {
        match self.pixel_transfer_state {
            PixelTransferState::GetTile => self.get_tile(layers, bus),
            PixelTransferState::GetLowTileData => self.get_tile_data(false, layers, bus),
            PixelTransferState::GetHighTileData => self.get_tile_data(true, layers, bus),
            PixelTransferState::Sleep => self.sleep(),
            PixelTransferState::PushPixels => self.push_pixels(layers, bus),
        }

        // Pop one pixel and display it
        if let Some(pixel_data) = self.fifo.pop() {
            let y = self.y as usize;
            let x = self.x as usize;
            self.screen[y][x] = pixel_data.color;
            self.x += 1;
        }

        if self.x == 160 {
            // Remember how long this line's transfer ran so HBlank can pad
            // the scanline out to 456 dots
            self.transfer_dots = self.ticks.wrapping_add(1);
            self.state = GpuState::HBlank;
            self.ticks = 0;
            self.number_of_slices_pushed = 0;

            return;
        }

        self.ticks = self.ticks.wrapping_add(1);
    }

    /// The two-dot tile fetch: the first dot latches the layers' control
    /// bits, the second reads the tile indices and advances the fetcher.
    pub fn get_tile(&mut self, layers: &mut Layers, bus: &Bus)
        requires
            old(self).wf(),
            bus.wf(),
            old(self).pixel_transfer_state == PixelTransferState::GetTile,
        ensures
            final(self).wf(),
            final(self).screen@ == old(self).screen@,
            final(self).ticks == old(self).ticks,
            final(self).state == old(self).state,
            final(self).x == old(self).x,
            final(self).y == old(self).y,
            final(self).fifo@ == old(self).fifo@,
            final(self).sprites@ == old(self).sprites@,
            final(self).dump_slice == old(self).dump_slice,
            final(self).number_of_slices_pushed == old(self).number_of_slices_pushed,
            final(self).transfer_dots == old(self).transfer_dots,
            final(self).finished_frames == old(self).finished_frames,
            old(self).is_pixel_transfer_first_call ==> {
                &&& *final(self) == (Gpu {
                    is_pixel_transfer_first_call: false,
                    ..*old(self)
                })
                &&& final(layers).background == (BackgroundLayer {
                    lcdc_3: spec_bit(crate::bus::spec_bus_read(bus@, LCDC), 3),
                    ..old(layers).background
                })
                &&& final(layers).window == (WindowLayer {
                    lcdc_6: spec_bit(crate::bus::spec_bus_read(bus@, LCDC), 6),
                    ..old(layers).window
                })
                &&& final(layers).sprite == old(layers).sprite
            },
            !old(self).is_pixel_transfer_first_call ==> ({
                let vx = vstd::wrapping::u8_specs::wrapping_mul(
                    old(self).number_of_slices_pushed,
                    8,
                );
                &&& *final(self) == (Gpu {
                    virtual_x: vx,
                    pixel_transfer_state: PixelTransferState::GetLowTileData,
                    is_pixel_transfer_first_call: true,
                    ..*old(self)
                })
                &&& final(layers).background == (BackgroundLayer {
                    tile_id: spec_bg_tile_id(old(layers).background, vx, bus@),
                    ..old(layers).background
                })
                &&& final(layers).window == (WindowLayer {
                    tile_id: spec_window_tile_id(old(layers).window, vx, bus@),
                    ..old(layers).window
                })
                &&& final(layers).sprite == spec_sprite_selection(
                    old(layers).sprite,
                    old(self).sprites@,
                    old(self).y,
                    vx,
                    bus@,
                )
            }),
    {
        if self.is_first_call() {
            layers.background.get_tile_step_1(self, bus);
            layers.window.get_tile_step_1(self, bus);
            layers.sprite.get_tile_step_1(self, bus);
        } else {
            // This is where the X pointer would be if we always pushed 8 pixels at a
            // time (which happens when SCX is not a multiple of 8)
            self.virtual_x = self.number_of_slices_pushed.wrapping_mul(8);

            layers.background.get_tile_step_2(self, bus);
            layers.window.get_tile_step_2(self, bus);
            layers.sprite.get_tile_step_2(self, bus);

            self.cycle_state();
        }
    }

    /// The two-dot data fetch: everything happens on the second dot.
    pub fn get_tile_data(&mut self, is_high_part: bool, layers: &mut Layers, bus: &Bus)
        requires
            old(self).wf(),
            bus.wf(),
            old(self).pixel_transfer_state == (if is_high_part {
                PixelTransferState::GetHighTileData
            } else {
                PixelTransferState::GetLowTileData
            }),
        ensures
            final(self).wf(),
            final(self).screen@ == old(self).screen@,
            final(self).ticks == old(self).ticks,
            final(self).state == old(self).state,
            final(self).x == old(self).x,
            final(self).y == old(self).y,
            final(self).fifo@ == old(self).fifo@,
            final(self).sprites@ == old(self).sprites@,
            final(self).dump_slice == old(self).dump_slice,
            final(self).number_of_slices_pushed == old(self).number_of_slices_pushed,
            final(self).virtual_x == old(self).virtual_x,
            final(self).transfer_dots == old(self).transfer_dots,
            final(self).finished_frames == old(self).finished_frames,
            old(self).is_pixel_transfer_first_call ==> *final(self) == (Gpu {
                is_pixel_transfer_first_call: false,
                ..*old(self)
            }) && *final(layers) == *old(layers),
            !old(self).is_pixel_transfer_first_call ==> {
                &&& *final(self) == (Gpu {
                    pixel_transfer_state: (if is_high_part {
                        PixelTransferState::Sleep
                    } else {
                        PixelTransferState::GetHighTileData
                    }),
                    is_pixel_transfer_first_call: true,
                    ..*old(self)
                })
                &&& final(layers).background == spec_bg_fetch(
                    old(layers).background,
                    bus@,
                    is_high_part,
                )
                &&& final(layers).window == spec_window_fetch(
                    old(layers).window,
                    old(self).y,
                    bus@,
                    is_high_part,
                )
                &&& final(layers).sprite == spec_sprite_fetch(
                    old(layers).sprite,
                    old(self).y,
                    bus@,
                    is_high_part,
                )
            },
    {
        // This step takes two ticks, so we do all the work on the second one
        if self.is_first_call() {
            return;
        }

        layers.background.get_tile_data(is_high_part, self, bus);
        layers.window.get_tile_data(is_high_part, self, bus);
        layers.sprite.get_tile_data(is_high_part, self, bus);

        self.cycle_state();
    }

    /// The push step: once the fifo has drained, the three layers' slices
    /// are mixed bottom to top and appended (the very first slice of a line
    /// is discarded, as the hardware does while it settles).
    pub fn push_pixels(&mut self, layers: &mut Layers, bus: &Bus)
        requires
            old(self).wf(),
            bus.wf(),
            old(self).pixel_transfer_state == PixelTransferState::PushPixels,
        ensures
            final(self).wf(),
            final(self).screen@ == old(self).screen@,
            final(self).ticks == old(self).ticks,
            final(self).state == old(self).state,
            final(self).x == old(self).x,
            final(self).y == old(self).y,
            final(self).sprites@ == old(self).sprites@,
            final(self).virtual_x == old(self).virtual_x,
            final(self).transfer_dots == old(self).transfer_dots,
            final(self).finished_frames == old(self).finished_frames,
            old(self).fifo@.len() > 0 ==> *final(self) == *old(self) && *final(layers) == *old(
                layers,
            ),
            old(self).fifo@.len() == 0 ==> {
                &&& final(self).pixel_transfer_state == PixelTransferState::GetTile
                &&& final(self).is_pixel_transfer_first_call
                &&& final(layers).background == spec_bg_push(
                    old(layers).background,
                    old(self).number_of_slices_pushed,
                    bus@,
                ).0
                &&& final(layers).window == old(layers).window
                &&& final(layers).sprite == spec_sprite_push(old(layers).sprite, bus@).0
                &&& (old(self).dump_slice ==> final(self).fifo@ == Seq::<PixelData>::empty()
                    && !final(self).dump_slice
                    && final(self).number_of_slices_pushed == old(self).number_of_slices_pushed)
                &&& (!old(self).dump_slice ==> final(self).fifo@ == spec_mixed_slice(
                    *old(layers),
                    old(self).number_of_slices_pushed,
                    bus@,
                ) && final(self).dump_slice == old(self).dump_slice
                    && final(self).number_of_slices_pushed
                    == vstd::wrapping::u8_specs::wrapping_add(
                    old(self).number_of_slices_pushed,
                    1,
                ))
            },
    {
        if !self.fifo.is_empty() {
            return;
        }

        let below = bytes_to_slice(0, 0);

        // The background replaces whatever is below it
        let bg_slice = layers.background.push_pixels(self, bus);
        let below = match layers.background.mix_with_layer_below() {
            Priority::AlwaysAbove => bg_slice,
            Priority::TransparentLight => mix_with_z_index(&below, &bg_slice),
            Priority::AboveLight => mix_above_light(&below, &bg_slice),
        };

        let window_slice = layers.window.push_pixels(self, bus);
        let below = match layers.window.mix_with_layer_below() {
            Priority::AlwaysAbove => window_slice,
            Priority::TransparentLight => mix_with_z_index(&below, &window_slice),
            Priority::AboveLight => mix_above_light(&below, &window_slice),
        };

        let sprite_slice = layers.sprite.push_pixels(self, bus);
        let mut slice = match layers.sprite.mix_with_layer_below() {
            Priority::AlwaysAbove => sprite_slice,
            Priority::TransparentLight => mix_with_z_index(&below, &sprite_slice),
            Priority::AboveLight => mix_above_light(&below, &sprite_slice),
        };

        if self.dump_slice {
            slice.clear();
            self.dump_slice = false;
        } else {
            self.number_of_slices_pushed = self.number_of_slices_pushed.wrapping_add(1);
        }

        self.fifo.append(&mut slice);
        self.cycle_state();
    }

    /// The two-dot pause between fetching and pushing.
    pub fn sleep(&mut self)
        requires
            old(self).pixel_transfer_state == PixelTransferState::Sleep,
        ensures
            ({
                let flipped = Gpu {
                    is_pixel_transfer_first_call: !old(self).is_pixel_transfer_first_call,
                    ..*old(self)
                };
                *final(self) == (if old(self).is_pixel_transfer_first_call {
                    flipped
                } else {
                    Gpu {
                        pixel_transfer_state: PixelTransferState::PushPixels,
                        is_pixel_transfer_first_call: true,
                        ..flipped
                    }
                })
            }),
    {
        if !self.is_first_call() {
            self.cycle_state();
        }
    }
}

} // verus!
