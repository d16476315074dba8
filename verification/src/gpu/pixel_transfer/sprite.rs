//! The sprite layer: picks, for the slice under the beam, the matching
//! entry among the sprites kept at OAM search (smaller X first, earlier
//! OAM entry on ties), fetches its tile row honoring the two flip bits and
//! the 8x16 mode, and colors it through OBP0 or OBP1.

use vstd::prelude::*;

use crate::bus::{spec_bus_read, Bus, BusView};
use crate::common::{get_bit, spec_bit};
use crate::consts::{LCDC, OBP0, OBP1};
use crate::gpu::pixel_transfer::{
    bytes_to_slice, rotate_right_u16, spec_bools_to_color, spec_bytes_to_slice,
    spec_rotate_right_u16,
};
use crate::gpu::{Color, Gpu, PixelData, Priority};

verus! {

#[derive(Clone, Copy, PartialEq, Eq, Structural, Debug)]
pub enum Palette {
    OBP0,
    OBP1,
}

#[derive(Clone, Copy, PartialEq, Eq, Structural, Debug)]
pub struct SpriteData {
    pub y: u8,
    pub x: u8,
    pub tile_number: u8,

    // Flags
    pub priority: Priority,
    pub palette: Palette,
    pub x_flip: bool,
    pub y_flip: bool,
}

pub struct SpriteLayer {
    pub sprite_to_draw: Option<SpriteData>,
    pub rendered_sprites: u8,
    pub tile_data_low: u16,
    pub tile_data_high: u16,

    // When a sprite is cut off because it's not on the 8x8 grid, the data that got cut
    // off is stored in these variables so we can push it out later
    pub leftover_palette: Palette,
    pub leftover_low: u8,
    pub leftover_high: u8,

    /// When a sprite wraps around the rightmost part of the display and appears on the
    /// left, this is the number of pixels we have to remove to make it look like it's
    /// smoothly appearing
    pub left_side_shift: u8,

    /// If the sprite we are rendering is as said above, halfway hblank and the first
    /// pixels of the left side
    pub is_sprite_left_side: bool,
}

/// Returns the sprite with the highest priority: the smaller X wins, and on
/// a tie the later candidate (the lower OAM address, scanned last) wins.
pub open spec fn spec_sprite_priority(sprite1: SpriteData, sprite2: SpriteData) -> SpriteData {
    if sprite1.x < sprite2.x {
        sprite1
    } else {
        sprite2
    }
}

/// A 16-pixel-tall sprite reads its top half from its tile number with the
/// low bit forced to 0 and its bottom half with it forced to 1, the two
/// halves swapping when the sprite is y-flipped.
pub open spec fn spec_adjust_tall_sprite(sprite: SpriteData, sprite_height: u8, y: u8) -> SpriteData {
    let sprite_y = (sprite.y - 16) as u8;
    let top = sprite_y <= y < sprite_y + 8 && sprite_height == 16;
    let bottom = sprite_y + 8 <= y < sprite_y + 16 && sprite_height == 16;
    if top {
        SpriteData {
            tile_number: if sprite.y_flip {
                sprite.tile_number | 0x01
            } else {
                sprite.tile_number & 0xFE
            },
            ..sprite
        }
    } else if bottom {
        SpriteData {
            tile_number: if sprite.y_flip {
                sprite.tile_number & 0xFE
            } else {
                sprite.tile_number | 0x01
            },
            ..sprite
        }
    } else {
        sprite
    }
}

/// One step of the scan over the kept sprites. The running state is the
/// best candidate so far together with the left-edge wrap bookkeeping.
pub open spec fn spec_sprite_scan_step(
    state: (Option<SpriteData>, u8, bool),
    sprite: SpriteData,
    sprite_height: u8,
    y: u8,
    virtual_x: u8,
) -> (Option<SpriteData>, u8, bool) {
    if sprite.y < 16 {
        state
    } else {
        let (shift, left_side) = if sprite.x >= 0xF9 {
            (((0xFF - sprite.x + 1) as u8), true)
        } else {
            (state.1, state.2)
        };
        let sprite_x = if sprite.x >= 7 {
            (sprite.x - 7) as u8
        } else {
            0u8
        };
        let sprite_y = (sprite.y - 16) as u8;
        if sprite_x <= virtual_x < vstd::wrapping::u8_specs::wrapping_add(sprite_x, 8) && sprite_y
            <= y < sprite_y + sprite_height {
            let adjusted = spec_adjust_tall_sprite(sprite, sprite_height, y);
            let selected = match state.0 {
                Some(existing) => spec_sprite_priority(existing, adjusted),
                None => adjusted,
            };
            (Some(selected), shift, left_side)
        } else {
            (state.0, shift, left_side)
        }
    }
}

/// The scan folded over the first `n` kept sprites, starting from no
/// candidate and the layer's current wrap bookkeeping.
pub open spec fn spec_sprite_scan(
    sprites: Seq<SpriteData>,
    n: int,
    init: (Option<SpriteData>, u8, bool),
    sprite_height: u8,
    y: u8,
    virtual_x: u8,
) -> (Option<SpriteData>, u8, bool)
    decreases n,
{
    if n <= 0 {
        init
    } else {
        spec_sprite_scan_step(
            spec_sprite_scan(sprites, n - 1, init, sprite_height, y, virtual_x),
            sprites[n - 1],
            sprite_height,
            y,
            virtual_x,
        )
    }
}

/// A byte with its bits mirrored, as x-flipped sprites need.
pub open spec fn spec_reverse_bits(value: u8) -> u8 {
    let v1 = ((value >> 4) | (value << 4)) as u8;
    let v2 = (((v1 & 0xCC) >> 2) | ((v1 & 0x33) << 2)) as u8;
    ((((v2 & 0xAA) >> 1) | ((v2 & 0x55) << 1))) as u8
}

pub fn reverse_bits(value: u8) -> (result: u8)
    ensures
        result == spec_reverse_bits(value),
{
    let v1 = (value >> 4) | (value << 4);
    let v2 = ((v1 & 0xCC) >> 2) | ((v1 & 0x33) << 2);
    ((v2 & 0xAA) >> 1) | ((v2 & 0x55) << 1)
}

/// A sprite palette applied to a raw slice: the transparent pixels stay
/// light at z 0, every other pixel maps through OBP0 or OBP1 and rises to
/// z 2, above the background and window.
pub open spec fn spec_apply_sprite_palette(slice: Seq<PixelData>, palette: u8) -> Seq<PixelData> {
    Seq::new(
        slice.len(),
        |i: int|
            PixelData {
                color: (match slice[i].color {
                    Color::Light => Color::Light,
                    Color::MediumlyLight => spec_bools_to_color(
                        spec_bit(palette, 3),
                        spec_bit(palette, 2),
                    ),
                    Color::MediumlyDark => spec_bools_to_color(
                        spec_bit(palette, 5),
                        spec_bit(palette, 4),
                    ),
                    Color::Dark => spec_bools_to_color(
                        spec_bit(palette, 7),
                        spec_bit(palette, 6),
                    ),
                }),
                z_index: if slice[i].color == Color::Light {
                    slice[i].z_index
                } else {
                    2
                },
            },
    )
}

/// The palette byte a sprite palette name stands for.
pub open spec fn spec_palette_byte(b: BusView, palette: Palette) -> u8 {
    match palette {
        Palette::OBP0 => spec_bus_read(b, OBP0),
        Palette::OBP1 => spec_bus_read(b, OBP1),
    }
}

/// Takes in a slice and colors it according to a palette
pub fn apply_palette_to_slice(slice: &mut Vec<PixelData>, palette: Palette, bus: &Bus)
    requires
        bus.wf(),
    ensures
        final(slice)@ == spec_apply_sprite_palette(old(slice)@, spec_palette_byte(bus@, palette)),
{
    let palette_byte = match palette {
        Palette::OBP0 => bus.read(OBP0),
        Palette::OBP1 => bus.read(OBP1),
    };

    let id_1 = crate::gpu::pixel_transfer::bools_to_color(
        get_bit(palette_byte, 3),
        get_bit(palette_byte, 2),
    );
    let id_2 = crate::gpu::pixel_transfer::bools_to_color(
        get_bit(palette_byte, 5),
        get_bit(palette_byte, 4),
    );
    let id_3 = crate::gpu::pixel_transfer::bools_to_color(
        get_bit(palette_byte, 7),
        get_bit(palette_byte, 6),
    );

    let mut i: usize = 0;

    while i < slice.len()
        invariant
            slice@.len() == old(slice)@.len(),
            i <= slice@.len(),
            id_1 == spec_bools_to_color(spec_bit(palette_byte, 3), spec_bit(palette_byte, 2)),
            id_2 == spec_bools_to_color(spec_bit(palette_byte, 5), spec_bit(palette_byte, 4)),
            id_3 == spec_bools_to_color(spec_bit(palette_byte, 7), spec_bit(palette_byte, 6)),
            palette_byte == spec_palette_byte(bus@, palette),
            forall|j: int|
                0 <= j < i ==> slice@[j] == spec_apply_sprite_palette(
                    old(slice)@,
                    palette_byte,
                )[j],
            forall|j: int| i <= j < slice@.len() ==> slice@[j] == old(slice)@[j],
        decreases slice@.len() - i,
    {
        let pixel = slice[i];

        // The Light pixels are transparent, so we give higher priority to every other
        // color
        let z_index: u8 = if pixel.color == Color::Light {
            pixel.z_index
        } else {
            2
        };

        // Sprites can still show Light pixels by mapping another color to Light
        let color = match pixel.color {
            Color::Light => Color::Light,
            Color::MediumlyLight => id_1,
            Color::MediumlyDark => id_2,
            Color::Dark => id_3,
        };

        slice[i] = PixelData { color, z_index };
        i += 1;
    }

    proof {
        assert(slice@ =~= spec_apply_sprite_palette(
            old(slice)@,
            spec_palette_byte(bus@, palette),
        ));
    }
}

/// The sprite layer after its tile-index step: the scan over the kept
/// sprites folded front to back, with the sprite height LCDC bit 2 selects.
pub open spec fn spec_sprite_selection(
    layer: SpriteLayer,
    sprites: Seq<SpriteData>,
    y: u8,
    virtual_x: u8,
    b: BusView,
) -> SpriteLayer {
    let sprite_height: u8 = if spec_bit(spec_bus_read(b, LCDC), 2) {
        16u8
    } else {
        8u8
    };
    let scanned = spec_sprite_scan(
        sprites,
        sprites.len() as int,
        (None, layer.left_side_shift, layer.is_sprite_left_side),
        sprite_height,
        y,
        virtual_x,
    );
    SpriteLayer {
        sprite_to_draw: scanned.0,
        left_side_shift: scanned.1,
        is_sprite_left_side: scanned.2,
        ..layer
    }
}

/// The sprite layer after its data fetch on beam line `y`.
pub open spec fn spec_sprite_fetch(layer: SpriteLayer, y: u8, b: BusView, is_high_part: bool) -> SpriteLayer {
    let data = spec_sprite_tile_data(layer, y, b, is_high_part);
    SpriteLayer { tile_data_low: data.0, tile_data_high: data.1, ..layer }
}

/// The sprite layer and the slice its push step hands out: a transparent
/// slice when the layer is off or the ten-sprite budget of the line is
/// spent, the leftover half of a clipped sprite when no new one matched,
/// or the matched sprite's pixels chained with the leftovers and colored
/// through its palette, counting against the budget either way.
pub open spec fn spec_sprite_push(layer: SpriteLayer, b: BusView) -> (SpriteLayer, Seq<PixelData>) {
    if !spec_bit(spec_bus_read(b, LCDC), 1) || layer.rendered_sprites > 10 {
        (layer, spec_bytes_to_slice(0, 0))
    } else if layer.sprite_to_draw is None && (layer.leftover_high != 0 || layer.leftover_low
        != 0) {
        let slice = spec_apply_sprite_palette(
            spec_bytes_to_slice(
                (layer.tile_data_low >> 8) as u8,
                (layer.tile_data_high >> 8) as u8,
            ),
            spec_palette_byte(b, layer.leftover_palette),
        );
        (
            SpriteLayer {
                leftover_low: 0,
                leftover_high: 0,
                rendered_sprites: (layer.rendered_sprites + 1) as u8,
                ..layer
            },
            slice,
        )
    } else {
        match layer.sprite_to_draw {
            None => (layer, spec_bytes_to_slice(0, 0)),
            Some(sprite) => {
                let low = layer.tile_data_low | layer.leftover_low as u16;
                let high = layer.tile_data_high | layer.leftover_high as u16;
                let slice = spec_apply_sprite_palette(
                    spec_bytes_to_slice((low % 0x100) as u8, (high % 0x100) as u8),
                    spec_palette_byte(b, sprite.palette),
                );
                (
                    SpriteLayer {
                        tile_data_low: low,
                        tile_data_high: high,
                        leftover_palette: sprite.palette,
                        leftover_low: (low >> 8) as u8,
                        leftover_high: (high >> 8) as u8,
                        rendered_sprites: (layer.rendered_sprites + 1) as u8,
                        ..layer
                    },
                    slice,
                )
            },
        }
    }
}

impl SpriteLayer {
    pub fn new() -> (result: Self)
        ensures
            result == (SpriteLayer {
                sprite_to_draw: None,
                rendered_sprites: 0,
                tile_data_low: 0,
                tile_data_high: 0,
                leftover_palette: Palette::OBP0,
                leftover_low: 0,
                leftover_high: 0,
                left_side_shift: 0,
                is_sprite_left_side: false,
            }),
    {
        Self {
            sprite_to_draw: None,
            rendered_sprites: 0,
            tile_data_low: 0,
            tile_data_high: 0,
            leftover_palette: Palette::OBP0,
            leftover_low: 0,
            leftover_high: 0,
            left_side_shift: 0,
            is_sprite_left_side: false,
        }
    }

    /// LCDC bit 1 switches the sprites on and off.
    pub fn is_layer_enabled(&self, bus: &Bus) -> (result: bool)
        requires
            bus.wf(),
        ensures
            result == spec_bit(spec_bus_read(bus@, LCDC), 1),
    {
        get_bit(bus.read(LCDC), 1)
    }

    /// Each sprite carries its own priority bit: above everything, or above
    /// only light background.
    pub fn mix_with_layer_below(&self) -> (result: Priority)
        ensures
            result == (match self.sprite_to_draw {
                Some(sprite_to_draw) => sprite_to_draw.priority,
                None => Priority::TransparentLight,
            }),
    {
        if let Some(sprite_to_draw) = self.sprite_to_draw {
            return sprite_to_draw.priority;
        }

        Priority::TransparentLight
    }

    /// The sprite fetcher has nothing to latch on the first dot.
    pub fn get_tile_step_1(&mut self, _gpu: &Gpu, _bus: &Bus)
        ensures
            *final(self) == *old(self),
    {
    }

    /// Scans the sprites kept at OAM search for the one covering the
    /// current slice, smaller X first, handling 8x16 sprites and the ones
    /// wrapping around the right edge of the screen.
    pub fn get_tile_step_2(&mut self, gpu: &Gpu, bus: &Bus)
        requires
            bus.wf(),
        ensures
            *final(self) == spec_sprite_selection(
                *old(self),
                gpu.sprites@,
                gpu.y,
                gpu.virtual_x,
                bus@,
            ),
    {
        self.sprite_to_draw = None;

        // Sprites can either be 8 pixels high or 16 pixels high
        let sprite_height: u8 = match get_bit(bus.read(LCDC), 2) {
            false => 8,
            true => 16,
        };

        let ghost init: (Option<SpriteData>, u8, bool) = (
            None,
            self.left_side_shift,
            self.is_sprite_left_side,
        );

        let mut i: usize = 0;

        while i < gpu.sprites.len()
            invariant
                i <= gpu.sprites@.len(),
                sprite_height == 8 || sprite_height == 16,
                (self.sprite_to_draw, self.left_side_shift, self.is_sprite_left_side)
                    == spec_sprite_scan(
                    gpu.sprites@,
                    i as int,
                    init,
                    sprite_height,
                    gpu.y,
                    gpu.virtual_x,
                ),
                self.rendered_sprites == old(self).rendered_sprites,
                self.tile_data_low == old(self).tile_data_low,
                self.tile_data_high == old(self).tile_data_high,
                self.leftover_palette == old(self).leftover_palette,
                self.leftover_low == old(self).leftover_low,
                self.leftover_high == old(self).leftover_high,
            decreases gpu.sprites@.len() - i,
        {
            let sprite = gpu.sprites[i];
            i += 1;

            if sprite.y < 16 {
                continue;
            }

            let mut sprite_to_draw = sprite;

            // After coordinate `0xF9` the sprite starts to wrap around the screen
            if sprite_to_draw.x >= 0xF9 {
                // we just handle it as if it was on coordinate 0, and we shift the pixels
                // later
                self.left_side_shift = 0xFF - sprite_to_draw.x + 1;
                self.is_sprite_left_side = true;
            }

            // The X origin carries an offset of 7 rather than the full sprite width
            let sprite_x = if sprite_to_draw.x >= 7 {
                sprite_to_draw.x - 7
            } else {
                0
            };
            let sprite_y = sprite_to_draw.y - 16;

            if sprite_x <= gpu.virtual_x && gpu.virtual_x < sprite_x.wrapping_add(8) && sprite_y
                <= gpu.y && gpu.y < sprite_y + sprite_height {
                // We are rendering the top of a tall sprite
                if sprite_y <= gpu.y && gpu.y < sprite_y + 8 && sprite_height == 16 {
                    sprite_to_draw.tile_number = match sprite_to_draw.y_flip {
                        false => sprite_to_draw.tile_number & 0xFE,
                        true => sprite_to_draw.tile_number | 0x01,
                    };
                }

                // We are rendering the bottom of a tall sprite
                if sprite_y + 8 <= gpu.y && gpu.y < sprite_y + 16 && sprite_height == 16 {
                    sprite_to_draw.tile_number = match sprite_to_draw.y_flip {
                        false => sprite_to_draw.tile_number | 0x01,
                        true => sprite_to_draw.tile_number & 0xFE,
                    };
                }

                self.sprite_to_draw = Some(
                    match self.sprite_to_draw {
                        Some(existing_sprite) => {
                            if existing_sprite.x < sprite_to_draw.x {
                                existing_sprite
                            } else {
                                sprite_to_draw
                            }
                        },
                        None => sprite_to_draw,
                    },
                );
            }
        }
    }

    /// Fetches one row of the selected sprite's tile, mirroring it for the
    /// flip bits and rotating it into place for sprites off the 8x8 grid.
    pub fn get_tile_data(&mut self, is_high_part: bool, gpu: &Gpu, bus: &Bus)
        requires
            bus.wf(),
        ensures
            *final(self) == spec_sprite_fetch(*old(self), gpu.y, bus@, is_high_part),
    {
        let sprite_to_draw = match self.sprite_to_draw {
            Some(sprite_to_draw) => sprite_to_draw,
            None => { return; },
        };

        let mut address = (0b1000u16 << 12) | ((sprite_to_draw.tile_number as u16) << 4) | (((
        gpu.y.wrapping_sub(sprite_to_draw.y) % 8) as u16) << 1) | (if is_high_part {
            1u16
        } else {
            0u16
        });

        // When vertically flipping we have to invert bits 1-3 of the address
        if sprite_to_draw.y_flip {
            address = address ^ 0b0000_0000_0000_1110;
        }

        let mut tile_data = bus.read(address);

        // When horizontally flipping we have to reverse the read byte
        if sprite_to_draw.x_flip {
            tile_data = reverse_bits(tile_data);
        }

        let mut tile_data: u16 = tile_data as u16;

        // We remove the first pixels to make the illusion of the sprite being halfway
        // on the screen
        if !self.is_sprite_left_side {
            tile_data = tile_data << (self.left_side_shift % 16);
        }

        // This is the offset that makes sprites that are not on a 8x8 grid render
        // correctly. So for example if a sprite is on coordinate "17", we need to move
        // it 1 pixel to the right of where it would otherwise be
        let rotation = sprite_to_draw.x % 8;
        if rotation != 0 {
            tile_data = rotate_right_u16(tile_data, rotation as u16);
        }

        match is_high_part {
            false => self.tile_data_low = tile_data,
            true => self.tile_data_high = tile_data,
        };
    }

    /// Pushes the sprite slice: the selected sprite's pixels colored by its
    /// palette, or the half of the previous sprite that was cut off, or a
    /// transparent slice when there is nothing to draw (or the ten-sprite
    /// budget of the line is spent).
    pub fn push_pixels(&mut self, _gpu: &Gpu, bus: &Bus) -> (result: Vec<PixelData>)
        requires
            bus.wf(),
        ensures
            result@.len() == 8,
            *final(self) == spec_sprite_push(*old(self), bus@).0,
            result@ == spec_sprite_push(*old(self), bus@).1,
    {
        if !self.is_layer_enabled(bus) || self.rendered_sprites > 10 {
            return bytes_to_slice(0, 0);
        }

        // When we have rendered a part of a sprite but not all of it and there's no
        // sprite left to render, we just push the other half of the sprite
        if self.sprite_to_draw.is_none() && (self.leftover_high != 0 || self.leftover_low != 0) {
            let mut leftover_slice = bytes_to_slice(
                (self.tile_data_low >> 8) as u8,
                (self.tile_data_high >> 8) as u8,
            );

            apply_palette_to_slice(&mut leftover_slice, self.leftover_palette, bus);

            self.leftover_low = 0;
            self.leftover_high = 0;

            self.rendered_sprites += 1;
            return leftover_slice;
        }

        let sprite_to_draw = match self.sprite_to_draw {
            Some(sprite_to_draw) => sprite_to_draw,
            None => { return bytes_to_slice(0, 0); },
        };

        // When we render a part of a sprite but not all of it but we also have another
        // sprite to render on the same line, in that case we OR them together so the
        // other half of the sprite and the other sprite we have to render look seamless
        self.tile_data_low = self.tile_data_low | self.leftover_low as u16;
        self.tile_data_high = self.tile_data_high | self.leftover_high as u16;

        let mut slice = bytes_to_slice(
            (self.tile_data_low % 0x100) as u8,
            (self.tile_data_high % 0x100) as u8,
        );

        self.leftover_palette = sprite_to_draw.palette;
        apply_palette_to_slice(&mut slice, sprite_to_draw.palette, bus);

        // The leftover bytes are just the parts of the slice we haven't rendered yet
        self.leftover_low = (self.tile_data_low >> 8) as u8;
        self.leftover_high = (self.tile_data_high >> 8) as u8;

        self.rendered_sprites += 1;
        slice
    }

    /// Between lines the per-line sprite budget and the fetched data start
    /// over, so clipped sprites do not bleed into the next line.
    pub fn at_hblank(&mut self, _bus: &Bus, _gpu: &Gpu)
        ensures
            *final(self) == (SpriteLayer {
                rendered_sprites: 0,
                leftover_low: 0,
                leftover_high: 0,
                tile_data_low: 0,
                tile_data_high: 0,
                ..*old(self)
            }),
    {
        self.rendered_sprites = 0;

        // This makes it so sprites don't reappear from the left side when they are
        // clipped on the right side of the screen
        self.leftover_low = 0;
        self.leftover_high = 0;
        self.tile_data_low = 0;
        self.tile_data_high = 0;
    }

} // impl SpriteLayer

/// The tile-data words the sprite fetch leaves behind: the row selected by
/// the beam line `y` and the flip bits, shifted for edge wrapping and
/// rotated for the fine X offset.
pub open spec fn spec_sprite_tile_data(
    layer: SpriteLayer,
    y: u8,
    b: BusView,
    is_high_part: bool,
) -> (u16, u16) {
    match layer.sprite_to_draw {
        None => (layer.tile_data_low, layer.tile_data_high),
        Some(sprite) => {
            let address = (0b1000u16 << 12) | ((sprite.tile_number as u16) << 4) | (((
            vstd::wrapping::u8_specs::wrapping_sub(y, sprite.y) % 8) as u16) << 1) | (
            if is_high_part {
                1u16
            } else {
                0u16
            });
            let address = if sprite.y_flip {
                address ^ 0b0000_0000_0000_1110
            } else {
                address
            };
            let byte = spec_bus_read(b, address);
            let byte = if sprite.x_flip {
                spec_reverse_bits(byte)
            } else {
                byte
            };
            let word = byte as u16;
            let word = if !layer.is_sprite_left_side {
                word << (layer.left_side_shift % 16)
            } else {
                word
            };
            let word = if sprite.x % 8 != 0 {
                spec_rotate_right_u16(word, (sprite.x % 8) as u16)
            } else {
                word
            };
            if is_high_part {
                (layer.tile_data_low, word)
            } else {
                (word, layer.tile_data_high)
            }
        },
    }
}

} // verus!
