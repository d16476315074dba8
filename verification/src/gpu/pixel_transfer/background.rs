//! The background layer: fetches tile indices out of the tilemap selected
//! by LCDC bit 3, reads tile rows through the signed/unsigned addressing
//! gate, and scrolls by SCX and SCY, carrying cut-off pixels between
//! fetches.

use vstd::prelude::*;

use crate::bus::{spec_bus_read, Bus, BusView};
use crate::common::{get_bit, spec_bit};
use crate::consts::{BGP, LCDC, LY, SCX, SCY};
use crate::gpu::pixel_transfer::{
    bytes_to_slice, rotate_right_u16, spec_apply_dmg_palette, spec_bools_to_color,
    spec_bytes_to_slice, spec_rotate_right_u16, spec_vuza_gate, vuza_gate,
};
use crate::gpu::{Color, Gpu, PixelData, Priority};

verus! {

pub struct BackgroundLayer {
    pub lcdc_3: bool,
    pub tile_id: u8,
    pub tile_data_low: u16,
    pub tile_data_high: u16,

    // When scrolling the background layer with SCX, if SCX is not a multiple of 8, we
    // sometimes need to break multiple tiles in more parts and render them 8 pixels at a
    // time. These contain the data of the tiles we cut off
    pub leftover_low: u8,
    pub leftover_high: u8,
}

/// The tilemap slot that holds the tile index under the beam: bits 13-11
/// select the tilemap region, bit 10 the map LCDC.3 picked, then the tile
/// row and column.
pub open spec fn spec_bg_tile_address(lcdc_3: bool, ly_plus_scy: u8, x_plus_scx: u8) -> u16 {
    (0b10011u16 << 11) | ((if lcdc_3 { 1u16 } else { 0u16 }) << 10) | ((ly_plus_scy as u16 / 8)
        << 5) | (x_plus_scx as u16 / 8)
}

/// The byte of tile data behind a tile index: the "VUZA gate" picks the
/// 0x8000 or 0x9000 base, then the index, the row and the plane.
pub open spec fn spec_tile_data_address(lcdc: u8, tile_id: u8, row: u8, is_high_part: bool) -> u16 {
    (0b100u16 << 13) | (spec_vuza_gate(lcdc, tile_id) << 12) | ((tile_id as u16) << 4) | ((row
        as u16 % 8) << 1) | (if is_high_part { 1u16 } else { 0u16 })
}

/// The background layer's tile index under the beam at virtual column
/// `virtual_x`, scrolled by SCX and SCY.
pub open spec fn spec_bg_tile_id(layer: BackgroundLayer, virtual_x: u8, b: BusView) -> u8 {
    spec_bus_read(
        b,
        spec_bg_tile_address(
            layer.lcdc_3,
            vstd::wrapping::u8_specs::wrapping_add(spec_bus_read(b, LY), spec_bus_read(b, SCY)),
            vstd::wrapping::u8_specs::wrapping_add(virtual_x, spec_bus_read(b, SCX)),
        ),
    )
}

/// The background layer after its data fetch: the addressed tile row,
/// rotated by the fine part of SCX.
pub open spec fn spec_bg_fetch(layer: BackgroundLayer, b: BusView, is_high_part: bool) -> BackgroundLayer {
    let data = spec_rotate_right_u16(
        spec_bus_read(
            b,
            spec_tile_data_address(
                spec_bus_read(b, LCDC),
                layer.tile_id,
                vstd::wrapping::u8_specs::wrapping_add(
                    spec_bus_read(b, LY),
                    spec_bus_read(b, SCY),
                ),
                is_high_part,
            ),
        ) as u16,
        (8 - spec_bus_read(b, SCX) % 8) as u16,
    );
    if is_high_part {
        BackgroundLayer { tile_data_high: data, ..layer }
    } else {
        BackgroundLayer { tile_data_low: data, ..layer }
    }
}

/// The background layer and the slice its push step hands out: a blank
/// slice when the layer is off, nothing but primed leftovers on the first
/// fetch of a line, and otherwise the fetched row chained with the
/// leftovers and colored through BGP.
pub open spec fn spec_bg_push(
    layer: BackgroundLayer,
    number_of_slices_pushed: u8,
    b: BusView,
) -> (BackgroundLayer, Seq<PixelData>) {
    let chained_low = layer.tile_data_low | layer.leftover_low as u16;
    let chained_high = layer.tile_data_high | layer.leftover_high as u16;
    if !spec_bit(spec_bus_read(b, LCDC), 0) {
        (layer, spec_bytes_to_slice(0, 0))
    } else if number_of_slices_pushed == 0 {
        (
            BackgroundLayer {
                leftover_low: (layer.tile_data_low >> 8) as u8,
                leftover_high: (layer.tile_data_high >> 8) as u8,
                ..layer
            },
            Seq::<PixelData>::empty(),
        )
    } else {
        (
            BackgroundLayer {
                tile_data_low: chained_low,
                tile_data_high: chained_high,
                leftover_low: (chained_low >> 8) as u8,
                leftover_high: (chained_high >> 8) as u8,
                ..layer
            },
            spec_apply_dmg_palette(
                spec_bytes_to_slice((chained_low & 0xFF) as u8, (chained_high & 0xFF) as u8),
                spec_bus_read(b, BGP),
            ),
        )
    }
}

impl BackgroundLayer {
    pub fn new() -> (result: Self)
        ensures
            result == (BackgroundLayer {
                lcdc_3: false,
                tile_id: 0,
                tile_data_low: 0,
                tile_data_high: 0,
                leftover_low: 0,
                leftover_high: 0,
            }),
    {
        Self {
            lcdc_3: false,
            tile_id: 0,
            tile_data_low: 0,
            tile_data_high: 0,
            leftover_low: 0,
            leftover_high: 0,
        }
    }

    /// LCDC bit 0 switches the whole background on and off.
    pub fn is_layer_enabled(&self, bus: &Bus) -> (result: bool)
        requires
            bus.wf(),
        ensures
            result == spec_bit(spec_bus_read(bus@, LCDC), 0),
    {
        get_bit(bus.read(LCDC), 0)
    }

    /// The background is the bottom layer, so it replaces whatever is below.
    pub fn mix_with_layer_below(&self) -> (result: Priority)
        ensures
            result == Priority::AlwaysAbove,
    {
        Priority::AlwaysAbove
    }

    pub fn get_tile_step_1(&mut self, _gpu: &Gpu, bus: &Bus)
        requires
            bus.wf(),
        ensures
            *final(self) == (BackgroundLayer {
                lcdc_3: spec_bit(spec_bus_read(bus@, LCDC), 3),
                ..*old(self)
            }),
    {
        self.lcdc_3 = get_bit(bus.read(LCDC), 3);
    }

    pub fn get_tile_step_2(&mut self, gpu: &Gpu, bus: &Bus)
        requires
            bus.wf(),
        ensures
            *final(self) == (BackgroundLayer {
                tile_id: spec_bg_tile_id(*old(self), gpu.virtual_x, bus@),
                ..*old(self)
            }),
    {
        let ly_plus_scy = bus.read(LY).wrapping_add(bus.read(SCY));
        let x_plus_scx = gpu.virtual_x.wrapping_add(bus.read(SCX));

        let address = (0b10011u16 << 11) | ((if self.lcdc_3 { 1u16 } else { 0u16 }) << 10) | ((
        ly_plus_scy as u16 / 8) << 5) | (x_plus_scx as u16 / 8);

        self.tile_id = bus.read(address);
    }

    pub fn get_tile_data(&mut self, is_high_part: bool, _gpu: &Gpu, bus: &Bus)
        requires
            bus.wf(),
        ensures
            *final(self) == spec_bg_fetch(*old(self), bus@, is_high_part),
    {
        let row = bus.read(LY).wrapping_add(bus.read(SCY));
        let address = (0b100u16 << 13) | (vuza_gate(bus.read(LCDC), self.tile_id) << 12) | ((
        self.tile_id as u16) << 4) | ((row as u16 % 8) << 1) | (if is_high_part {
            1u16
        } else {
            0u16
        });

        let tile_data = bus.read(address);

        // We need to invert SCX otherwise it scrolls in the wrong direction
        let inverted_scx = 8 - bus.read(SCX) % 8;
        let tile_data: u16 = rotate_right_u16(tile_data as u16, inverted_scx as u16);

        match is_high_part {
            false => self.tile_data_low = tile_data,
            true => self.tile_data_high = tile_data,
        }
    }

    /// The slice of eight background pixels under the beam, already colored
    /// through BGP; the first fetch of a line only primes the leftover
    /// buffers and pushes nothing.
    pub fn push_pixels(&mut self, gpu: &Gpu, bus: &Bus) -> (result: Vec<PixelData>)
        requires
            bus.wf(),
        ensures
            *final(self) == spec_bg_push(*old(self), gpu.number_of_slices_pushed, bus@).0,
            result@ == spec_bg_push(*old(self), gpu.number_of_slices_pushed, bus@).1,
            result@.len() == 0 || result@.len() == 8,
    {
        if !self.is_layer_enabled(bus) {
            return bytes_to_slice(0, 0);
        }

        if gpu.number_of_slices_pushed == 0 {
            // We only need to "shift" for the first slice, we don't need to shift every
            // single tile otherwise the tiles won't look continuous
            self.leftover_low = (self.tile_data_low >> 8) as u8;
            self.leftover_high = (self.tile_data_high >> 8) as u8;

            return Vec::new();
        }

        // We chain together the slices
        self.tile_data_low = self.tile_data_low | self.leftover_low as u16;
        self.tile_data_high = self.tile_data_high | self.leftover_high as u16;

        let mut slice = bytes_to_slice(
            (self.tile_data_low & 0xFF) as u8,
            (self.tile_data_high & 0xFF) as u8,
        );

        // The leftover bytes are just the parts of the slice we haven't rendered yet
        self.leftover_low = (self.tile_data_low >> 8) as u8;
        self.leftover_high = (self.tile_data_high >> 8) as u8;

        // Palette coloring: BGP maps each 2-bit index to a shade
        let palette = bus.read(BGP);
        apply_dmg_palette(&mut slice, palette);

        slice
    }

} // impl BackgroundLayer

/// Recolors a slice through a DMG palette byte, two bits per color index.
pub fn apply_dmg_palette(slice: &mut Vec<PixelData>, palette: u8)
    ensures
        final(slice)@ == spec_apply_dmg_palette(old(slice)@, palette),
{
    let id_0 = crate::gpu::pixel_transfer::bools_to_color(
        get_bit(palette, 1),
        get_bit(palette, 0),
    );
    let id_1 = crate::gpu::pixel_transfer::bools_to_color(
        get_bit(palette, 3),
        get_bit(palette, 2),
    );
    let id_2 = crate::gpu::pixel_transfer::bools_to_color(
        get_bit(palette, 5),
        get_bit(palette, 4),
    );
    let id_3 = crate::gpu::pixel_transfer::bools_to_color(
        get_bit(palette, 7),
        get_bit(palette, 6),
    );

    let mut i: usize = 0;

    while i < slice.len()
        invariant
            slice@.len() == old(slice)@.len(),
            i <= slice@.len(),
            id_0 == spec_bools_to_color(spec_bit(palette, 1), spec_bit(palette, 0)),
            id_1 == spec_bools_to_color(spec_bit(palette, 3), spec_bit(palette, 2)),
            id_2 == spec_bools_to_color(spec_bit(palette, 5), spec_bit(palette, 4)),
            id_3 == spec_bools_to_color(spec_bit(palette, 7), spec_bit(palette, 6)),
            forall|j: int|
                0 <= j < i ==> slice@[j] == spec_apply_dmg_palette(old(slice)@, palette)[j],
            forall|j: int| i <= j < slice@.len() ==> slice@[j] == old(slice)@[j],
        decreases slice@.len() - i,
    {
        let color = match slice[i].color {
            Color::Light => id_0,
            Color::MediumlyLight => id_1,
            Color::MediumlyDark => id_2,
            Color::Dark => id_3,
        };
        let z_index = slice[i].z_index;
        slice[i] = PixelData { color, z_index };
        i += 1;
    }

    proof {
        assert(slice@ =~= spec_apply_dmg_palette(old(slice)@, palette));
    }
}

} // verus!
