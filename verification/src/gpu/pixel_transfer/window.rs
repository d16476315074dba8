//! The window layer: a second background plane with its own tilemap
//! (LCDC bit 6) anchored at WX-7, WY, driven by an internal line counter
//! that survives the window being switched off mid-frame.

use vstd::prelude::*;

use crate::bus::{spec_bus_read, Bus, BusView};
use crate::common::{get_bit, spec_bit};
use crate::consts::{DISPLAY_SIZE_X, DISPLAY_SIZE_Y, LCDC, WX, WY};
use crate::gpu::pixel_transfer::{
    bytes_to_slice, spec_bytes_to_slice, spec_vuza_gate, vuza_gate,
};
use crate::gpu::{Color, Gpu, PixelData, Priority};

verus! {

pub struct WindowLayer {
    pub lcdc_6: bool,
    pub tile_id: u8,
    pub tile_data_low: u8,
    pub tile_data_high: u8,

    /// The window has an internal line counter, when the window is turned off and then
    /// turned on later, it will continue as if there was no interruption, contrary to the
    /// background
    pub window_ly: u8,
}

/// The tilemap slot the window fetches from, valid when both window
/// coordinates are inside the plane.
pub open spec fn spec_window_tile_address(lcdc_6: bool, window_y: int, window_x: int) -> u16 {
    (0b10011u16 << 11) | ((if lcdc_6 { 1u16 } else { 0u16 }) << 10) | (((window_y / 8) as u16)
        << 5) | ((window_x / 8) as u16)
}

/// The tile-data byte address for a window tile row.
pub open spec fn spec_window_data_address(lcdc: u8, tile_id: u8, window_y: int, is_high_part: bool) -> u16 {
    (0b100u16 << 13) | (spec_vuza_gate(lcdc, tile_id) << 12) | ((tile_id as u16) << 4) | ((((
    window_y % 8) as u16)) << 1) | (if is_high_part { 1u16 } else { 0u16 })
}

/// The window layer's tile index at virtual column `virtual_x`, or zero
/// while the beam is left of WX-7 or above WY.
pub open spec fn spec_window_tile_id(layer: WindowLayer, virtual_x: u8, b: BusView) -> u8 {
    let window_x = virtual_x - (spec_bus_read(b, WX) - 7);
    let window_y = layer.window_ly - spec_bus_read(b, WY);
    if window_x < 0 || window_y < 0 {
        0u8
    } else {
        spec_bus_read(b, spec_window_tile_address(layer.lcdc_6, window_y, window_x))
    }
}

/// The window layer after its data fetch on beam line `y`: zero above WY,
/// the addressed tile row byte otherwise.
pub open spec fn spec_window_fetch(layer: WindowLayer, y: u8, b: BusView, is_high_part: bool) -> WindowLayer {
    let window_y = y - spec_bus_read(b, WY);
    if window_y < 0 {
        WindowLayer { tile_data_low: 0, tile_data_high: 0, ..layer }
    } else {
        let byte = spec_bus_read(
            b,
            spec_window_data_address(spec_bus_read(b, LCDC), layer.tile_id, window_y, is_high_part),
        );
        if is_high_part {
            WindowLayer { tile_data_high: byte, ..layer }
        } else {
            WindowLayer { tile_data_low: byte, ..layer }
        }
    }
}

/// The slice the window's push step hands out: all transparent while the
/// layer is off, its fetched row otherwise.
pub open spec fn spec_window_push(layer: WindowLayer, b: BusView) -> Seq<PixelData> {
    if !spec_bit(spec_bus_read(b, LCDC), 5) {
        spec_bytes_to_slice(0, 0)
    } else {
        spec_window_slice(layer.tile_data_low, layer.tile_data_high)
    }
}

/// The window's slice with its place in the mixing order: every pixel that
/// is not transparent is raised one z level, so it covers the background
/// below it and still yields to sprites.
pub open spec fn spec_window_slice(low: u8, high: u8) -> Seq<PixelData> {
    Seq::new(
        8,
        |i: int|
            PixelData {
                color: spec_bytes_to_slice(low, high)[i].color,
                z_index: if spec_bytes_to_slice(low, high)[i].color == Color::Light {
                    0
                } else {
                    1
                },
            },
    )
}

/// If WX and WY are inside the screen bounds
pub open spec fn spec_is_window_showing(b: crate::bus::BusView) -> bool {
    spec_bus_read(b, WX) < DISPLAY_SIZE_X + 7 && spec_bus_read(b, WY) < DISPLAY_SIZE_Y
}

pub fn is_window_showing(bus: &Bus) -> (result: bool)
    requires
        bus.wf(),
    ensures
        result == spec_is_window_showing(bus@),
{
    if bus.read(WX) as usize >= DISPLAY_SIZE_X + 7 {
        return false;
    }

    if bus.read(WY) as usize >= DISPLAY_SIZE_Y {
        return false;
    }

    true
}

impl WindowLayer {
    pub fn new() -> (result: Self)
        ensures
            result == (WindowLayer {
                lcdc_6: false,
                tile_id: 0,
                tile_data_low: 0,
                tile_data_high: 0,
                window_ly: 0,
            }),
    {
        Self { lcdc_6: false, tile_id: 0, tile_data_low: 0, tile_data_high: 0, window_ly: 0 }
    }

    /// LCDC bit 5 switches the window on and off.
    pub fn is_layer_enabled(&self, bus: &Bus) -> (result: bool)
        requires
            bus.wf(),
        ensures
            result == spec_bit(spec_bus_read(bus@, LCDC), 5),
    {
        get_bit(bus.read(LCDC), 5)
    }

    /// The window shows through where its own pixels are transparent.
    pub fn mix_with_layer_below(&self) -> (result: Priority)
        ensures
            result == Priority::TransparentLight,
    {
        Priority::TransparentLight
    }

    pub fn get_tile_step_1(&mut self, _gpu: &Gpu, bus: &Bus)
        requires
            bus.wf(),
        ensures
            *final(self) == (WindowLayer {
                lcdc_6: spec_bit(spec_bus_read(bus@, LCDC), 6),
                ..*old(self)
            }),
    {
        self.lcdc_6 = get_bit(bus.read(LCDC), 6);
    }

    pub fn get_tile_step_2(&mut self, gpu: &Gpu, bus: &Bus)
        requires
            bus.wf(),
        ensures
            *final(self) == (WindowLayer {
                tile_id: spec_window_tile_id(*old(self), gpu.virtual_x, bus@),
                ..*old(self)
            }),
    {
        // This is `-7` because WX has an offset of 7, anything below that will not be
        // rendered
        let window_x: i32 = gpu.virtual_x as i32 - (bus.read(WX) as i32 - 7);
        let window_y: i32 = self.window_ly as i32 - bus.read(WY) as i32;

        if window_x < 0 || window_y < 0 {
            self.tile_id = 0;
            return;
        }

        let address = (0b10011u16 << 11) | ((if self.lcdc_6 { 1u16 } else { 0u16 }) << 10) | (((
        window_y / 8) as u16) << 5) | ((window_x / 8) as u16);

        self.tile_id = bus.read(address);
    }

    pub fn get_tile_data(&mut self, is_high_part: bool, gpu: &Gpu, bus: &Bus)
        requires
            bus.wf(),
        ensures
            *final(self) == spec_window_fetch(*old(self), gpu.y, bus@, is_high_part),
    {
        let window_y: i32 = gpu.y as i32 - bus.read(WY) as i32;

        if window_y < 0 {
            self.tile_data_low = 0;
            self.tile_data_high = 0;
            return;
        }

        let address = (0b100u16 << 13) | (vuza_gate(bus.read(LCDC), self.tile_id) << 12) | ((
        self.tile_id as u16) << 4) | (((window_y % 8) as u16) << 1) | (if is_high_part {
            1u16
        } else {
            0u16
        });

        match is_high_part {
            false => self.tile_data_low = bus.read(address),
            true => self.tile_data_high = bus.read(address),
        }
    }

    /// The window's eight-pixel slice; a disabled window is all transparent.
    pub fn push_pixels(&mut self, _gpu: &Gpu, bus: &Bus) -> (result: Vec<PixelData>)
        requires
            bus.wf(),
        ensures
            *final(self) == *old(self),
            result@ == spec_window_push(*old(self), bus@),
            result@.len() == 8,
    {
        if !self.is_layer_enabled(bus) {
            // Return 8 blank pixels
            return bytes_to_slice(0, 0);
        }

        let mut slice = bytes_to_slice(self.tile_data_low, self.tile_data_high);
        let mut i: usize = 0;

        // The window covers the background, so every pixel it actually
        // draws goes one z level up
        while i < slice.len()
            invariant
                slice@.len() == 8,
                i <= 8,
                forall|j: int|
                    0 <= j < i ==> slice@[j] == spec_window_slice(
                        old(self).tile_data_low,
                        old(self).tile_data_high,
                    )[j],
                forall|j: int|
                    i <= j < 8 ==> slice@[j] == spec_bytes_to_slice(
                        old(self).tile_data_low,
                        old(self).tile_data_high,
                    )[j],
            decreases slice@.len() - i,
        {
            let color = slice[i].color;
            let z_index: u8 = if color == Color::Light {
                0
            } else {
                1
            };
            slice[i] = PixelData { color, z_index };
            i += 1;
        }

        proof {
            assert(slice@ =~= spec_window_slice(old(self).tile_data_low, old(self).tile_data_high));
        }

        slice
    }

    /// Each time a visible line ends with the window on screen, its
    /// internal line counter moves on.
    pub fn at_hblank(&mut self, bus: &Bus, _gpu: &Gpu)
        requires
            bus.wf(),
        ensures
            *final(self) == (WindowLayer {
                window_ly: if spec_is_window_showing(bus@) {
                    vstd::wrapping::u8_specs::wrapping_add(old(self).window_ly, 1)
                } else {
                    old(self).window_ly
                },
                ..*old(self)
            }),
    {
        if is_window_showing(bus) {
            self.window_ly = self.window_ly.wrapping_add(1);
        }
    }

    /// The line counter starts over with every frame.
    pub fn at_vblank(&mut self, _bus: &Bus, _gpu: &Gpu)
        ensures
            *final(self) == (WindowLayer { window_ly: 0, ..*old(self) }),
    {
        self.window_ly = 0;
    }

} // impl WindowLayer

} // verus!
