//! The two blanking modes: HBlank pads each visible scanline out and
//! VBlank covers the ten lines after the last visible one, raising the
//! VBlank and STAT interrupts on the way.

use vstd::prelude::*;

use crate::bus::{spec_bus_read, spec_bus_write, Bus, BusView};
use crate::common::{get_bit, spec_bit};
use crate::consts::{IF, LYC, STAT};
use crate::gpu::pixel_transfer::sprite::SpriteLayer;
use crate::gpu::pixel_transfer::window::{spec_is_window_showing, WindowLayer};
use crate::gpu::pixel_transfer::Layers;
use crate::gpu::{Gpu, GpuState};

verus! {

/// Amount of ticks needed to render a vblank line
pub const VBLANK_LINE_TICKS: u16 = 456;

/// The IF byte after the HBlank entry interrupt check: the STAT bit is
/// raised when STAT.3 enables the HBlank source, or when STAT.6 enables
/// the LY=LYC source and the new line matches LYC.
pub open spec fn spec_hblank_interrupt_flag(b: BusView, y: u8) -> u8 {
    let flag = spec_bus_read(b, IF);
    let stat = spec_bus_read(b, STAT);
    let flag = if spec_bit(stat, 3) {
        flag | 0b00000010
    } else {
        flag
    };
    if spec_bit(stat, 6) && y == spec_bus_read(b, LYC) {
        flag | 0b00000010
    } else {
        flag
    }
}

/// The IF byte after the VBlank entry interrupt check: the VBlank bit is
/// always raised, and the STAT bit follows STAT.4 and the LY=LYC source.
pub open spec fn spec_vblank_interrupt_flag(b: BusView, y: u8) -> u8 {
    let flag = spec_bus_read(b, IF) | 0b00000001;
    let stat = spec_bus_read(b, STAT);
    let flag = if spec_bit(stat, 4) {
        flag | 0b00000010
    } else {
        flag
    };
    if spec_bit(stat, 6) && y == spec_bus_read(b, LYC) {
        flag | 0b00000010
    } else {
        flag
    }
}

/// How long HBlank pads the line: a scanline is 80 dots of OAM search,
/// the pixel transfer, and this remainder, 456 dots in all. (A transfer
/// longer than 375 dots cannot arise from the fetcher, but the pad is
/// floored at one dot so the mode always moves on.)
pub open spec fn spec_hblank_pad(transfer_dots: u16) -> u16 {
    if transfer_dots <= 375 {
        (376 - transfer_dots) as u16
    } else {
        1u16
    }
}

/// The scanline law: OAM search, the pixel transfer and the HBlank pad
/// together are exactly 456 dots, whatever the transfer took, and the 144
/// visible lines plus the ten VBlank lines make the 70224-dot frame.
pub proof fn lemma_frame_is_70224_dots(transfer_dots: u16)
    requires
        transfer_dots <= 375,
    ensures
        80 + transfer_dots + spec_hblank_pad(transfer_dots) == 456,
        144 * 456 + 10 * 456 == 70224,
{
}

impl Gpu {
    /// One dot of HBlank. On its first dot the beam returns to the left
    /// edge, the finished line is counted, the fifo drains, the layers see
    /// their end-of-line events and the STAT interrupt sources fire; the
    /// mode then pads the scanline out to 456 dots and hands over to the
    /// next line's OAM search, or to VBlank after the last visible line.
    pub fn hblank(&mut self, layers: &mut Layers, bus: &mut Bus)
        requires
            old(self).wf(),
            old(bus).wf(),
            old(self).state == GpuState::HBlank,
        ensures
            final(self).wf(),
            final(bus).wf(),
            final(self).screen@ == old(self).screen@,
            final(self).sprites@ == old(self).sprites@,
            final(self).y == (if old(self).ticks == 0 {
                (old(self).y + 1) as u8
            } else {
                old(self).y
            }),
            old(self).ticks == 0 ==> {
                &&& final(self).x == 0
                &&& final(self).dump_slice
                &&& final(self).fifo@ == Seq::<crate::gpu::PixelData>::empty()
                &&& final(bus)@ == spec_bus_write(
                    old(bus)@,
                    IF,
                    spec_hblank_interrupt_flag(old(bus)@, (old(self).y + 1) as u8),
                )
                &&& final(layers).background == old(layers).background
                &&& final(layers).window == (WindowLayer {
                    window_ly: if spec_is_window_showing(old(bus)@) {
                        vstd::wrapping::u8_specs::wrapping_add(old(layers).window.window_ly, 1)
                    } else {
                        old(layers).window.window_ly
                    },
                    ..old(layers).window
                })
                &&& final(layers).sprite == (SpriteLayer {
                    rendered_sprites: 0,
                    leftover_low: 0,
                    leftover_high: 0,
                    tile_data_low: 0,
                    tile_data_high: 0,
                    ..old(layers).sprite
                })
            },
            old(self).ticks != 0 ==> {
                &&& final(self).x == old(self).x
                &&& final(self).dump_slice == old(self).dump_slice
                &&& final(self).fifo@ == old(self).fifo@
                &&& final(bus)@ == old(bus)@
                &&& *final(layers) == *old(layers)
            },
            final(self).transfer_dots == old(self).transfer_dots,
            final(self).finished_frames == old(self).finished_frames,
            old(self).ticks >= spec_hblank_pad(old(self).transfer_dots) - 1 ==> final(self).ticks
                == 0 && final(self).state == (
            if final(self).y == 144 {
                GpuState::VBlank
            } else {
                GpuState::OamSearch
            }),
            old(self).ticks < spec_hblank_pad(old(self).transfer_dots) - 1 ==> final(self).ticks
                == old(self).ticks + 1 && final(self).state == GpuState::HBlank,
    {
        if self.ticks == 0 {
            self.x = 0;
            self.y += 1;
            self.dump_slice = true;
            self.fifo.clear();

            layers.window.at_hblank(bus, self);
            layers.sprite.at_hblank(bus, self);
        }

        // Setting interrupts
        if self.ticks == 0 {
            let mut interrupt_flag = bus.read(IF);
            let stat = bus.read(STAT);

            // Stat interrupt. Stat.3 indicates HBlank
            if get_bit(stat, 3) {
                interrupt_flag = interrupt_flag | 0b00000010;
            }

            // Stat interrupt. We need to check for LYC == LY
            if get_bit(stat, 6) && self.y == bus.read(LYC) {
                interrupt_flag = interrupt_flag | 0b00000010;
            }

            bus.write(IF, interrupt_flag);
        }

        // Pad the scanline out to 456 dots: 80 of OAM search, the transfer,
        // and the rest here
        let pad: u16 = if self.transfer_dots <= 375 {
            376 - self.transfer_dots
        } else {
            1
        };

        self.switch_when_ticks(
            pad,
            if self.y == 144 {
                GpuState::VBlank
            } else {
                GpuState::OamSearch
            },
        );
    }

    /// One dot of VBlank: ten idle lines, counted 456 dots at a time, with
    /// the VBlank interrupt raised on entry, before the frame starts over
    /// at OAM search.
    pub fn vblank(&mut self, layers: &mut Layers, bus: &mut Bus)
        requires
            old(self).wf(),
            old(bus).wf(),
            old(self).state == GpuState::VBlank,
        ensures
            final(self).wf(),
            final(bus).wf(),
            final(self).screen@ == old(self).screen@,
            final(self).sprites@ == old(self).sprites@,
            final(self).x == old(self).x,
            final(self).fifo@ == old(self).fifo@,
            final(self).dump_slice == old(self).dump_slice,
            final(self).y == (if old(self).ticks % VBLANK_LINE_TICKS == 0 && old(self).ticks != 0 {
                (old(self).y + 1) as u8
            } else {
                old(self).y
            }),
            old(self).ticks == 0 ==> {
                &&& final(bus)@ == spec_bus_write(
                    old(bus)@,
                    IF,
                    spec_vblank_interrupt_flag(old(bus)@, old(self).y),
                )
                &&& final(layers).background == old(layers).background
                &&& final(layers).sprite == old(layers).sprite
                &&& final(layers).window == (WindowLayer { window_ly: 0, ..old(layers).window })
            },
            old(self).ticks != 0 ==> {
                &&& final(bus)@ == old(bus)@
                &&& *final(layers) == *old(layers)
            },
            final(self).transfer_dots == old(self).transfer_dots,
            old(self).ticks >= 4559 ==> final(self).ticks == 0 && final(self).state
                == GpuState::OamSearch && final(self).finished_frames
                == vstd::wrapping::u64_specs::wrapping_add(old(self).finished_frames, 1),
            old(self).ticks < 4559 ==> final(self).ticks == old(self).ticks + 1
                && final(self).state == GpuState::VBlank && final(self).finished_frames == old(self).finished_frames,
    {
        if self.ticks == 0 {
            layers.window.at_vblank(bus, self);
        }

        // After every completed line; the entry dot still belongs to line 144
        if self.ticks % VBLANK_LINE_TICKS == 0 && self.ticks != 0 {
            self.y += 1;
        }

        // Setting interrupts
        if self.ticks == 0 {
            let mut interrupt_flag = bus.read(IF);
            let stat = bus.read(STAT);

            // VBlank interrupt
            interrupt_flag = interrupt_flag | 0b00000001;

            // Stat interrupt. Stat.4 indicates VBlank
            if get_bit(stat, 4) {
                interrupt_flag = interrupt_flag | 0b00000010;
            }

            // Stat interrupt. We need to check for LYC == LY
            if get_bit(stat, 6) && self.y == bus.read(LYC) {
                interrupt_flag = interrupt_flag | 0b00000010;
            }

            bus.write(IF, interrupt_flag);
        }

        // There are 10 lines of vblank; leaving them completes the frame
        if self.ticks >= VBLANK_LINE_TICKS * 10 - 1 {
            self.finished_frames = self.finished_frames.wrapping_add(1);
        }
        self.switch_when_ticks(VBLANK_LINE_TICKS * 10, GpuState::OamSearch);
    }
}


/// Entering VBlank always raises the VBlank interrupt: whatever IF held
/// before, the flag byte written on the mode's first dot carries bit 0.
pub proof fn lemma_vblank_raises_vblank_interrupt(b: BusView, y: u8)
    ensures
        spec_bit(spec_vblank_interrupt_flag(b, y), 0),
{
    let flag = spec_bus_read(b, IF);
    assert((((flag | 1) >> 0u8) & 1 == 1) && ((((flag | 1) | 2) >> 0u8) & 1 == 1) && (((((flag
        | 1) | 2) | 2) >> 0u8) & 1 == 1) && ((((flag | 1) | 2) >> 0u8) & 1 == 1)) by (bit_vector);
}

} // verus!
