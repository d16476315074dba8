//! OAM search: the first mode of each frame walks the 40 sprite entries of
//! OAM from the highest address down, so that the lowest address ends up
//! with the final say when priorities tie.

use vstd::prelude::*;

use crate::bus::{spec_bus_read, spec_bus_write, Bus, BusView};
use crate::common::{get_bit, spec_bit};
use crate::consts::{IF, STAT};
use crate::gpu::pixel_transfer::sprite::{Palette, SpriteData};
use crate::gpu::{Gpu, GpuState, Priority};

verus! {

/// The sprite entry whose last byte sits at `address`: four bytes holding
/// Y+16, X+8, the tile index and the flag byte (priority, flips, palette).
pub open spec fn spec_sprite_data(b: BusView, address: u16) -> SpriteData {
    let flags = spec_bus_read(b, address);
    SpriteData {
        y: spec_bus_read(b, (address - 3) as u16),
        x: spec_bus_read(b, (address - 2) as u16),
        tile_number: spec_bus_read(b, (address - 1) as u16),
        priority: if spec_bit(flags, 7) {
            Priority::AboveLight
        } else {
            Priority::TransparentLight
        },
        palette: if spec_bit(flags, 4) {
            Palette::OBP1
        } else {
            Palette::OBP0
        },
        x_flip: spec_bit(flags, 5),
        y_flip: spec_bit(flags, 6),
    }
}

/// The 40 sprite entries as OAM search keeps them: the whole table
/// 0xFE00-0xFE9F scanned in reverse, so the entry with the lowest OAM
/// address comes last (and wins priority ties).
pub open spec fn spec_oam_sprites(b: BusView) -> Seq<SpriteData> {
    Seq::new(40, |k: int| spec_sprite_data(b, (0xFE9F - 4 * k) as u16))
}

impl Bus {
    pub fn get_sprite_data(&self, address: u16) -> (result: SpriteData)
        requires
            self.wf(),
            address >= 3,
        ensures
            result == spec_sprite_data(self@, address),
    {
        let y = self.read(address - 3);
        let x = self.read(address - 2);
        let tile_number = self.read(address - 1);
        let flags = self.read(address);

        SpriteData {
            y,
            x,
            tile_number,
            priority: match get_bit(flags, 7) {
                false => Priority::TransparentLight,
                true => Priority::AboveLight,
            },
            palette: match get_bit(flags, 4) {
                false => Palette::OBP0,
                true => Palette::OBP1,
            },
            x_flip: get_bit(flags, 5),
            y_flip: get_bit(flags, 6),
        }
    }
}

impl Gpu {
    /// One dot of OAM search, which opens every scanline. On the first dot
    /// the STAT source for this mode may raise the STAT interrupt, the line
    /// counter wraps to the top of the frame when the mode was entered out
    /// of VBlank, and the sprite table is rebuilt from OAM, so mid-frame
    /// OAM changes are seen line by line; after 80 dots the mode hands over
    /// to pixel transfer.
    pub fn oam_search(&mut self, bus: &mut Bus)
        requires
            old(self).wf(),
            old(bus).wf(),
            old(self).state == GpuState::OamSearch,
        ensures
            final(self).wf(),
            final(bus).wf(),
            final(self).screen@ == old(self).screen@,
            final(self).x == old(self).x,
            final(self).fifo@ == old(self).fifo@,
            final(self).dump_slice == old(self).dump_slice,
            final(self).pixel_transfer_state == old(self).pixel_transfer_state,
            final(self).is_pixel_transfer_first_call == old(self).is_pixel_transfer_first_call,
            final(self).number_of_slices_pushed == old(self).number_of_slices_pushed,
            final(self).virtual_x == old(self).virtual_x,
            final(bus)@ == (if old(self).ticks == 0 && spec_bit(
                spec_bus_read(old(bus)@, STAT),
                5,
            ) {
                spec_bus_write(old(bus)@, IF, spec_bus_read(old(bus)@, IF) | 0b00000010)
            } else {
                old(bus)@
            }),
            final(self).transfer_dots == old(self).transfer_dots,
            final(self).finished_frames == old(self).finished_frames,
            old(self).ticks == 0 ==> final(self).y == (if old(self).y >= 144 {
                0u8
            } else {
                old(self).y
            }) && final(self).sprites@ == spec_oam_sprites(old(bus)@),
            old(self).ticks != 0 ==> final(self).y == old(self).y && final(self).sprites@ == old(self).sprites@,
            old(self).ticks >= 79 ==> final(self).ticks == 0 && final(self).state
                == GpuState::PixelTransfer,
            old(self).ticks < 79 ==> final(self).ticks == old(self).ticks + 1 && final(self).state
                == GpuState::OamSearch,
    {
        // Setting interrupts
        if self.ticks == 0 {
            let interrupt_flag = bus.read(IF);
            let stat = bus.read(STAT);

            // Stat interrupt. Stat.5 indicates OAM Search
            if get_bit(stat, 5) {
                bus.write(IF, interrupt_flag | 0b00000010);
            }
        }

        if self.ticks == 0 {
            // Out of VBlank the frame starts over at the top line
            if self.y >= 144 {
                self.y = 0;
            }
            self.sprites.clear();

            // We access sprites in reverse because the sprite with the lowest address
            // has the most priority
            let mut k: u16 = 0;

            while k < 40
                invariant
                    bus.wf(),
                    k <= 40,
                    bus@ == old(bus)@ || bus@ == spec_bus_write(
                        old(bus)@,
                        IF,
                        spec_bus_read(old(bus)@, IF) | 0b00000010,
                    ),
                    self.screen@ == old(self).screen@,
                    self.x == old(self).x,
                    self.ticks == old(self).ticks,
                    self.state == old(self).state,
                    self.y == (if old(self).y >= 144 {
                        0u8
                    } else {
                        old(self).y
                    }),
                    self.fifo@ == old(self).fifo@,
                    self.dump_slice == old(self).dump_slice,
                    self.pixel_transfer_state == old(self).pixel_transfer_state,
                    self.is_pixel_transfer_first_call == old(self).is_pixel_transfer_first_call,
                    self.number_of_slices_pushed == old(self).number_of_slices_pushed,
                    self.virtual_x == old(self).virtual_x,
                    self.transfer_dots == old(self).transfer_dots,
                    self.finished_frames == old(self).finished_frames,
                    self.sprites@.len() == k,
                    forall|j: int|
                        0 <= j < k ==> self.sprites@[j] == spec_sprite_data(
                            old(bus)@,
                            (0xFE9F - 4 * j) as u16,
                        ),
                decreases 40 - k,
            {
                let sprite = bus.get_sprite_data(0xFE9F - 4 * k);

                proof {
                    // The interrupt write above touched only the I/O region,
                    // and a sprite entry is read wholly out of OAM
                    assert(spec_sprite_data(bus@, (0xFE9F - 4 * k) as u16) == spec_sprite_data(
                        old(bus)@,
                        (0xFE9F - 4 * k) as u16,
                    ));
                }

                self.sprites.push(sprite);
                k += 1;
            }

            proof {
                assert(self.sprites@ =~= spec_oam_sprites(old(bus)@));
            }
        }

        self.switch_when_ticks(80, GpuState::PixelTransfer);
    }
}

} // verus!
