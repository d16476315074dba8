//! The joypad: eight host-provided button states folded into the JOYP
//! register, honoring the two select bits (0 on a line means pressed, and
//! the select bits pick which four buttons show in the low nibble).

use vstd::prelude::*;

use crate::bus::{spec_bus_read, Bus, BusView};
use crate::common::{get_bit, spec_bit};
use crate::consts::JOYP;

verus! {

pub struct Joypad {
    pub is_a_pressed: bool,
    pub is_b_pressed: bool,
    pub is_select_pressed: bool,
    pub is_start_pressed: bool,
    pub is_right_pressed: bool,
    pub is_left_pressed: bool,
    pub is_up_pressed: bool,
    pub is_down_pressed: bool,
}

/// The JOYP byte the hardware would present: the stored select bits are
/// kept, the low nibble reports the selected button group, and the whole
/// nibble is inverted because a pressed button reads as zero.
pub open spec fn spec_joyp_byte(joypad: Joypad, b: BusView) -> u8 {
    let joyp = spec_bus_read(b, JOYP) & 0xF0;
    let buttons_deselected = spec_bit(joyp, 5);
    let dpad_selected = !spec_bit(joyp, 4);
    let joyp = if buttons_deselected && dpad_selected {
        joyp | (if joypad.is_right_pressed { 1u8 } else { 0u8 })
            | ((if joypad.is_left_pressed { 1u8 } else { 0u8 }) << 1)
            | ((if joypad.is_up_pressed { 1u8 } else { 0u8 }) << 2)
            | ((if joypad.is_down_pressed { 1u8 } else { 0u8 }) << 3)
    } else {
        joyp
    };
    let joyp = if !buttons_deselected && !dpad_selected {
        joyp | (if joypad.is_a_pressed { 1u8 } else { 0u8 })
            | ((if joypad.is_b_pressed { 1u8 } else { 0u8 }) << 1)
            | ((if joypad.is_select_pressed { 1u8 } else { 0u8 }) << 2)
            | ((if joypad.is_start_pressed { 1u8 } else { 0u8 }) << 3)
    } else {
        joyp
    };
    joyp ^ 0x0F
}

impl Joypad {
    pub fn new() -> (result: Self)
        ensures
            !result.is_a_pressed,
            !result.is_b_pressed,
            !result.is_select_pressed,
            !result.is_start_pressed,
            !result.is_right_pressed,
            !result.is_left_pressed,
            !result.is_up_pressed,
            !result.is_down_pressed,
    {
        Self {
            is_a_pressed: false,
            is_b_pressed: false,
            is_select_pressed: false,
            is_start_pressed: false,
            is_right_pressed: false,
            is_left_pressed: false,
            is_up_pressed: false,
            is_down_pressed: false,
        }
    }

    pub fn to_byte(&self, bus: &Bus) -> (result: u8)
        requires
            bus.wf(),
        ensures
            result == spec_joyp_byte(*self, bus@),
    {
        // The lower nibble is read only and contains button data
        let mut joyp = bus.read(JOYP) & 0xF0;

        // The higher nibble instead, is used to select which "group" of buttons to listen
        let buttons_deselected = get_bit(joyp, 5);
        let dpad_selected = !get_bit(joyp, 4);

        // When bit 4 alone is low the low nibble reports the directional pad
        if buttons_deselected && dpad_selected {
            joyp = joyp | (if self.is_right_pressed { 1 } else { 0 })
                | ((if self.is_left_pressed { 1u8 } else { 0u8 }) << 1)
                | ((if self.is_up_pressed { 1u8 } else { 0u8 }) << 2)
                | ((if self.is_down_pressed { 1u8 } else { 0u8 }) << 3);
        }

        // When bit 5 alone is low the low nibble reports the action buttons
        if !buttons_deselected && !dpad_selected {
            joyp = joyp | (if self.is_a_pressed { 1 } else { 0 })
                | ((if self.is_b_pressed { 1u8 } else { 0u8 }) << 1)
                | ((if self.is_select_pressed { 1u8 } else { 0u8 }) << 2)
                | ((if self.is_start_pressed { 1u8 } else { 0u8 }) << 3);
        }

        // In the hardware 0 means pressed and 1 means not pressed, so the lower
        // nibble comes out inverted
        joyp ^ 0x0F
    }
}

} // verus!
