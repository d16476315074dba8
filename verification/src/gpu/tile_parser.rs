//! A single tile line as eight plain colors, for hosts that want to peek
//! at tiles without driving the pixel pipeline.

use vstd::prelude::*;

use crate::common::{get_bit, spec_bit};
use crate::gpu::pixel_transfer::{bools_to_color, spec_bools_to_color};
use crate::gpu::Color;

verus! {

pub struct Line {
    pub colors: Vec<Color>,
}

/// The colors of a tile line spelled out by its two planes, leftmost pixel
/// first (bit 7 of each byte).
pub open spec fn spec_line_colors(num1: u8, num2: u8) -> Seq<Color> {
    Seq::new(
        8,
        |i: int| spec_bools_to_color(spec_bit(num1, (7 - i) as u8), spec_bit(num2, (7 - i) as u8)),
    )
}

impl Line {
    /// Returns an all-white tile line
    pub fn new_blank() -> (result: Self)
        ensures
            result.colors@ == Seq::new(8, |i: int| Color::Light),
    {
        let mut colors: Vec<Color> = Vec::new();
        let mut i: u8 = 0;

        while i < 8
            invariant
                colors@.len() == i,
                i <= 8,
                forall|j: int| 0 <= j < i ==> #[trigger] colors@[j] == Color::Light,
            decreases 8 - i,
        {
            colors.push(Color::Light);
            i += 1;
        }

        proof {
            assert(colors@ =~= Seq::new(8, |i: int| Color::Light));
        }

        Self { colors }
    }

    /// Redraws this line from the two bytes that encode it, the high plane
    /// first: each pair of bits becomes one of the four shades.
    pub fn draw_line(&mut self, num1: u8, num2: u8)
        ensures
            final(self).colors@ == spec_line_colors(num1, num2),
    {
        let mut colors: Vec<Color> = Vec::new();
        let mut bit_offset: u8 = 0;

        while bit_offset < 8
            invariant
                colors@.len() == bit_offset,
                bit_offset <= 8,
                forall|j: int| 0 <= j < bit_offset ==> colors@[j] == spec_line_colors(num1, num2)[j],
            decreases 8 - bit_offset,
        {
            // We take the 7th bit first, because the colors start from the
            // leftmost pixel
            let num1_bit = get_bit(num1, 7 - bit_offset);
            let num2_bit = get_bit(num2, 7 - bit_offset);

            colors.push(bools_to_color(num1_bit, num2_bit));
            bit_offset += 1;
        }

        proof {
            assert(colors@ =~= spec_line_colors(num1, num2));
        }

        self.colors = colors;
    }
}

} // verus!
