//! A host-side monochrome surface matching the display size; hosts that
//! only want on/off pixels can downsample the framebuffer into it.

use vstd::prelude::*;

use crate::consts::{DISPLAY_SIZE_X, DISPLAY_SIZE_Y};

verus! {

pub struct Screen {
    pub display: Vec<Vec<bool>>,
}

impl Screen {
    pub fn new() -> (result: Self)
        ensures
            result.display@.len() == DISPLAY_SIZE_Y,
            forall|i: int|
                0 <= i < DISPLAY_SIZE_Y ==> (#[trigger] result.display@[i])@.len()
                    == DISPLAY_SIZE_X,
            forall|i: int, j: int|
                0 <= i < DISPLAY_SIZE_Y && 0 <= j < DISPLAY_SIZE_X ==> !(
                #[trigger] result.display@[i]@[j]),
    {
        let mut display: Vec<Vec<bool>> = Vec::new();

        while display.len() < DISPLAY_SIZE_Y
            invariant
                display@.len() <= DISPLAY_SIZE_Y,
                forall|i: int|
                    0 <= i < display@.len() ==> (#[trigger] display@[i])@.len() == DISPLAY_SIZE_X,
                forall|i: int, j: int|
                    0 <= i < display@.len() && 0 <= j < DISPLAY_SIZE_X ==> !(
                    #[trigger] display@[i]@[j]),
            decreases DISPLAY_SIZE_Y - display.len(),
        {
            let mut row: Vec<bool> = Vec::new();

            while row.len() < DISPLAY_SIZE_X
                invariant
                    row@.len() <= DISPLAY_SIZE_X,
                    forall|j: int| 0 <= j < row@.len() ==> !(#[trigger] row@[j]),
                decreases DISPLAY_SIZE_X - row.len(),
            {
                row.push(false);
            }

            display.push(row);
        }

        Self { display }
    }
}

} // verus!
