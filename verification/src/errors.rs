//! The faults the core can report: a cartridge that cannot be loaded, and
//! an opcode outside the implemented tables, carried with its address so a
//! host can show where execution trapped.

use vstd::prelude::*;

verus! {

#[derive(Debug, Clone, Copy, PartialEq, Eq, Structural)]
pub enum EmuError {
    /// The rom file was not found by the loader.
    CouldNotFindRom,
    /// The rom file could not be read by the loader.
    CouldNotReadRom,
    /// The decoder met a byte outside the opcode tables; the fields are the
    /// opcode itself and the program counter it sat at.
    UnimplementedOpcode(u8, u16),
    /// An internal-invariant guard: a whole frame failed to come out within
    /// a generous budget of steps, which no working cartridge reaches.
    FrameDidNotFinish,
}

} // verus!
