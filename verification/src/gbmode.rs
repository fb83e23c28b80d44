//! The machine that is emulated, and the speed of its processor.

use vstd::prelude::*;

verus! {

/// Which machine runs the cartridge.
#[derive(Debug, Clone, Copy, PartialEq, Eq, Structural)]
pub enum GbMode {
    /// The monochrome machine.
    Classic,
    /// The colour machine.
    Color,
    /// The colour machine running a cartridge made for the monochrome one.
    ColorAsClassic,
}

/// The speed of the processor relative to picture and sound.
#[derive(Debug, Clone, Copy, PartialEq, Eq, Structural)]
pub enum GbSpeed {
    Single,
    Double,
}

impl GbSpeed {
    /// How many processor cycles pass in one cycle of picture and sound.
    pub open spec fn divider(self) -> u32 {
        match self {
            GbSpeed::Single => 1,
            GbSpeed::Double => 2,
        }
    }

    pub fn cycles_per_dot(self) -> (d: u32)
        ensures
            d == self.divider(),
    {
        match self {
            GbSpeed::Single => 1,
            GbSpeed::Double => 2,
        }
    }
}

} // verus!
