//! Session mode (classic / color hardware) and CPU speed selection.

use vstd::prelude::*;

verus! {

#[derive(Clone, Copy, PartialEq, Eq, Structural, Debug)]
pub enum GbMode {
    Classic,
    Color,
    ColorAsClassic,
}

#[derive(Clone, Copy, PartialEq, Eq, Structural, Debug)]
pub enum GbSpeed {
    Single,
    Double,
}

impl GbSpeed {
    /// The tick divider the scheduler applies at this speed.
    pub open spec fn spec_divider(self) -> u32 {
        match self {
            GbSpeed::Single => 1,
            GbSpeed::Double => 2,
        }
    }

    pub fn divider(self) -> (r: u32)
        ensures
            r == self.spec_divider(),
    {
        match self {
            GbSpeed::Single => 1,
            GbSpeed::Double => 2,
        }
    }
}

} // verus!
