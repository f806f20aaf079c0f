//! Frequencies.
use vstd::prelude::*;

verus! {

/// A frequency in hertz.
#[derive(Clone, Copy, Debug, PartialEq, Eq, Structural)]
pub struct Hertz(pub u32);

impl Hertz {
    /// The frequency of `mhz` megahertz.
    pub fn from_mhz(mhz: u32) -> (hz: Hertz)
        requires
            mhz * 1_000_000 <= u32::MAX,
        ensures
            hz.0 == mhz * 1_000_000,
    {
        Hertz(mhz * 1_000_000)
    }
}

} // verus!
