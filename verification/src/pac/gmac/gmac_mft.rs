//! Multicast Frames Transmitted Register.
//!
//! The register is read only, and its one field fills the whole word.
use vstd::prelude::*;

verus! {

/// What was read from the register.
pub struct R {
    bits: u32,
}

impl R {
    /// The register word.
    pub closed spec fn bits_spec(&self) -> u32 {
        self.bits
    }

    /// A reader of the word `bits`.
    pub fn new(bits: u32) -> (r: Self)
        ensures
            r.bits_spec() == bits,
    {
        R { bits }
    }

    /// The register word.
    pub fn bits(&self) -> (bits: u32)
        ensures
            bits == self.bits_spec(),
    {
        self.bits
    }

    /// Bits 0:31 - Multicast Frames Transmitted without Error.
    pub fn mftx(&self) -> (r: MFTX_R)
        ensures
            r.bits_spec() == self.bits_spec(),
    {
        MFTX_R::new(self.bits)
    }
}

/// Field `MFTX` reader - Multicast Frames Transmitted without Error.
pub struct MFTX_R {
    bits: u32,
}

impl MFTX_R {
    /// The value of the field.
    pub closed spec fn bits_spec(&self) -> u32 {
        self.bits
    }

    pub(crate) fn new(bits: u32) -> (r: Self)
        ensures
            r.bits_spec() == bits,
    {
        MFTX_R { bits }
    }

    /// The value of the field.
    pub fn bits(&self) -> (bits: u32)
        ensures
            bits == self.bits_spec(),
    {
        self.bits
    }
}

/// Multicast Frames Transmitted Register.
pub struct GMAC_MFT_SPEC;

impl GMAC_MFT_SPEC {
    /// The value of the register after reset.
    pub fn reset_value() -> (bits: u32)
        ensures
            bits == 0,
    {
        0
    }
}

} // verus!
