//! 1024 to 1518 Byte Frames Transmitted Register.
//!
//! The register is read only, and its one field fills the whole word.
use vstd::prelude::*;

verus! {

/// What was read from the register.
pub struct R {
    bits: u32,
}

impl R {
    /// The register word.
    pub closed spec fn bits_spec(&self) -> u32 {
        self.bits
    }

    /// A reader of the word `bits`.
    pub fn new(bits: u32) -> (r: Self)
        ensures
            r.bits_spec() == bits,
    {
        R { bits }
    }

    /// The register word.
    pub fn bits(&self) -> (bits: u32)
        ensures
            bits == self.bits_spec(),
    {
        self.bits
    }

    /// Bits 0:31 - 1024 to 1518 Byte Frames Transmitted without Error.
    pub fn nftx(&self) -> (r: NFTX_R)
        ensures
            r.bits_spec() == self.bits_spec(),
    {
        NFTX_R::new(self.bits)
    }
}

/// Field `NFTX` reader - 1024 to 1518 Byte Frames Transmitted without Error.
pub struct NFTX_R {
    bits: u32,
}

impl NFTX_R {
    /// The value of the field.
    pub closed spec fn bits_spec(&self) -> u32 {
        self.bits
    }

    pub(crate) fn new(bits: u32) -> (r: Self)
        ensures
            r.bits_spec() == bits,
    {
        NFTX_R { bits }
    }

    /// The value of the field.
    pub fn bits(&self) -> (bits: u32)
        ensures
            bits == self.bits_spec(),
    {
        self.bits
    }
}

/// 1024 to 1518 Byte Frames Transmitted Register.
pub struct GMAC_TBFT1518_SPEC;

impl GMAC_TBFT1518_SPEC {
    /// The value of the register after reset.
    pub fn reset_value() -> (bits: u32)
        ensures
            bits == 0,
    {
        0
    }
}

} // verus!
