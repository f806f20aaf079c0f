//! PTP Peer Event Frame Received Seconds Low Register.
//!
//! The register is read only, and its one field fills the whole word.
use vstd::prelude::*;

verus! {

/// What was read from the register.
pub struct R {
    bits: u32,
}

impl R {
    /// The register word.
    pub closed spec fn bits_spec(&self) -> u32 {
        self.bits
    }

    /// A reader of the word `bits`.
    pub fn new(bits: u32) -> (r: Self)
        ensures
            r.bits_spec() == bits,
    {
        R { bits }
    }

    /// The register word.
    pub fn bits(&self) -> (bits: u32)
        ensures
            bits == self.bits_spec(),
    {
        self.bits
    }

    /// Bits 0:31 - Register Update.
    pub fn rud(&self) -> (r: RUD_R)
        ensures
            r.bits_spec() == self.bits_spec(),
    {
        RUD_R::new(self.bits)
    }
}

/// Field `RUD` reader - Register Update.
pub struct RUD_R {
    bits: u32,
}

impl RUD_R {
    /// The value of the field.
    pub closed spec fn bits_spec(&self) -> u32 {
        self.bits
    }

    pub(crate) fn new(bits: u32) -> (r: Self)
        ensures
            r.bits_spec() == bits,
    {
        RUD_R { bits }
    }

    /// The value of the field.
    pub fn bits(&self) -> (bits: u32)
        ensures
            bits == self.bits_spec(),
    {
        self.bits
    }
}

/// PTP Peer Event Frame Received Seconds Low Register.
pub struct GMAC_PEFRSL_SPEC;

impl GMAC_PEFRSL_SPEC {
    /// The value of the register after reset.
    pub fn reset_value() -> (bits: u32)
        ensures
            bits == 0,
    {
        0
    }
}

} // verus!
