//! Register A of a timer channel.
//!
//! Its one field fills the whole word.
use vstd::prelude::*;

verus! {

/// What was read from the register.
pub struct R {
    bits: u32,
}

/// What is to be written to the register.
pub struct W {
    bits: u32,
}

/// Field `RA` reader - Register A.
pub struct RA_R {
    bits: u32,
}

impl RA_R {
    /// The value of the field.
    pub closed spec fn bits_spec(&self) -> u32 {
        self.bits
    }

    pub(crate) fn new(bits: u32) -> (r: Self)
        ensures
            r.bits_spec() == bits,
    {
        RA_R { bits }
    }

    /// The value of the field.
    pub fn bits(&self) -> (bits: u32)
        ensures
            bits == self.bits_spec(),
    {
        self.bits
    }
}

/// Field `RA` writer - Register A.
pub struct RA_W<'a> {
    /// The writer whose field this is.
    pub w: &'a mut W,
}

impl<'a> RA_W<'a> {
    /// Writes raw bits to the field.
    pub fn bits(self, value: u32) -> (w: &'a mut W)
        ensures
            w.bits_spec() == value,
            *final(self.w) == *final(w),
    {
        self.w.bits = value;
        self.w
    }
}

impl R {
    /// The register word.
    pub closed spec fn bits_spec(&self) -> u32 {
        self.bits
    }

    /// A reader of the word `bits`.
    pub fn new(bits: u32) -> (r: Self)
        ensures
            r.bits_spec() == bits,
    {
        R { bits }
    }

    /// Bits 0:31 - Register A.
    pub fn ra(&self) -> (r: RA_R)
        ensures
            r.bits_spec() == self.bits_spec(),
    {
        RA_R::new(self.bits)
    }
}

impl W {
    /// The register word.
    pub closed spec fn bits_spec(&self) -> u32 {
        self.bits
    }

    /// A writer that starts from the word `bits`.
    pub fn new(bits: u32) -> (w: Self)
        ensures
            w.bits_spec() == bits,
    {
        W { bits }
    }

    /// The register word as it stands.
    pub fn get(&self) -> (bits: u32)
        ensures
            bits == self.bits_spec(),
    {
        self.bits
    }

    /// Bits 0:31 - Register A.
    pub fn ra(&mut self) -> (f: RA_W<'_>)
        ensures
            *f.w == *old(self),
            *final(f.w) == *final(self),
    {
        RA_W { w: self }
    }

    /// Writes raw bits to the register.
    pub fn bits(&mut self, bits: u32) -> (w: &mut Self)
        ensures
            w.bits_spec() == bits,
            *final(self) == *final(w),
    {
        self.bits = bits;
        self
    }
}

/// Register A (channel = 0).
pub struct TC_RA_SPEC;

impl TC_RA_SPEC {
    /// The value of the register after reset.
    pub fn reset_value() -> (bits: u32)
        ensures
            bits == 0,
    {
        0
    }
}

} // verus!
