//! The error interrupt status register.
//!
//! Each of its ten low bits reports one kind of error; the six high bits are
//! reserved. A reader takes the register word apart, bit by bit; a writer
//! puts a word together, and every field of it changes one bit and leaves
//! the others as they are.
use vstd::prelude::*;
use crate::pac::generic::{bit_at, read_bit, with_bit, write_bit};

verus! {

/// What was read from the register.
pub struct R {
    bits: u16,
}

/// What is to be written to the register.
pub struct W {
    bits: u16,
}

impl R {
    /// The register word.
    pub closed spec fn bits_spec(&self) -> u16 {
        self.bits
    }

    /// A reader of the word `bits`.
    pub fn new(bits: u16) -> (r: Self)
        ensures
            r.bits_spec() == bits,
    {
        R { bits }
    }

    /// The register word.
    pub fn bits(&self) -> (bits: u16)
        ensures
            bits == self.bits_spec(),
    {
        self.bits
    }
}

impl W {
    /// The register word.
    pub closed spec fn bits_spec(&self) -> u16 {
        self.bits
    }

    /// A writer that starts from the word `bits`.
    pub fn new(bits: u16) -> (w: Self)
        ensures
            w.bits_spec() == bits,
    {
        W { bits }
    }

    /// The register word as it stands.
    pub fn get(&self) -> (bits: u16)
        ensures
            bits == self.bits_spec(),
    {
        self.bits
    }
}

/// Command Timeout Error.
#[derive(Clone, Copy, Debug, PartialEq, Eq, Structural)]
pub enum CMDTEO_A {
    /// 0: No Error.
    NO,
    /// 1: Timeout.
    YES,
}

impl CMDTEO_A {
    /// The bit that stands for the variant.
    pub open spec fn bit_spec(self) -> bool {
        self == CMDTEO_A::YES
    }

    /// The bit that stands for the variant.
    pub fn bit(self) -> (bit: bool)
        ensures
            bit == self.bit_spec(),
    {
        match self {
            CMDTEO_A::NO => false,
            CMDTEO_A::YES => true,
        }
    }
}

/// Field `CMDTEO` reader - Command Timeout Error.
pub struct CMDTEO_R {
    bits: bool,
}

impl CMDTEO_R {
    /// The bit that was read.
    pub closed spec fn bit_spec(&self) -> bool {
        self.bits
    }

    pub(crate) fn new(bits: bool) -> (r: Self)
        ensures
            r.bit_spec() == bits,
    {
        CMDTEO_R { bits }
    }

    /// The bit that was read.
    pub fn bit(&self) -> (bit: bool)
        ensures
            bit == self.bit_spec(),
    {
        self.bits
    }

    /// Get enumerated values variant.
    pub fn variant(&self) -> (variant: CMDTEO_A)
        ensures
            variant.bit_spec() == self.bit_spec(),
    {
        match self.bits {
            false => CMDTEO_A::NO,
            true => CMDTEO_A::YES,
        }
    }

    /// Checks if the value of the field is `NO`.
    pub fn is_no(&self) -> (r: bool)
        ensures
            r == !self.bit_spec(),
    {
        self.variant() == CMDTEO_A::NO
    }

    /// Checks if the value of the field is `YES`.
    pub fn is_yes(&self) -> (r: bool)
        ensures
            r == self.bit_spec(),
    {
        self.variant() == CMDTEO_A::YES
    }
}

/// Field `CMDTEO` writer - Command Timeout Error.
pub struct CMDTEO_W<'a> {
    /// The writer whose bit 0 this is.
    pub w: &'a mut W,
}

impl<'a> CMDTEO_W<'a> {
    /// Writes `variant` to the field.
    pub fn variant(self, variant: CMDTEO_A) -> (w: &'a mut W)
        ensures
            w.bits_spec() == with_bit(old(self.w).bits_spec(), 0, variant.bit_spec()),
            *final(self.w) == *final(w),
    {
        self.bit(variant.bit())
    }

    /// No Error.
    pub fn no(self) -> (w: &'a mut W)
        ensures
            w.bits_spec() == with_bit(old(self.w).bits_spec(), 0, false),
            *final(self.w) == *final(w),
    {
        self.variant(CMDTEO_A::NO)
    }

    /// Timeout.
    pub fn yes(self) -> (w: &'a mut W)
        ensures
            w.bits_spec() == with_bit(old(self.w).bits_spec(), 0, true),
            *final(self.w) == *final(w),
    {
        self.variant(CMDTEO_A::YES)
    }

    /// Sets the field bit.
    pub fn set_bit(self) -> (w: &'a mut W)
        ensures
            w.bits_spec() == with_bit(old(self.w).bits_spec(), 0, true),
            *final(self.w) == *final(w),
    {
        self.bit(true)
    }

    /// Clears the field bit.
    pub fn clear_bit(self) -> (w: &'a mut W)
        ensures
            w.bits_spec() == with_bit(old(self.w).bits_spec(), 0, false),
            *final(self.w) == *final(w),
    {
        self.bit(false)
    }

    /// Writes raw bits to the field.
    pub fn bit(self, value: bool) -> (w: &'a mut W)
        ensures
            w.bits_spec() == with_bit(old(self.w).bits_spec(), 0, value),
            *final(self.w) == *final(w),
    {
        self.w.bits = write_bit(self.w.bits, 0, value);
        self.w
    }
}

/// Command CRC Error.
#[derive(Clone, Copy, Debug, PartialEq, Eq, Structural)]
pub enum CMDCRC_A {
    /// 0: No Error.
    NO,
    /// 1: CRC Error Generated.
    YES,
}

impl CMDCRC_A {
    /// The bit that stands for the variant.
    pub open spec fn bit_spec(self) -> bool {
        self == CMDCRC_A::YES
    }

    /// The bit that stands for the variant.
    pub fn bit(self) -> (bit: bool)
        ensures
            bit == self.bit_spec(),
    {
        match self {
            CMDCRC_A::NO => false,
            CMDCRC_A::YES => true,
        }
    }
}

/// Field `CMDCRC` reader - Command CRC Error.
pub struct CMDCRC_R {
    bits: bool,
}

impl CMDCRC_R {
    /// The bit that was read.
    pub closed spec fn bit_spec(&self) -> bool {
        self.bits
    }

    pub(crate) fn new(bits: bool) -> (r: Self)
        ensures
            r.bit_spec() == bits,
    {
        CMDCRC_R { bits }
    }

    /// The bit that was read.
    pub fn bit(&self) -> (bit: bool)
        ensures
            bit == self.bit_spec(),
    {
        self.bits
    }

    /// Get enumerated values variant.
    pub fn variant(&self) -> (variant: CMDCRC_A)
        ensures
            variant.bit_spec() == self.bit_spec(),
    {
        match self.bits {
            false => CMDCRC_A::NO,
            true => CMDCRC_A::YES,
        }
    }

    /// Checks if the value of the field is `NO`.
    pub fn is_no(&self) -> (r: bool)
        ensures
            r == !self.bit_spec(),
    {
        self.variant() == CMDCRC_A::NO
    }

    /// Checks if the value of the field is `YES`.
    pub fn is_yes(&self) -> (r: bool)
        ensures
            r == self.bit_spec(),
    {
        self.variant() == CMDCRC_A::YES
    }
}

/// Field `CMDCRC` writer - Command CRC Error.
pub struct CMDCRC_W<'a> {
    /// The writer whose bit 1 this is.
    pub w: &'a mut W,
}

impl<'a> CMDCRC_W<'a> {
    /// Writes `variant` to the field.
    pub fn variant(self, variant: CMDCRC_A) -> (w: &'a mut W)
        ensures
            w.bits_spec() == with_bit(old(self.w).bits_spec(), 1, variant.bit_spec()),
            *final(self.w) == *final(w),
    {
        self.bit(variant.bit())
    }

    /// No Error.
    pub fn no(self) -> (w: &'a mut W)
        ensures
            w.bits_spec() == with_bit(old(self.w).bits_spec(), 1, false),
            *final(self.w) == *final(w),
    {
        self.variant(CMDCRC_A::NO)
    }

    /// CRC Error Generated.
    pub fn yes(self) -> (w: &'a mut W)
        ensures
            w.bits_spec() == with_bit(old(self.w).bits_spec(), 1, true),
            *final(self.w) == *final(w),
    {
        self.variant(CMDCRC_A::YES)
    }

    /// Sets the field bit.
    pub fn set_bit(self) -> (w: &'a mut W)
        ensures
            w.bits_spec() == with_bit(old(self.w).bits_spec(), 1, true),
            *final(self.w) == *final(w),
    {
        self.bit(true)
    }

    /// Clears the field bit.
    pub fn clear_bit(self) -> (w: &'a mut W)
        ensures
            w.bits_spec() == with_bit(old(self.w).bits_spec(), 1, false),
            *final(self.w) == *final(w),
    {
        self.bit(false)
    }

    /// Writes raw bits to the field.
    pub fn bit(self, value: bool) -> (w: &'a mut W)
        ensures
            w.bits_spec() == with_bit(old(self.w).bits_spec(), 1, value),
            *final(self.w) == *final(w),
    {
        self.w.bits = write_bit(self.w.bits, 1, value);
        self.w
    }
}

/// Command End Bit Error.
#[derive(Clone, Copy, Debug, PartialEq, Eq, Structural)]
pub enum CMDEND_A {
    /// 0: No error.
    NO,
    /// 1: End Bit Error Generated.
    YES,
}

impl CMDEND_A {
    /// The bit that stands for the variant.
    pub open spec fn bit_spec(self) -> bool {
        self == CMDEND_A::YES
    }

    /// The bit that stands for the variant.
    pub fn bit(self) -> (bit: bool)
        ensures
            bit == self.bit_spec(),
    {
        match self {
            CMDEND_A::NO => false,
            CMDEND_A::YES => true,
        }
    }
}

/// Field `CMDEND` reader - Command End Bit Error.
pub struct CMDEND_R {
    bits: bool,
}

impl CMDEND_R {
    /// The bit that was read.
    pub closed spec fn bit_spec(&self) -> bool {
        self.bits
    }

    pub(crate) fn new(bits: bool) -> (r: Self)
        ensures
            r.bit_spec() == bits,
    {
        CMDEND_R { bits }
    }

    /// The bit that was read.
    pub fn bit(&self) -> (bit: bool)
        ensures
            bit == self.bit_spec(),
    {
        self.bits
    }

    /// Get enumerated values variant.
    pub fn variant(&self) -> (variant: CMDEND_A)
        ensures
            variant.bit_spec() == self.bit_spec(),
    {
        match self.bits {
            false => CMDEND_A::NO,
            true => CMDEND_A::YES,
        }
    }

    /// Checks if the value of the field is `NO`.
    pub fn is_no(&self) -> (r: bool)
        ensures
            r == !self.bit_spec(),
    {
        self.variant() == CMDEND_A::NO
    }

    /// Checks if the value of the field is `YES`.
    pub fn is_yes(&self) -> (r: bool)
        ensures
            r == self.bit_spec(),
    {
        self.variant() == CMDEND_A::YES
    }
}

/// Field `CMDEND` writer - Command End Bit Error.
pub struct CMDEND_W<'a> {
    /// The writer whose bit 2 this is.
    pub w: &'a mut W,
}

impl<'a> CMDEND_W<'a> {
    /// Writes `variant` to the field.
    pub fn variant(self, variant: CMDEND_A) -> (w: &'a mut W)
        ensures
            w.bits_spec() == with_bit(old(self.w).bits_spec(), 2, variant.bit_spec()),
            *final(self.w) == *final(w),
    {
        self.bit(variant.bit())
    }

    /// No error.
    pub fn no(self) -> (w: &'a mut W)
        ensures
            w.bits_spec() == with_bit(old(self.w).bits_spec(), 2, false),
            *final(self.w) == *final(w),
    {
        self.variant(CMDEND_A::NO)
    }

    /// End Bit Error Generated.
    pub fn yes(self) -> (w: &'a mut W)
        ensures
            w.bits_spec() == with_bit(old(self.w).bits_spec(), 2, true),
            *final(self.w) == *final(w),
    {
        self.variant(CMDEND_A::YES)
    }

    /// Sets the field bit.
    pub fn set_bit(self) -> (w: &'a mut W)
        ensures
            w.bits_spec() == with_bit(old(self.w).bits_spec(), 2, true),
            *final(self.w) == *final(w),
    {
        self.bit(true)
    }

    /// Clears the field bit.
    pub fn clear_bit(self) -> (w: &'a mut W)
        ensures
            w.bits_spec() == with_bit(old(self.w).bits_spec(), 2, false),
            *final(self.w) == *final(w),
    {
        self.bit(false)
    }

    /// Writes raw bits to the field.
    pub fn bit(self, value: bool) -> (w: &'a mut W)
        ensures
            w.bits_spec() == with_bit(old(self.w).bits_spec(), 2, value),
            *final(self.w) == *final(w),
    {
        self.w.bits = write_bit(self.w.bits, 2, value);
        self.w
    }
}

/// Command Index Error.
#[derive(Clone, Copy, Debug, PartialEq, Eq, Structural)]
pub enum CMDIDX_A {
    /// 0: No Error.
    NO,
    /// 1: Error.
    YES,
}

impl CMDIDX_A {
    /// The bit that stands for the variant.
    pub open spec fn bit_spec(self) -> bool {
        self == CMDIDX_A::YES
    }

    /// The bit that stands for the variant.
    pub fn bit(self) -> (bit: bool)
        ensures
            bit == self.bit_spec(),
    {
        match self {
            CMDIDX_A::NO => false,
            CMDIDX_A::YES => true,
        }
    }
}

/// Field `CMDIDX` reader - Command Index Error.
pub struct CMDIDX_R {
    bits: bool,
}

impl CMDIDX_R {
    /// The bit that was read.
    pub closed spec fn bit_spec(&self) -> bool {
        self.bits
    }

    pub(crate) fn new(bits: bool) -> (r: Self)
        ensures
            r.bit_spec() == bits,
    {
        CMDIDX_R { bits }
    }

    /// The bit that was read.
    pub fn bit(&self) -> (bit: bool)
        ensures
            bit == self.bit_spec(),
    {
        self.bits
    }

    /// Get enumerated values variant.
    pub fn variant(&self) -> (variant: CMDIDX_A)
        ensures
            variant.bit_spec() == self.bit_spec(),
    {
        match self.bits {
            false => CMDIDX_A::NO,
            true => CMDIDX_A::YES,
        }
    }

    /// Checks if the value of the field is `NO`.
    pub fn is_no(&self) -> (r: bool)
        ensures
            r == !self.bit_spec(),
    {
        self.variant() == CMDIDX_A::NO
    }

    /// Checks if the value of the field is `YES`.
    pub fn is_yes(&self) -> (r: bool)
        ensures
            r == self.bit_spec(),
    {
        self.variant() == CMDIDX_A::YES
    }
}

/// Field `CMDIDX` writer - Command Index Error.
pub struct CMDIDX_W<'a> {
    /// The writer whose bit 3 this is.
    pub w: &'a mut W,
}

impl<'a> CMDIDX_W<'a> {
    /// Writes `variant` to the field.
    pub fn variant(self, variant: CMDIDX_A) -> (w: &'a mut W)
        ensures
            w.bits_spec() == with_bit(old(self.w).bits_spec(), 3, variant.bit_spec()),
            *final(self.w) == *final(w),
    {
        self.bit(variant.bit())
    }

    /// No Error.
    pub fn no(self) -> (w: &'a mut W)
        ensures
            w.bits_spec() == with_bit(old(self.w).bits_spec(), 3, false),
            *final(self.w) == *final(w),
    {
        self.variant(CMDIDX_A::NO)
    }

    /// Error.
    pub fn yes(self) -> (w: &'a mut W)
        ensures
            w.bits_spec() == with_bit(old(self.w).bits_spec(), 3, true),
            *final(self.w) == *final(w),
    {
        self.variant(CMDIDX_A::YES)
    }

    /// Sets the field bit.
    pub fn set_bit(self) -> (w: &'a mut W)
        ensures
            w.bits_spec() == with_bit(old(self.w).bits_spec(), 3, true),
            *final(self.w) == *final(w),
    {
        self.bit(true)
    }

    /// Clears the field bit.
    pub fn clear_bit(self) -> (w: &'a mut W)
        ensures
            w.bits_spec() == with_bit(old(self.w).bits_spec(), 3, false),
            *final(self.w) == *final(w),
    {
        self.bit(false)
    }

    /// Writes raw bits to the field.
    pub fn bit(self, value: bool) -> (w: &'a mut W)
        ensures
            w.bits_spec() == with_bit(old(self.w).bits_spec(), 3, value),
            *final(self.w) == *final(w),
    {
        self.w.bits = write_bit(self.w.bits, 3, value);
        self.w
    }
}

/// Data Timeout Error.
#[derive(Clone, Copy, Debug, PartialEq, Eq, Structural)]
pub enum DATTEO_A {
    /// 0: No Error.
    NO,
    /// 1: Timeout.
    YES,
}

impl DATTEO_A {
    /// The bit that stands for the variant.
    pub open spec fn bit_spec(self) -> bool {
        self == DATTEO_A::YES
    }

    /// The bit that stands for the variant.
    pub fn bit(self) -> (bit: bool)
        ensures
            bit == self.bit_spec(),
    {
        match self {
            DATTEO_A::NO => false,
            DATTEO_A::YES => true,
        }
    }
}

/// Field `DATTEO` reader - Data Timeout Error.
pub struct DATTEO_R {
    bits: bool,
}

impl DATTEO_R {
    /// The bit that was read.
    pub closed spec fn bit_spec(&self) -> bool {
        self.bits
    }

    pub(crate) fn new(bits: bool) -> (r: Self)
        ensures
            r.bit_spec() == bits,
    {
        DATTEO_R { bits }
    }

    /// The bit that was read.
    pub fn bit(&self) -> (bit: bool)
        ensures
            bit == self.bit_spec(),
    {
        self.bits
    }

    /// Get enumerated values variant.
    pub fn variant(&self) -> (variant: DATTEO_A)
        ensures
            variant.bit_spec() == self.bit_spec(),
    {
        match self.bits {
            false => DATTEO_A::NO,
            true => DATTEO_A::YES,
        }
    }

    /// Checks if the value of the field is `NO`.
    pub fn is_no(&self) -> (r: bool)
        ensures
            r == !self.bit_spec(),
    {
        self.variant() == DATTEO_A::NO
    }

    /// Checks if the value of the field is `YES`.
    pub fn is_yes(&self) -> (r: bool)
        ensures
            r == self.bit_spec(),
    {
        self.variant() == DATTEO_A::YES
    }
}

/// Field `DATTEO` writer - Data Timeout Error.
pub struct DATTEO_W<'a> {
    /// The writer whose bit 4 this is.
    pub w: &'a mut W,
}

impl<'a> DATTEO_W<'a> {
    /// Writes `variant` to the field.
    pub fn variant(self, variant: DATTEO_A) -> (w: &'a mut W)
        ensures
            w.bits_spec() == with_bit(old(self.w).bits_spec(), 4, variant.bit_spec()),
            *final(self.w) == *final(w),
    {
        self.bit(variant.bit())
    }

    /// No Error.
    pub fn no(self) -> (w: &'a mut W)
        ensures
            w.bits_spec() == with_bit(old(self.w).bits_spec(), 4, false),
            *final(self.w) == *final(w),
    {
        self.variant(DATTEO_A::NO)
    }

    /// Timeout.
    pub fn yes(self) -> (w: &'a mut W)
        ensures
            w.bits_spec() == with_bit(old(self.w).bits_spec(), 4, true),
            *final(self.w) == *final(w),
    {
        self.variant(DATTEO_A::YES)
    }

    /// Sets the field bit.
    pub fn set_bit(self) -> (w: &'a mut W)
        ensures
            w.bits_spec() == with_bit(old(self.w).bits_spec(), 4, true),
            *final(self.w) == *final(w),
    {
        self.bit(true)
    }

    /// Clears the field bit.
    pub fn clear_bit(self) -> (w: &'a mut W)
        ensures
            w.bits_spec() == with_bit(old(self.w).bits_spec(), 4, false),
            *final(self.w) == *final(w),
    {
        self.bit(false)
    }

    /// Writes raw bits to the field.
    pub fn bit(self, value: bool) -> (w: &'a mut W)
        ensures
            w.bits_spec() == with_bit(old(self.w).bits_spec(), 4, value),
            *final(self.w) == *final(w),
    {
        self.w.bits = write_bit(self.w.bits, 4, value);
        self.w
    }
}

/// Data CRC Error.
#[derive(Clone, Copy, Debug, PartialEq, Eq, Structural)]
pub enum DATCRC_A {
    /// 0: No Error.
    NO,
    /// 1: Error.
    YES,
}

impl DATCRC_A {
    /// The bit that stands for the variant.
    pub open spec fn bit_spec(self) -> bool {
        self == DATCRC_A::YES
    }

    /// The bit that stands for the variant.
    pub fn bit(self) -> (bit: bool)
        ensures
            bit == self.bit_spec(),
    {
        match self {
            DATCRC_A::NO => false,
            DATCRC_A::YES => true,
        }
    }
}

/// Field `DATCRC` reader - Data CRC Error.
pub struct DATCRC_R {
    bits: bool,
}

impl DATCRC_R {
    /// The bit that was read.
    pub closed spec fn bit_spec(&self) -> bool {
        self.bits
    }

    pub(crate) fn new(bits: bool) -> (r: Self)
        ensures
            r.bit_spec() == bits,
    {
        DATCRC_R { bits }
    }

    /// The bit that was read.
    pub fn bit(&self) -> (bit: bool)
        ensures
            bit == self.bit_spec(),
    {
        self.bits
    }

    /// Get enumerated values variant.
    pub fn variant(&self) -> (variant: DATCRC_A)
        ensures
            variant.bit_spec() == self.bit_spec(),
    {
        match self.bits {
            false => DATCRC_A::NO,
            true => DATCRC_A::YES,
        }
    }

    /// Checks if the value of the field is `NO`.
    pub fn is_no(&self) -> (r: bool)
        ensures
            r == !self.bit_spec(),
    {
        self.variant() == DATCRC_A::NO
    }

    /// Checks if the value of the field is `YES`.
    pub fn is_yes(&self) -> (r: bool)
        ensures
            r == self.bit_spec(),
    {
        self.variant() == DATCRC_A::YES
    }
}

/// Field `DATCRC` writer - Data CRC Error.
pub struct DATCRC_W<'a> {
    /// The writer whose bit 5 this is.
    pub w: &'a mut W,
}

impl<'a> DATCRC_W<'a> {
    /// Writes `variant` to the field.
    pub fn variant(self, variant: DATCRC_A) -> (w: &'a mut W)
        ensures
            w.bits_spec() == with_bit(old(self.w).bits_spec(), 5, variant.bit_spec()),
            *final(self.w) == *final(w),
    {
        self.bit(variant.bit())
    }

    /// No Error.
    pub fn no(self) -> (w: &'a mut W)
        ensures
            w.bits_spec() == with_bit(old(self.w).bits_spec(), 5, false),
            *final(self.w) == *final(w),
    {
        self.variant(DATCRC_A::NO)
    }

    /// Error.
    pub fn yes(self) -> (w: &'a mut W)
        ensures
            w.bits_spec() == with_bit(old(self.w).bits_spec(), 5, true),
            *final(self.w) == *final(w),
    {
        self.variant(DATCRC_A::YES)
    }

    /// Sets the field bit.
    pub fn set_bit(self) -> (w: &'a mut W)
        ensures
            w.bits_spec() == with_bit(old(self.w).bits_spec(), 5, true),
            *final(self.w) == *final(w),
    {
        self.bit(true)
    }

    /// Clears the field bit.
    pub fn clear_bit(self) -> (w: &'a mut W)
        ensures
            w.bits_spec() == with_bit(old(self.w).bits_spec(), 5, false),
            *final(self.w) == *final(w),
    {
        self.bit(false)
    }

    /// Writes raw bits to the field.
    pub fn bit(self, value: bool) -> (w: &'a mut W)
        ensures
            w.bits_spec() == with_bit(old(self.w).bits_spec(), 5, value),
            *final(self.w) == *final(w),
    {
        self.w.bits = write_bit(self.w.bits, 5, value);
        self.w
    }
}

/// Data End Bit Error.
#[derive(Clone, Copy, Debug, PartialEq, Eq, Structural)]
pub enum DATEND_A {
    /// 0: No Error.
    NO,
    /// 1: Error.
    YES,
}

impl DATEND_A {
    /// The bit that stands for the variant.
    pub open spec fn bit_spec(self) -> bool {
        self == DATEND_A::YES
    }

    /// The bit that stands for the variant.
    pub fn bit(self) -> (bit: bool)
        ensures
            bit == self.bit_spec(),
    {
        match self {
            DATEND_A::NO => false,
            DATEND_A::YES => true,
        }
    }
}

/// Field `DATEND` reader - Data End Bit Error.
pub struct DATEND_R {
    bits: bool,
}

impl DATEND_R {
    /// The bit that was read.
    pub closed spec fn bit_spec(&self) -> bool {
        self.bits
    }

    pub(crate) fn new(bits: bool) -> (r: Self)
        ensures
            r.bit_spec() == bits,
    {
        DATEND_R { bits }
    }

    /// The bit that was read.
    pub fn bit(&self) -> (bit: bool)
        ensures
            bit == self.bit_spec(),
    {
        self.bits
    }

    /// Get enumerated values variant.
    pub fn variant(&self) -> (variant: DATEND_A)
        ensures
            variant.bit_spec() == self.bit_spec(),
    {
        match self.bits {
            false => DATEND_A::NO,
            true => DATEND_A::YES,
        }
    }

    /// Checks if the value of the field is `NO`.
    pub fn is_no(&self) -> (r: bool)
        ensures
            r == !self.bit_spec(),
    {
        self.variant() == DATEND_A::NO
    }

    /// Checks if the value of the field is `YES`.
    pub fn is_yes(&self) -> (r: bool)
        ensures
            r == self.bit_spec(),
    {
        self.variant() == DATEND_A::YES
    }
}

/// Field `DATEND` writer - Data End Bit Error.
pub struct DATEND_W<'a> {
    /// The writer whose bit 6 this is.
    pub w: &'a mut W,
}

impl<'a> DATEND_W<'a> {
    /// Writes `variant` to the field.
    pub fn variant(self, variant: DATEND_A) -> (w: &'a mut W)
        ensures
            w.bits_spec() == with_bit(old(self.w).bits_spec(), 6, variant.bit_spec()),
            *final(self.w) == *final(w),
    {
        self.bit(variant.bit())
    }

    /// No Error.
    pub fn no(self) -> (w: &'a mut W)
        ensures
            w.bits_spec() == with_bit(old(self.w).bits_spec(), 6, false),
            *final(self.w) == *final(w),
    {
        self.variant(DATEND_A::NO)
    }

    /// Error.
    pub fn yes(self) -> (w: &'a mut W)
        ensures
            w.bits_spec() == with_bit(old(self.w).bits_spec(), 6, true),
            *final(self.w) == *final(w),
    {
        self.variant(DATEND_A::YES)
    }

    /// Sets the field bit.
    pub fn set_bit(self) -> (w: &'a mut W)
        ensures
            w.bits_spec() == with_bit(old(self.w).bits_spec(), 6, true),
            *final(self.w) == *final(w),
    {
        self.bit(true)
    }

    /// Clears the field bit.
    pub fn clear_bit(self) -> (w: &'a mut W)
        ensures
            w.bits_spec() == with_bit(old(self.w).bits_spec(), 6, false),
            *final(self.w) == *final(w),
    {
        self.bit(false)
    }

    /// Writes raw bits to the field.
    pub fn bit(self, value: bool) -> (w: &'a mut W)
        ensures
            w.bits_spec() == with_bit(old(self.w).bits_spec(), 6, value),
            *final(self.w) == *final(w),
    {
        self.w.bits = write_bit(self.w.bits, 6, value);
        self.w
    }
}

/// Current Limit Error.
#[derive(Clone, Copy, Debug, PartialEq, Eq, Structural)]
pub enum CURLIM_A {
    /// 0: No Error.
    NO,
    /// 1: Power Fail.
    YES,
}

impl CURLIM_A {
    /// The bit that stands for the variant.
    pub open spec fn bit_spec(self) -> bool {
        self == CURLIM_A::YES
    }

    /// The bit that stands for the variant.
    pub fn bit(self) -> (bit: bool)
        ensures
            bit == self.bit_spec(),
    {
        match self {
            CURLIM_A::NO => false,
            CURLIM_A::YES => true,
        }
    }
}

/// Field `CURLIM` reader - Current Limit Error.
pub struct CURLIM_R {
    bits: bool,
}

impl CURLIM_R {
    /// The bit that was read.
    pub closed spec fn bit_spec(&self) -> bool {
        self.bits
    }

    pub(crate) fn new(bits: bool) -> (r: Self)
        ensures
            r.bit_spec() == bits,
    {
        CURLIM_R { bits }
    }

    /// The bit that was read.
    pub fn bit(&self) -> (bit: bool)
        ensures
            bit == self.bit_spec(),
    {
        self.bits
    }

    /// Get enumerated values variant.
    pub fn variant(&self) -> (variant: CURLIM_A)
        ensures
            variant.bit_spec() == self.bit_spec(),
    {
        match self.bits {
            false => CURLIM_A::NO,
            true => CURLIM_A::YES,
        }
    }

    /// Checks if the value of the field is `NO`.
    pub fn is_no(&self) -> (r: bool)
        ensures
            r == !self.bit_spec(),
    {
        self.variant() == CURLIM_A::NO
    }

    /// Checks if the value of the field is `YES`.
    pub fn is_yes(&self) -> (r: bool)
        ensures
            r == self.bit_spec(),
    {
        self.variant() == CURLIM_A::YES
    }
}

/// Field `CURLIM` writer - Current Limit Error.
pub struct CURLIM_W<'a> {
    /// The writer whose bit 7 this is.
    pub w: &'a mut W,
}

impl<'a> CURLIM_W<'a> {
    /// Writes `variant` to the field.
    pub fn variant(self, variant: CURLIM_A) -> (w: &'a mut W)
        ensures
            w.bits_spec() == with_bit(old(self.w).bits_spec(), 7, variant.bit_spec()),
            *final(self.w) == *final(w),
    {
        self.bit(variant.bit())
    }

    /// No Error.
    pub fn no(self) -> (w: &'a mut W)
        ensures
            w.bits_spec() == with_bit(old(self.w).bits_spec(), 7, false),
            *final(self.w) == *final(w),
    {
        self.variant(CURLIM_A::NO)
    }

    /// Power Fail.
    pub fn yes(self) -> (w: &'a mut W)
        ensures
            w.bits_spec() == with_bit(old(self.w).bits_spec(), 7, true),
            *final(self.w) == *final(w),
    {
        self.variant(CURLIM_A::YES)
    }

    /// Sets the field bit.
    pub fn set_bit(self) -> (w: &'a mut W)
        ensures
            w.bits_spec() == with_bit(old(self.w).bits_spec(), 7, true),
            *final(self.w) == *final(w),
    {
        self.bit(true)
    }

    /// Clears the field bit.
    pub fn clear_bit(self) -> (w: &'a mut W)
        ensures
            w.bits_spec() == with_bit(old(self.w).bits_spec(), 7, false),
            *final(self.w) == *final(w),
    {
        self.bit(false)
    }

    /// Writes raw bits to the field.
    pub fn bit(self, value: bool) -> (w: &'a mut W)
        ensures
            w.bits_spec() == with_bit(old(self.w).bits_spec(), 7, value),
            *final(self.w) == *final(w),
    {
        self.w.bits = write_bit(self.w.bits, 7, value);
        self.w
    }
}

/// Auto CMD Error.
#[derive(Clone, Copy, Debug, PartialEq, Eq, Structural)]
pub enum ACMD_A {
    /// 0: No Error.
    NO,
    /// 1: Error.
    YES,
}

impl ACMD_A {
    /// The bit that stands for the variant.
    pub open spec fn bit_spec(self) -> bool {
        self == ACMD_A::YES
    }

    /// The bit that stands for the variant.
    pub fn bit(self) -> (bit: bool)
        ensures
            bit == self.bit_spec(),
    {
        match self {
            ACMD_A::NO => false,
            ACMD_A::YES => true,
        }
    }
}

/// Field `ACMD` reader - Auto CMD Error.
pub struct ACMD_R {
    bits: bool,
}

impl ACMD_R {
    /// The bit that was read.
    pub closed spec fn bit_spec(&self) -> bool {
        self.bits
    }

    pub(crate) fn new(bits: bool) -> (r: Self)
        ensures
            r.bit_spec() == bits,
    {
        ACMD_R { bits }
    }

    /// The bit that was read.
    pub fn bit(&self) -> (bit: bool)
        ensures
            bit == self.bit_spec(),
    {
        self.bits
    }

    /// Get enumerated values variant.
    pub fn variant(&self) -> (variant: ACMD_A)
        ensures
            variant.bit_spec() == self.bit_spec(),
    {
        match self.bits {
            false => ACMD_A::NO,
            true => ACMD_A::YES,
        }
    }

    /// Checks if the value of the field is `NO`.
    pub fn is_no(&self) -> (r: bool)
        ensures
            r == !self.bit_spec(),
    {
        self.variant() == ACMD_A::NO
    }

    /// Checks if the value of the field is `YES`.
    pub fn is_yes(&self) -> (r: bool)
        ensures
            r == self.bit_spec(),
    {
        self.variant() == ACMD_A::YES
    }
}

/// Field `ACMD` writer - Auto CMD Error.
pub struct ACMD_W<'a> {
    /// The writer whose bit 8 this is.
    pub w: &'a mut W,
}

impl<'a> ACMD_W<'a> {
    /// Writes `variant` to the field.
    pub fn variant(self, variant: ACMD_A) -> (w: &'a mut W)
        ensures
            w.bits_spec() == with_bit(old(self.w).bits_spec(), 8, variant.bit_spec()),
            *final(self.w) == *final(w),
    {
        self.bit(variant.bit())
    }

    /// No Error.
    pub fn no(self) -> (w: &'a mut W)
        ensures
            w.bits_spec() == with_bit(old(self.w).bits_spec(), 8, false),
            *final(self.w) == *final(w),
    {
        self.variant(ACMD_A::NO)
    }

    /// Error.
    pub fn yes(self) -> (w: &'a mut W)
        ensures
            w.bits_spec() == with_bit(old(self.w).bits_spec(), 8, true),
            *final(self.w) == *final(w),
    {
        self.variant(ACMD_A::YES)
    }

    /// Sets the field bit.
    pub fn set_bit(self) -> (w: &'a mut W)
        ensures
            w.bits_spec() == with_bit(old(self.w).bits_spec(), 8, true),
            *final(self.w) == *final(w),
    {
        self.bit(true)
    }

    /// Clears the field bit.
    pub fn clear_bit(self) -> (w: &'a mut W)
        ensures
            w.bits_spec() == with_bit(old(self.w).bits_spec(), 8, false),
            *final(self.w) == *final(w),
    {
        self.bit(false)
    }

    /// Writes raw bits to the field.
    pub fn bit(self, value: bool) -> (w: &'a mut W)
        ensures
            w.bits_spec() == with_bit(old(self.w).bits_spec(), 8, value),
            *final(self.w) == *final(w),
    {
        self.w.bits = write_bit(self.w.bits, 8, value);
        self.w
    }
}

/// ADMA Error.
#[derive(Clone, Copy, Debug, PartialEq, Eq, Structural)]
pub enum ADMA_A {
    /// 0: No Error.
    NO,
    /// 1: Error.
    YES,
}

impl ADMA_A {
    /// The bit that stands for the variant.
    pub open spec fn bit_spec(self) -> bool {
        self == ADMA_A::YES
    }

    /// The bit that stands for the variant.
    pub fn bit(self) -> (bit: bool)
        ensures
            bit == self.bit_spec(),
    {
        match self {
            ADMA_A::NO => false,
            ADMA_A::YES => true,
        }
    }
}

/// Field `ADMA` reader - ADMA Error.
pub struct ADMA_R {
    bits: bool,
}

impl ADMA_R {
    /// The bit that was read.
    pub closed spec fn bit_spec(&self) -> bool {
        self.bits
    }

    pub(crate) fn new(bits: bool) -> (r: Self)
        ensures
            r.bit_spec() == bits,
    {
        ADMA_R { bits }
    }

    /// The bit that was read.
    pub fn bit(&self) -> (bit: bool)
        ensures
            bit == self.bit_spec(),
    {
        self.bits
    }

    /// Get enumerated values variant.
    pub fn variant(&self) -> (variant: ADMA_A)
        ensures
            variant.bit_spec() == self.bit_spec(),
    {
        match self.bits {
            false => ADMA_A::NO,
            true => ADMA_A::YES,
        }
    }

    /// Checks if the value of the field is `NO`.
    pub fn is_no(&self) -> (r: bool)
        ensures
            r == !self.bit_spec(),
    {
        self.variant() == ADMA_A::NO
    }

    /// Checks if the value of the field is `YES`.
    pub fn is_yes(&self) -> (r: bool)
        ensures
            r == self.bit_spec(),
    {
        self.variant() == ADMA_A::YES
    }
}

/// Field `ADMA` writer - ADMA Error.
pub struct ADMA_W<'a> {
    /// The writer whose bit 9 this is.
    pub w: &'a mut W,
}

impl<'a> ADMA_W<'a> {
    /// Writes `variant` to the field.
    pub fn variant(self, variant: ADMA_A) -> (w: &'a mut W)
        ensures
            w.bits_spec() == with_bit(old(self.w).bits_spec(), 9, variant.bit_spec()),
            *final(self.w) == *final(w),
    {
        self.bit(variant.bit())
    }

    /// No Error.
    pub fn no(self) -> (w: &'a mut W)
        ensures
            w.bits_spec() == with_bit(old(self.w).bits_spec(), 9, false),
            *final(self.w) == *final(w),
    {
        self.variant(ADMA_A::NO)
    }

    /// Error.
    pub fn yes(self) -> (w: &'a mut W)
        ensures
            w.bits_spec() == with_bit(old(self.w).bits_spec(), 9, true),
            *final(self.w) == *final(w),
    {
        self.variant(ADMA_A::YES)
    }

    /// Sets the field bit.
    pub fn set_bit(self) -> (w: &'a mut W)
        ensures
            w.bits_spec() == with_bit(old(self.w).bits_spec(), 9, true),
            *final(self.w) == *final(w),
    {
        self.bit(true)
    }

    /// Clears the field bit.
    pub fn clear_bit(self) -> (w: &'a mut W)
        ensures
            w.bits_spec() == with_bit(old(self.w).bits_spec(), 9, false),
            *final(self.w) == *final(w),
    {
        self.bit(false)
    }

    /// Writes raw bits to the field.
    pub fn bit(self, value: bool) -> (w: &'a mut W)
        ensures
            w.bits_spec() == with_bit(old(self.w).bits_spec(), 9, value),
            *final(self.w) == *final(w),
    {
        self.w.bits = write_bit(self.w.bits, 9, value);
        self.w
    }
}

impl R {
    /// Bit 0 - Command Timeout Error.
    pub fn cmdteo(&self) -> (r: CMDTEO_R)
        ensures
            r.bit_spec() == bit_at(self.bits_spec(), 0),
    {
        CMDTEO_R::new(read_bit(self.bits, 0))
    }

    /// Bit 1 - Command CRC Error.
    pub fn cmdcrc(&self) -> (r: CMDCRC_R)
        ensures
            r.bit_spec() == bit_at(self.bits_spec(), 1),
    {
        CMDCRC_R::new(read_bit(self.bits, 1))
    }

    /// Bit 2 - Command End Bit Error.
    pub fn cmdend(&self) -> (r: CMDEND_R)
        ensures
            r.bit_spec() == bit_at(self.bits_spec(), 2),
    {
        CMDEND_R::new(read_bit(self.bits, 2))
    }

    /// Bit 3 - Command Index Error.
    pub fn cmdidx(&self) -> (r: CMDIDX_R)
        ensures
            r.bit_spec() == bit_at(self.bits_spec(), 3),
    {
        CMDIDX_R::new(read_bit(self.bits, 3))
    }

    /// Bit 4 - Data Timeout Error.
    pub fn datteo(&self) -> (r: DATTEO_R)
        ensures
            r.bit_spec() == bit_at(self.bits_spec(), 4),
    {
        DATTEO_R::new(read_bit(self.bits, 4))
    }

    /// Bit 5 - Data CRC Error.
    pub fn datcrc(&self) -> (r: DATCRC_R)
        ensures
            r.bit_spec() == bit_at(self.bits_spec(), 5),
    {
        DATCRC_R::new(read_bit(self.bits, 5))
    }

    /// Bit 6 - Data End Bit Error.
    pub fn datend(&self) -> (r: DATEND_R)
        ensures
            r.bit_spec() == bit_at(self.bits_spec(), 6),
    {
        DATEND_R::new(read_bit(self.bits, 6))
    }

    /// Bit 7 - Current Limit Error.
    pub fn curlim(&self) -> (r: CURLIM_R)
        ensures
            r.bit_spec() == bit_at(self.bits_spec(), 7),
    {
        CURLIM_R::new(read_bit(self.bits, 7))
    }

    /// Bit 8 - Auto CMD Error.
    pub fn acmd(&self) -> (r: ACMD_R)
        ensures
            r.bit_spec() == bit_at(self.bits_spec(), 8),
    {
        ACMD_R::new(read_bit(self.bits, 8))
    }

    /// Bit 9 - ADMA Error.
    pub fn adma(&self) -> (r: ADMA_R)
        ensures
            r.bit_spec() == bit_at(self.bits_spec(), 9),
    {
        ADMA_R::new(read_bit(self.bits, 9))
    }
}

impl W {
    /// Bit 0 - Command Timeout Error.
    pub fn cmdteo(&mut self) -> (f: CMDTEO_W<'_>)
        ensures
            *f.w == *old(self),
            *final(f.w) == *final(self),
    {
        CMDTEO_W { w: self }
    }

    /// Bit 1 - Command CRC Error.
    pub fn cmdcrc(&mut self) -> (f: CMDCRC_W<'_>)
        ensures
            *f.w == *old(self),
            *final(f.w) == *final(self),
    {
        CMDCRC_W { w: self }
    }

    /// Bit 2 - Command End Bit Error.
    pub fn cmdend(&mut self) -> (f: CMDEND_W<'_>)
        ensures
            *f.w == *old(self),
            *final(f.w) == *final(self),
    {
        CMDEND_W { w: self }
    }

    /// Bit 3 - Command Index Error.
    pub fn cmdidx(&mut self) -> (f: CMDIDX_W<'_>)
        ensures
            *f.w == *old(self),
            *final(f.w) == *final(self),
    {
        CMDIDX_W { w: self }
    }

    /// Bit 4 - Data Timeout Error.
    pub fn datteo(&mut self) -> (f: DATTEO_W<'_>)
        ensures
            *f.w == *old(self),
            *final(f.w) == *final(self),
    {
        DATTEO_W { w: self }
    }

    /// Bit 5 - Data CRC Error.
    pub fn datcrc(&mut self) -> (f: DATCRC_W<'_>)
        ensures
            *f.w == *old(self),
            *final(f.w) == *final(self),
    {
        DATCRC_W { w: self }
    }

    /// Bit 6 - Data End Bit Error.
    pub fn datend(&mut self) -> (f: DATEND_W<'_>)
        ensures
            *f.w == *old(self),
            *final(f.w) == *final(self),
    {
        DATEND_W { w: self }
    }

    /// Bit 7 - Current Limit Error.
    pub fn curlim(&mut self) -> (f: CURLIM_W<'_>)
        ensures
            *f.w == *old(self),
            *final(f.w) == *final(self),
    {
        CURLIM_W { w: self }
    }

    /// Bit 8 - Auto CMD Error.
    pub fn acmd(&mut self) -> (f: ACMD_W<'_>)
        ensures
            *f.w == *old(self),
            *final(f.w) == *final(self),
    {
        ACMD_W { w: self }
    }

    /// Bit 9 - ADMA Error.
    pub fn adma(&mut self) -> (f: ADMA_W<'_>)
        ensures
            *f.w == *old(self),
            *final(f.w) == *final(self),
    {
        ADMA_W { w: self }
    }

    /// Writes raw bits to the register.
    pub fn bits(&mut self, bits: u16) -> (w: &mut Self)
        ensures
            w.bits_spec() == bits,
            *final(self) == *final(w),
    {
        self.bits = bits;
        self
    }
}

/// Error Interrupt Status.
pub struct EISTR_SPEC;

impl EISTR_SPEC {
    /// The value of the register after reset.
    pub fn reset_value() -> (bits: u16)
        ensures
            bits == 0,
    {
        0
    }
}

} // verus!
