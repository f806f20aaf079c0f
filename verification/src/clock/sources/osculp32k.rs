//! The ultra low power 32 kHz oscillator.
//!
//! It runs whenever the device has power and needs no configuration.
use vstd::prelude::*;
use crate::clock::{RtcClock, RtcSel};
use crate::typelevel::Sealed;

verus! {

/// The ultra low power oscillator.
pub struct OscUlp32k {
    __: (),
}

impl OscUlp32k {
    /// The oscillator. There is one.
    pub(crate) fn new() -> Self {
        OscUlp32k { __: () }
    }
}

impl Sealed for OscUlp32k {

}

impl RtcClock for OscUlp32k {
    open spec fn sel_1k(&self) -> RtcSel {
        RtcSel::ULP1K
    }

    open spec fn sel_32k(&self) -> RtcSel {
        RtcSel::ULP32K
    }

    open spec fn after_1k(&self) -> Self {
        *self
    }

    open spec fn after_32k(&self) -> Self {
        *self
    }

    fn enable_1k(&mut self) -> (sel: RtcSel) {
        RtcSel::ULP1K
    }

    fn enable_32k(&mut self) -> (sel: RtcSel) {
        RtcSel::ULP32K
    }
}

} // verus!
