//! The peripherals, as handles.
//!
//! A handle stands for the right to use one peripheral. The clock tree takes
//! the handles of the peripherals that it governs and gives out tokens in
//! their place.
use vstd::prelude::*;

pub mod generic;
pub mod gmac;
pub mod sdhc0;
pub mod tc0;

verus! {

/// The oscillators controller.
pub struct OSCCTRL {
    _marker: (),
}

/// The 32 kHz oscillators controller.
pub struct OSC32KCTRL {
    _marker: (),
}

/// The generic clock controller.
pub struct GCLK {
    _marker: (),
}

/// The main clock controller.
pub struct MCLK {
    _marker: (),
}

/// The non-volatile memory controller.
pub struct NVMCTRL {
    _marker: (),
}

impl OSCCTRL {
    /// The handle of the peripheral. The caller makes it once: nothing
    /// here stops a second call, and with two handles there are two sets of
    /// tokens for the same registers.
    pub fn take() -> Self {
        OSCCTRL { _marker: () }
    }
}

impl OSC32KCTRL {
    /// The handle of the peripheral. The caller makes it once: nothing
    /// here stops a second call, and with two handles there are two sets of
    /// tokens for the same registers.
    pub fn take() -> Self {
        OSC32KCTRL { _marker: () }
    }
}

impl GCLK {
    /// The handle of the peripheral. The caller makes it once: nothing
    /// here stops a second call, and with two handles there are two sets of
    /// tokens for the same registers.
    pub fn take() -> Self {
        GCLK { _marker: () }
    }
}

impl MCLK {
    /// The handle of the peripheral. The caller makes it once: nothing
    /// here stops a second call, and with two handles there are two sets of
    /// tokens for the same registers.
    pub fn take() -> Self {
        MCLK { _marker: () }
    }
}

impl NVMCTRL {
    /// The handle of the peripheral. The caller makes it once: nothing
    /// here stops a second call, and with two handles there are two sets of
    /// tokens for the same registers.
    pub fn take() -> Self {
        NVMCTRL { _marker: () }
    }
}

} // verus!
