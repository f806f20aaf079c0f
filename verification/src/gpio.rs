//! The pins that the oscillators take.
//!
//! Only what the clock tree needs of a pin is here: its identity, and the
//! mode in which an oscillator holds it.
use core::marker::PhantomData;
use vstd::prelude::*;
use crate::bus::{Bus, Op};
use crate::typelevel::{NoneT, Sealed};

verus! {

/// One transaction with the port controller.
#[derive(Clone, Copy, Debug, PartialEq, Eq)]
pub enum GpioOp {
    /// Switch off the input buffer, the pull and the output driver of pin
    /// `num` of port group `group`.
    FloatingDisabled { group: u8, num: u8 },
}

/// The identity of one pin, as a type.
pub trait PinId: Sealed {
    /// The port group: 0 for A, 1 for B.
    const GROUP: u8;

    /// The pin's number in its group.
    const NUM: u8;
}

/// Pin 8 of group A.
pub struct PA08;

impl Sealed for PA08 {

}

impl PinId for PA08 {
    const GROUP: u8 = 0;

    const NUM: u8 = 8;
}

/// Pin 14 of group A.
pub struct PA14;

impl Sealed for PA14 {

}

impl PinId for PA14 {
    const GROUP: u8 = 0;

    const NUM: u8 = 14;
}

/// Pin 15 of group A.
pub struct PA15;

impl Sealed for PA15 {

}

impl PinId for PA15 {
    const GROUP: u8 = 0;

    const NUM: u8 = 15;
}

/// Pin 22 of group B.
pub struct PB22;

impl Sealed for PB22 {

}

impl PinId for PB22 {
    const GROUP: u8 = 1;

    const NUM: u8 = 22;
}

/// Pin 23 of group B.
pub struct PB23;

impl Sealed for PB23 {

}

impl PinId for PB23 {
    const GROUP: u8 = 1;

    const NUM: u8 = 23;
}

/// A mode of a pin.
pub trait PinMode: Sealed {

}

/// The mode of a pin after reset.
pub struct Reset;

impl Sealed for Reset {

}

impl PinMode for Reset {

}

/// The mode of a pin that an analog function uses: no input buffer, no pull,
/// no output driver.
pub struct FloatingDisabled;

impl Sealed for FloatingDisabled {

}

impl PinMode for FloatingDisabled {

}

/// Pin `I` in mode `M`.
pub struct Pin<I: PinId, M: PinMode> {
    id: PhantomData<I>,
    mode: PhantomData<M>,
}

impl<I: PinId, M: PinMode> Sealed for Pin<I, M> {

}

impl<I: PinId> Pin<I, Reset> {
    /// Pin `I` as it is after reset. The caller makes each pin once:
    /// nothing here stops a second call.
    pub fn new() -> Self {
        Pin { id: PhantomData, mode: PhantomData }
    }
}

impl<I: PinId, M: PinMode> Pin<I, M> {
    /// The same pin in the mode that an analog function needs.
    pub closed spec fn floating_disabled(self) -> Pin<I, FloatingDisabled> {
        Pin { id: self.id, mode: PhantomData }
    }

    /// Puts the pin into the mode that an analog function needs.
    pub fn into_floating_disabled(self, bus: &mut Bus) -> (r: Pin<I, FloatingDisabled>)
        ensures
            r == self.floating_disabled(),
            final(bus)@ == old(bus)@.push(
                Op::Gpio(GpioOp::FloatingDisabled { group: I::GROUP, num: I::NUM }),
            ),
    {
        bus.push(Op::Gpio(GpioOp::FloatingDisabled { group: I::GROUP, num: I::NUM }));
        Pin { id: self.id, mode: PhantomData }
    }
}

/// A pin, or [`NoneT`] where there is none.
pub trait OptionalPin: Sealed {

}

impl OptionalPin for NoneT {

}

impl<I: PinId, M: PinMode> OptionalPin for Pin<I, M> {

}

/// Where the pins are: their port group and their number in it.
pub proof fn lemma_pin_constants()
    ensures
        PA08::GROUP == 0 && PA08::NUM == 8,
        PA14::GROUP == 0 && PA14::NUM == 14,
        PA15::GROUP == 0 && PA15::NUM == 15,
        PB22::GROUP == 1 && PB22::NUM == 22,
        PB23::GROUP == 1 && PB23::NUM == 23,
{
}

} // verus!
