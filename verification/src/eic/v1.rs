//! The controller as a whole, without its lines.
use vstd::prelude::*;
use crate::bus::{Bus, Op};
use crate::clock::pclk::{Eic, Pclk, PclkSourceType};
use crate::eic::{DebouncerSettings, EicOp, CKSEL_A, PRESCALER_A, STATES_A, TICKON_A};
use crate::pac::MCLK;

verus! {

/// The handle of the controller.
pub struct EicPeripheral {
    _marker: (),
}

impl EicPeripheral {
    /// The handle of the peripheral. The caller makes it once: nothing
    /// here stops a second call, and with two handles there are two
    /// controllers for the same registers.
    pub fn take() -> Self {
        EicPeripheral { _marker: () }
    }
}

/// The handle of the power manager, which gates the bus clocks of the
/// smaller devices.
pub struct PM {
    _marker: (),
}

impl PM {
    /// The handle of the peripheral. The caller makes it once: nothing
    /// here stops a second call, and with two handles there are two
    /// controllers for the same registers.
    pub fn take() -> Self {
        PM { _marker: () }
    }
}

/// An External Interrupt Controller which is being configured.
pub struct ConfigurableEIC {
    eic: EicPeripheral,
}

/// The word in which the bits of the lines `pins` are set.
pub open spec fn debounce_mask(pins: Seq<u8>) -> u32
    decreases pins.len(),
{
    if pins.len() == 0 {
        0
    } else {
        debounce_mask(pins.drop_last()) | (1u32 << (pins.last() as u32))
    }
}

/// The settings that suit a push button: the low frequency clock, divided
/// by sixteen, and seven equal samples for either edge.
pub open spec fn button_settings() -> DebouncerSettings {
    DebouncerSettings {
        tickon: TICKON_A::CLK_LFREQ,
        prescaler0: PRESCALER_A::DIV16,
        states0: STATES_A::LFREQ7,
        prescaler1: PRESCALER_A::DIV16,
        states1: STATES_A::LFREQ7,
    }
}

/// The transactions that reset the controller.
pub open spec fn reset_ops() -> Seq<Op> {
    seq![Op::Eic(EicOp::BusClockOn), Op::Eic(EicOp::SwRst), Op::Eic(EicOp::WaitSwRst)]
}

/// The transactions that enable the controller.
pub open spec fn enable_ops() -> Seq<Op> {
    seq![Op::Eic(EicOp::Enable { flag: true }), Op::Eic(EicOp::WaitEnable)]
}

impl ConfigurableEIC {
    fn new(eic: EicPeripheral) -> Self {
        Self { eic }
    }

    /// finalize enables the EIC.
    pub fn finalize(self, bus: &mut Bus) -> (r: EIC)
        ensures
            final(bus)@ == old(bus)@ + enable_ops(),
    {
        bus.push(Op::Eic(EicOp::Enable { flag: true }));
        bus.push(Op::Eic(EicOp::WaitEnable));
        assert(bus@ =~= old(bus)@ + enable_ops());
        EIC { _eic: self.eic }
    }

    /// button_debounce_pins enables debouncing for the specified lines,
    /// with a configuration appropriate for debouncing physical buttons.
    pub fn button_debounce_pins(&mut self, debounce_pins: &[u8], bus: &mut Bus)
        requires
            forall|i: int| 0 <= i < debounce_pins@.len() ==> debounce_pins@[i] < 32,
        ensures
            final(bus)@ == old(bus)@.push(Op::Eic(EicOp::DPrescaler(button_settings()))).push(
                Op::Eic(EicOp::DebounceEn(debounce_mask(debounce_pins@))),
            ),
    {
        bus.push(
            Op::Eic(
                EicOp::DPrescaler(
                    DebouncerSettings {
                        tickon: TICKON_A::CLK_LFREQ,
                        prescaler0: PRESCALER_A::DIV16,
                        states0: STATES_A::LFREQ7,
                        prescaler1: PRESCALER_A::DIV16,
                        states1: STATES_A::LFREQ7,
                    },
                ),
            ),
        );
        let mut debounceen: u32 = 0;
        let mut i: usize = 0;
        while i < debounce_pins.len()
            invariant
                i <= debounce_pins@.len(),
                forall|i: int| 0 <= i < debounce_pins@.len() ==> debounce_pins@[i] < 32,
                debounceen == debounce_mask(debounce_pins@.take(i as int)),
            decreases debounce_pins@.len() - i,
        {
            let pin = debounce_pins[i];
            debounceen |= 1u32 << (pin as u32);
            proof {
                let taken = debounce_pins@.take(i + 1);
                assert(taken.drop_last() =~= debounce_pins@.take(i as int));
                assert(taken.last() == pin);
            }
            i += 1;
        }
        assert(debounce_pins@.take(i as int) =~= debounce_pins@);
        bus.push(Op::Eic(EicOp::DebounceEn(debounceen)));
    }
}

/// init_with_gclk initializes the EIC and wires it up to the EIC
/// peripheral channel. finalize() must be called before the EIC is ready
/// for use.
pub fn init_with_gclk<T: PclkSourceType>(
    pm: &mut PM,
    _clock: &Pclk<Eic, T>,
    eic: EicPeripheral,
    bus: &mut Bus,
) -> (r: ConfigurableEIC)
    ensures
        final(bus)@ == old(bus)@ + reset_ops(),
{
    bus.push(Op::Eic(EicOp::BusClockOn));
    bus.push(Op::Eic(EicOp::SwRst));
    bus.push(Op::Eic(EicOp::WaitSwRst));
    assert(bus@ =~= old(bus)@ + reset_ops());
    ConfigurableEIC::new(eic)
}

/// init_with_ulp32k initializes the EIC and wires it up to the
/// ultra-low-power 32kHz clock source. finalize() must be called before the
/// EIC is ready for use.
pub fn init_with_ulp32k<T: PclkSourceType>(
    mclk: &mut MCLK,
    _clock: &Pclk<Eic, T>,
    eic: EicPeripheral,
    bus: &mut Bus,
) -> (r: ConfigurableEIC)
    ensures
        final(bus)@ == old(bus)@ + reset_ops().push(
            Op::Eic(EicOp::ClockSelect(CKSEL_A::CLK_ULP32K)),
        ),
{
    bus.push(Op::Eic(EicOp::BusClockOn));
    bus.push(Op::Eic(EicOp::SwRst));
    bus.push(Op::Eic(EicOp::WaitSwRst));
    bus.push(Op::Eic(EicOp::ClockSelect(CKSEL_A::CLK_ULP32K)));
    assert(bus@ =~= old(bus)@ + reset_ops().push(Op::Eic(EicOp::ClockSelect(CKSEL_A::CLK_ULP32K))));
    ConfigurableEIC::new(eic)
}

/// A configured External Interrupt Controller.
pub struct EIC {
    _eic: EicPeripheral,
}

} // verus!
