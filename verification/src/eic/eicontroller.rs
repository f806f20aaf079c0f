//! The registers that the lines share.
//!
//! The controller owns the registers in which every line has a bit or a
//! field. While it is [`Configurable`] they can be written; once it is
//! [`Protected`] the controller is active and they are locked. It counts the
//! lines that were made from it, and can only be destroyed when none is
//! left.
use core::marker::PhantomData;
use vstd::prelude::*;
use crate::bus::{Bus, Op};
use crate::clock::pclk::{Eic, Pclk, PclkSourceType};
use crate::clock::sources::osculp32k::OscUlp32k;
use crate::eic::v1::EicPeripheral;
use crate::eic::extint::{ExtInt, NmiExtInt};
use crate::eic::{
    set_field, AsyncOnly, DebouncerSettings, EIConfigReg, EINum, EicOp, GetEINum, NmiEI, NmiToken,
    Normal, Sense, SenseNone, Token, Tokens, CKSEL_A,
};
use crate::gpio::{Pin, PinMode};
use crate::typelevel::counted::Counted;
use crate::typelevel::{Count, Decrement, Increment, Sealed, Zero};

verus! {

//==============================================================================
// Clock
//==============================================================================
/// What can clock the controller, as a type.
pub trait EIClkSrcMarker {
    /// The value of the clock selection bit.
    const CKSEL: CKSEL_A;
}

impl<T: PclkSourceType> EIClkSrcMarker for Pclk<Eic, T> {
    const CKSEL: CKSEL_A = CKSEL_A::CLK_GCLK;
}

impl EIClkSrcMarker for OscUlp32k {
    const CKSEL: CKSEL_A = CKSEL_A::CLK_ULP32K;
}

/// A clock source of the controller.
pub trait EIClkSrc: Sealed {
    /// The kind of the source.
    type Type: EIClkSrcMarker;
}

impl<T: PclkSourceType> EIClkSrc for Pclk<Eic, T> {
    type Type = Pclk<Eic, T>;
}

impl EIClkSrc for OscUlp32k {
    type Type = OscUlp32k;
}

/// Whether the controller has a clock.
pub trait Clock: Sealed {

}

/// Without a clock the lines detect asynchronously only.
pub struct WithoutClock {

}

impl Sealed for WithoutClock {

}

impl Clock for WithoutClock {

}

/// With a clock the controller can filter, debounce and detect edges
/// synchronously.
pub struct WithClock<CS> {
    _clksrc: CS,
}

impl<C: ClkSrc> Sealed for WithClock<C> {

}

impl<C: ClkSrc> Clock for WithClock<C> {

}

/// The clock of a controller.
pub struct ClockMode<C: Clock> {
    _mode: C,
}

/// What drives the clock of a controller.
pub trait ClkSrc: Sealed {

}

/// The controller's peripheral channel drives it.
pub struct PclkDriven<T: PclkSourceType> {
    _reference_clk: Pclk<Eic, T>,
}

impl<T: PclkSourceType> ClkSrc for PclkDriven<T> {

}

impl<T: PclkSourceType> Sealed for PclkDriven<T> {

}

/// The ultra low power oscillator drives the controller.
pub struct OscUlp32kDriven {

}

impl ClkSrc for OscUlp32kDriven {

}

impl Sealed for OscUlp32kDriven {

}

/// Type class for all possible [`Clock`] types.
pub trait AnyClock: Sealed {
    /// The clock itself.
    type Mode: Clock;
}

impl AnyClock for WithoutClock {
    type Mode = WithoutClock;
}

impl<CS> AnyClock for WithClock<CS> where CS: ClkSrc {
    type Mode = WithClock<CS>;
}

//==============================================================================
// Enable protection
//==============================================================================
/// The controller is enabled: it is active, and the shared registers are
/// locked.
pub enum Protected {
    /// The type is a marker; its value is never looked at.
    Marker,
}

/// The controller is disabled: the shared registers can be written.
pub enum Configurable {
    /// The type is a marker; its value is never looked at.
    Marker,
}

impl Sealed for Protected {

}

impl Sealed for Configurable {

}

/// Whether the controller is enabled, as a type.
pub trait EnableProtection: Sealed {

}

impl EnableProtection for Protected {

}

impl EnableProtection for Configurable {

}

//==============================================================================
// EIController
//==============================================================================
/// The controller, with the clock `AK` and in the state `EP`.
pub struct EIController<AK, EP> where AK: AnyClock, EP: EnableProtection {
    eic: EicPeripheral,
    clockmode: ClockMode<AK::Mode>,
    _enablestate: PhantomData<EP>,
}

impl<AK, EP> EIController<AK, EP> where AK: AnyClock, EP: EnableProtection {
    /// The handle of the peripheral, which the controller holds.
    pub closed spec fn peripheral(self) -> EicPeripheral {
        self.eic
    }

    /// The clock of the controller.
    pub closed spec fn clock_mode(self) -> ClockMode<AK::Mode> {
        self.clockmode
    }
}

/// The transactions that reset the controller.
pub open spec fn swrst_ops() -> Seq<Op> {
    seq![Op::Eic(EicOp::SwRst), Op::Eic(EicOp::WaitSwRst)]
}

/// The transactions that switch the controller on or off.
pub open spec fn enable_ops(flag: bool) -> Seq<Op> {
    seq![Op::Eic(EicOp::Enable { flag }), Op::Eic(EicOp::WaitEnable)]
}

/// The word `val` with the bit of a line set or cleared.
pub open spec fn with_line(val: u32, mask: u16, set: bool) -> u32 {
    if set {
        val | (mask as u32)
    } else {
        val & !(mask as u32)
    }
}

impl EIController<WithClock<OscUlp32kDriven>, Configurable> {
    /// Makes the controller with the ultra low power oscillator as its
    /// clock, which gains a consumer. The controller is reset first.
    pub fn from_osculp<N: Increment>(eic: EicPeripheral, clock: Counted<OscUlp32k, N>, bus: &mut Bus)
        -> (r: (
        Counted<EIController<WithClock<OscUlp32kDriven>, Configurable>, Zero>,
        Tokens,
        Counted<OscUlp32k, N::Inc>,
    ))
        ensures
            r.0.inner().peripheral() == eic,
            r.2.inner() == clock.inner(),
            r.2.count() == clock.count() + 1,
            final(bus)@ == old(bus)@ + swrst_ops().push(
                Op::Eic(EicOp::ClockSelect(CKSEL_A::CLK_ULP32K)),
            ),
    {
        bus.push(Op::Eic(EicOp::SwRst));
        bus.push(Op::Eic(EicOp::WaitSwRst));
        bus.push(Op::Eic(EicOp::ClockSelect(<OscUlp32k as EIClkSrcMarker>::CKSEL)));
        assert(bus@ =~= old(bus)@ + swrst_ops().push(
            Op::Eic(EicOp::ClockSelect(CKSEL_A::CLK_ULP32K)),
        ));
        (
            Counted::new(
                EIController {
                    eic,
                    clockmode: ClockMode { _mode: WithClock { _clksrc: OscUlp32kDriven {  } } },
                    _enablestate: PhantomData,
                },
            ),
            Tokens::new(),
            clock.inc(),
        )
    }
}

impl<T> EIController<WithClock<PclkDriven<T>>, Configurable> where T: PclkSourceType {
    /// Makes the controller with its peripheral channel as its clock. The
    /// controller is reset first, and keeps the channel until it is
    /// destroyed.
    pub fn from_pclk(eic: EicPeripheral, clock: Pclk<Eic, T>, bus: &mut Bus) -> (r: (
        Counted<EIController<WithClock<PclkDriven<T>>, Configurable>, Zero>,
        Tokens,
    ))
        ensures
            r.0.inner().peripheral() == eic,
            r.0.inner().reference() == clock,
            final(bus)@ == old(bus)@ + swrst_ops().push(
                Op::Eic(EicOp::ClockSelect(CKSEL_A::CLK_GCLK)),
            ),
    {
        bus.push(Op::Eic(EicOp::SwRst));
        bus.push(Op::Eic(EicOp::WaitSwRst));
        bus.push(Op::Eic(EicOp::ClockSelect(CKSEL_A::CLK_GCLK)));
        assert(bus@ =~= old(bus)@ + swrst_ops().push(
            Op::Eic(EicOp::ClockSelect(CKSEL_A::CLK_GCLK)),
        ));
        (
            Counted::new(
                EIController {
                    eic,
                    clockmode: ClockMode {
                        _mode: WithClock { _clksrc: PclkDriven { _reference_clk: clock } },
                    },
                    _enablestate: PhantomData,
                },
            ),
            Tokens::new(),
        )
    }

    /// The channel that clocks the controller.
    pub closed spec fn reference(self) -> Pclk<Eic, T> {
        self.clockmode._mode._clksrc._reference_clk
    }
}

impl EIController<WithoutClock, Configurable> {
    /// Makes the controller without a clock. The controller is reset
    /// first, and every line is set to asynchronous detection.
    pub fn new_only_async(eic: EicPeripheral, bus: &mut Bus) -> (r: (
        Counted<EIController<WithoutClock, Configurable>, Zero>,
        Tokens,
    ))
        ensures
            r.0.inner().peripheral() == eic,
            final(bus)@ == old(bus)@ + swrst_ops().push(Op::Eic(EicOp::Asynch(0xFFFF))),
    {
        bus.push(Op::Eic(EicOp::SwRst));
        bus.push(Op::Eic(EicOp::WaitSwRst));
        bus.push(Op::Eic(EicOp::Asynch(0xFFFF)));
        assert(bus@ =~= old(bus)@ + swrst_ops().push(Op::Eic(EicOp::Asynch(0xFFFF))));
        (
            Counted::new(
                EIController {
                    eic,
                    clockmode: ClockMode { _mode: WithoutClock {  } },
                    _enablestate: PhantomData,
                },
            ),
            Tokens::new(),
        )
    }
}

impl<AK> Counted<EIController<AK, Configurable>, Zero> where AK: AnyClock {
    /// Resets the controller: all its registers are cleared, and it is left
    /// disabled.
    pub fn swrst(self, bus: &mut Bus) -> (r: Self)
        ensures
            r.inner() == self.inner(),
            final(bus)@ == old(bus)@ + swrst_ops(),
    {
        bus.push(Op::Eic(EicOp::SwRst));
        bus.push(Op::Eic(EicOp::WaitSwRst));
        assert(bus@ =~= old(bus)@ + swrst_ops());
        self
    }
}

impl<AK, N> Counted<EIController<AK, Configurable>, N> where AK: AnyClock, N: Count {
    /// Changes the sense of line `E`. `config` is what the configuration
    /// register of the line holds; the register is written back with only
    /// the sense field of the line replaced.
    pub fn set_sense_mode<E: EINum>(&self, sense: Sense, config: EIConfigReg, bus: &mut Bus) -> (r:
        EIConfigReg)
        ensures
            r.0 == set_field(
                config.0,
                E::SENSEMSB as usize,
                E::SENSELSB as usize,
                sense.bits_spec(),
            ),
            final(bus)@ == old(bus)@.push(
                Op::Eic(EicOp::Config { index: E::OFFSET as usize, value: r.0 }),
            ),
    {
        proof {
            E::layout();
        }
        let index: usize = E::OFFSET as usize;
        let msb: usize = E::SENSEMSB as usize;
        let lsb: usize = E::SENSELSB as usize;
        let mut config_reg = config;
        config_reg.set_bit_range(msb, lsb, sense.bits());
        bus.push(Op::Eic(EicOp::Config { index, value: config_reg.0 }));
        config_reg
    }

    /// Changes the sense of the non-maskable line.
    pub fn set_sense_mode_nmi(&self, sense: Sense, bus: &mut Bus)
        ensures
            final(bus)@ == old(bus)@.push(Op::Eic(EicOp::NmiSense(sense.bits_spec()))),
    {
        bus.push(Op::Eic(EicOp::NmiSense(sense.bits())));
    }

    /// Switches the event output of line `E` on or off. `val` is what the
    /// event control register holds.
    pub fn set_event_output<E: EINum>(&self, set_event_output: bool, val: u32, bus: &mut Bus)
        ensures
            final(bus)@ == old(bus)@.push(
                Op::Eic(EicOp::EventControl(with_line(val, E::MASK, set_event_output))),
            ),
    {
        let data = match set_event_output {
            true => val | E::MASK as u32,
            false => val & !(E::MASK as u32),
        };
        bus.push(Op::Eic(EicOp::EventControl(data)));
    }

    /// Ends the configuration and activates the controller.
    pub fn finalize(self, bus: &mut Bus) -> (r: Counted<EIController<AK, Protected>, N>)
        ensures
            r.inner().peripheral() == self.inner().peripheral(),
            r.inner().clock_mode() == self.inner().clock_mode(),
            final(bus)@ == old(bus)@ + enable_ops(true),
    {
        bus.push(Op::Eic(EicOp::Enable { flag: true }));
        bus.push(Op::Eic(EicOp::WaitEnable));
        assert(bus@ =~= old(bus)@ + enable_ops(true));
        let this = self.into_inner();
        Counted::with_count(
            EIController { eic: this.eic, clockmode: this.clockmode, _enablestate: PhantomData },
        )
    }
}

impl<AK, N> Counted<EIController<AK, Protected>, N> where AK: AnyClock, N: Count {
    /// Disables the controller, so that it can be configured again.
    pub fn disable(self, bus: &mut Bus) -> (r: Counted<EIController<AK, Configurable>, N>)
        ensures
            r.inner().peripheral() == self.inner().peripheral(),
            r.inner().clock_mode() == self.inner().clock_mode(),
            final(bus)@ == old(bus)@ + enable_ops(false),
    {
        bus.push(Op::Eic(EicOp::Enable { flag: false }));
        bus.push(Op::Eic(EicOp::WaitEnable));
        assert(bus@ =~= old(bus)@ + enable_ops(false));
        let this = self.into_inner();
        Counted::with_count(
            EIController { eic: this.eic, clockmode: this.clockmode, _enablestate: PhantomData },
        )
    }
}

impl Counted<EIController<WithClock<OscUlp32kDriven>, Configurable>, Zero> {
    /// Destroys the controller: takes the tokens of all lines back and
    /// releases the oscillator.
    pub fn destroy<N: Decrement>(self, _tokens: Tokens, clock: Counted<OscUlp32k, N>) -> (r: (
        EicPeripheral,
        Counted<OscUlp32k, N::Dec>,
    ))
        ensures
            r.0 == self.inner().peripheral(),
            r.1.inner() == clock.inner(),
            r.1.count() + 1 == clock.count(),
    {
        (self.into_inner().eic, clock.dec())
    }
}

impl<T> Counted<EIController<WithClock<PclkDriven<T>>, Configurable>, Zero> where
    T: PclkSourceType,
 {
    /// Destroys the controller: takes the tokens of all lines back and
    /// gives the channel back.
    pub fn destroy(self, _tokens: Tokens) -> (r: (EicPeripheral, Pclk<Eic, T>))
        ensures
            r.0 == self.inner().peripheral(),
            r.1 == self.inner().reference(),
    {
        let this = self.into_inner();
        (this.eic, this.clockmode._mode._clksrc._reference_clk)
    }
}

impl Counted<EIController<WithoutClock, Configurable>, Zero> {
    /// Destroys the controller: takes the tokens of all lines back.
    pub fn destroy(self, _tokens: Tokens) -> (r: EicPeripheral)
        ensures
            r == self.inner().peripheral(),
    {
        self.into_inner().eic
    }
}

impl<CS, N> Counted<EIController<WithClock<CS>, Configurable>, N> where CS: ClkSrc, N: Increment {
    /// Makes a line that detects on the clock of the controller, which
    /// counts it.
    pub fn new_sync<I, M>(self, token: Token<I::EINum>, pin: Pin<I, M>) -> (r: (
        Counted<EIController<WithClock<CS>, Configurable>, N::Inc>,
        ExtInt<I, M, Normal, WithClock<CS>, SenseNone>,
    )) where I: GetEINum, M: PinMode
        ensures
            r.0.inner() == self.inner(),
            r.0.count() == self.count() + 1,
            r.1.token() == token,
            r.1.pin() == pin,
    {
        (self.inc(), ExtInt::new_sync(token, pin))
    }

    /// Makes the non-maskable line, detecting on the clock of the
    /// controller, which counts it.
    pub fn new_sync_nmi<I, M>(self, token: NmiToken, pin: Pin<I, M>) -> (r: (
        Counted<EIController<WithClock<CS>, Configurable>, N::Inc>,
        NmiExtInt<I, M, Normal, WithClock<CS>, SenseNone>,
    )) where I: NmiEI, M: PinMode
        ensures
            r.0.inner() == self.inner(),
            r.0.count() == self.count() + 1,
            r.1.token() == token,
            r.1.pin() == pin,
    {
        (self.inc(), NmiExtInt::new_sync(token, pin))
    }
}

impl<K, N> Counted<EIController<K, Configurable>, N> where K: AnyClock, N: Increment {
    /// Makes a line that detects without a clock; the controller counts it.
    /// `val` is what the asynchronous mode register holds.
    pub fn new_async_only<I, M>(
        self,
        token: Token<I::EINum>,
        pin: Pin<I, M>,
        val: u32,
        bus: &mut Bus,
    ) -> (r: (
        Counted<EIController<K, Configurable>, N::Inc>,
        ExtInt<I, M, AsyncOnly, WithoutClock, SenseNone>,
    )) where I: GetEINum, M: PinMode
        ensures
            r.0.inner() == self.inner(),
            r.0.count() == self.count() + 1,
            r.1.token() == token,
            r.1.pin() == pin,
            final(bus)@ == old(bus)@.push(
                Op::Eic(EicOp::Asynch(with_line(val, <I::EINum as EINum>::MASK, true))),
            ),
    {
        (self.inc(), ExtInt::new_async(token, pin, val, bus))
    }

    /// Makes the non-maskable line, detecting without a clock; the
    /// controller counts it.
    pub fn new_async_only_nmi<I, M>(self, token: NmiToken, pin: Pin<I, M>, bus: &mut Bus) -> (r: (
        Counted<EIController<K, Configurable>, N::Inc>,
        NmiExtInt<I, M, AsyncOnly, WithoutClock, SenseNone>,
    )) where I: NmiEI, M: PinMode
        ensures
            r.0.inner() == self.inner(),
            r.0.count() == self.count() + 1,
            r.1.token() == token,
            r.1.pin() == pin,
            final(bus)@ == old(bus)@.push(Op::Eic(EicOp::NmiAsync { flag: true })),
    {
        (self.inc(), NmiExtInt::new_async(token, pin, bus))
    }
}

impl<AK, N> Counted<EIController<AK, Configurable>, N> where AK: AnyClock, N: Decrement {
    /// Takes a line apart: gives its token and its pin back; the controller
    /// counts one line fewer.
    pub fn disable_ext_int<I, M, AM, AS, AK2>(self, ext_int: ExtInt<I, M, AM, AK2, AS>) -> (r: (
        Counted<EIController<AK, Configurable>, N::Dec>,
        Token<I::EINum>,
        Pin<I, M>,
    )) where I: GetEINum, M: PinMode
        ensures
            r.0.inner() == self.inner(),
            r.0.count() + 1 == self.count(),
            r.1 == ext_int.token(),
            r.2 == ext_int.pin(),
    {
        let (token, pin) = ext_int.into_parts();
        (self.dec(), token, pin)
    }

    /// Takes the non-maskable line apart: gives its token and its pin back;
    /// the controller counts one line fewer.
    pub fn disable_ext_int_nmi<I, M, AM, AS, AK2>(
        self,
        ext_int_nmi: NmiExtInt<I, M, AM, AK2, AS>,
    ) -> (r: (Counted<EIController<AK, Configurable>, N::Dec>, NmiToken, Pin<I, M>)) where
        I: NmiEI,
        M: PinMode,

        ensures
            r.0.inner() == self.inner(),
            r.0.count() + 1 == self.count(),
            r.1 == ext_int_nmi.token(),
            r.2 == ext_int_nmi.pin(),
    {
        let (token, pin) = ext_int_nmi.into_parts();
        (self.dec(), token, pin)
    }
}

impl<CS, N> Counted<EIController<WithClock<CS>, Configurable>, N> where CS: ClkSrc, N: Count {
    /// Switches the debouncer of line `E` on. `bits` is what the debouncer
    /// enable field holds.
    pub fn enable_debouncing<E: EINum>(&self, bits: u16, bus: &mut Bus)
        ensures
            final(bus)@ == old(bus)@.push(Op::Eic(EicOp::DebounceEn((bits | E::MASK) as u32))),
    {
        bus.push(Op::Eic(EicOp::DebounceEn((bits | E::MASK) as u32)));
    }

    /// Switches the debouncer of line `E` off. `bits` is what the debouncer
    /// enable field holds.
    pub fn disable_debouncing<E: EINum>(&self, bits: u16, bus: &mut Bus)
        ensures
            final(bus)@ == old(bus)@.push(Op::Eic(EicOp::DebounceEn((bits & !(E::MASK)) as u32))),
    {
        bus.push(Op::Eic(EicOp::DebounceEn((bits & !(E::MASK)) as u32)));
    }

    /// Sets the debouncer, for all lines.
    pub fn set_debouncer_settings(&self, settings: &DebouncerSettings, bus: &mut Bus)
        ensures
            final(bus)@ == old(bus)@.push(Op::Eic(EicOp::DPrescaler(*settings))),
    {
        bus.push(Op::Eic(EicOp::DPrescaler(*settings)));
    }

    /// Switches the filter of line `E` on. `config` is what the
    /// configuration register of the line holds; the register is written
    /// back with only the filter bit of the line set.
    pub fn enable_filtering<E: EINum>(&self, config: EIConfigReg, bus: &mut Bus) -> (r:
        EIConfigReg)
        ensures
            r.0 == set_field(config.0, E::FILTEN as usize, E::FILTEN as usize, 1),
            final(bus)@ == old(bus)@.push(
                Op::Eic(EicOp::Config { index: E::OFFSET as usize, value: r.0 }),
            ),
    {
        proof {
            E::layout();
        }
        let index: usize = E::OFFSET as usize;
        let bitnum: usize = E::FILTEN as usize;
        let mut config_reg = config;
        config_reg.set_bit(bitnum, true);
        bus.push(Op::Eic(EicOp::Config { index, value: config_reg.0 }));
        config_reg
    }

    /// Switches the filter of line `E` off. `config` is what the
    /// configuration register of the line holds; the register is written
    /// back with only the filter bit of the line cleared.
    pub fn disable_filtering<E: EINum>(&self, config: EIConfigReg, bus: &mut Bus) -> (r:
        EIConfigReg)
        ensures
            r.0 == set_field(config.0, E::FILTEN as usize, E::FILTEN as usize, 0),
            final(bus)@ == old(bus)@.push(
                Op::Eic(EicOp::Config { index: E::OFFSET as usize, value: r.0 }),
            ),
    {
        proof {
            E::layout();
        }
        let index: usize = E::OFFSET as usize;
        let bitnum: usize = E::FILTEN as usize;
        let mut config_reg = config;
        config_reg.set_bit(bitnum, false);
        bus.push(Op::Eic(EicOp::Config { index, value: config_reg.0 }));
        config_reg
    }

    /// Switches the asynchronous detection of line `E` on. `val` is what
    /// the asynchronous mode register holds.
    pub fn enable_async<E: EINum>(&self, val: u32, bus: &mut Bus)
        ensures
            final(bus)@ == old(bus)@.push(Op::Eic(EicOp::Asynch(with_line(val, E::MASK, true)))),
    {
        bus.push(Op::Eic(EicOp::Asynch(val | (E::MASK as u32))));
    }

    /// Switches the asynchronous detection of line `E` off. `val` is what
    /// the asynchronous mode register holds.
    pub fn disable_async<E: EINum>(&self, val: u32, bus: &mut Bus)
        ensures
            final(bus)@ == old(bus)@.push(Op::Eic(EicOp::Asynch(with_line(val, E::MASK, false)))),
    {
        bus.push(Op::Eic(EicOp::Asynch(val & !(E::MASK as u32))));
    }
}

} // verus!
