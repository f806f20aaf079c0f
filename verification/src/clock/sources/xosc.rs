//! The external oscillators.
//!
//! An oscillator is driven either by a clock signal on one pin or by a
//! crystal between two pins. It owns its pins for as long as it is
//! configured and hands them back when it is freed.
use core::marker::PhantomData;
use vstd::prelude::*;
use crate::bus::{Bus, Op};
use crate::clock::gclk::{GclkSource, GclkSourceEnum, GclkSourceType, GenNum};
use crate::clock::sources::dpll::{DpllSource, DpllSourceType, DpllSrc};
use crate::gpio::{FloatingDisabled, OptionalPin, Pin, PinId, PinMode, PA14, PA15, PB22, PB23};
use crate::time::Hertz;
use crate::typelevel::counted::Counted;
use crate::typelevel::{NoneT, Sealed, Zero};

verus! {

//==============================================================================
// Transactions
//==============================================================================
/// How long an oscillator takes to start, in cycles of the 32 kHz clock.
#[derive(Clone, Copy, Debug, PartialEq, Eq)]
pub enum StartUp {
    CYCLE1,
    CYCLE2,
    CYCLE4,
    CYCLE8,
    CYCLE16,
    CYCLE32,
    CYCLE64,
    CYCLE128,
    CYCLE256,
    CYCLE512,
    CYCLE1024,
    CYCLE2048,
    CYCLE4096,
    CYCLE8192,
    CYCLE16384,
    CYCLE32768,
}

/// The prescaler of the clock failure detector.
#[derive(Clone, Copy, Debug, PartialEq, Eq)]
pub enum CfdPresc {
    DIV1,
    DIV2,
    DIV4,
    DIV8,
    DIV16,
    DIV32,
    DIV64,
    DIV128,
}

/// One transaction with oscillator `osc`.
#[derive(Clone, Copy, Debug, PartialEq, Eq)]
pub enum XoscOp {
    /// Write the start-up time.
    StartUp { osc: usize, start_up: StartUp },
    /// Write the on-demand flag.
    OnDemand { osc: usize, flag: bool },
    /// Write the run-in-standby flag.
    RunStandby { osc: usize, flag: bool },
    /// Write the crystal flag: a crystal drives the oscillator if it is set,
    /// a clock signal if not.
    Crystal { osc: usize, flag: bool },
    /// Write the enable bit.
    Enable { osc: usize, flag: bool },
    /// Write the prescaler of the clock failure detector.
    CfdPresc { osc: usize, prescale: CfdPresc },
    /// Write the current multiplier and the current reference, in one
    /// access.
    Current { osc: usize, imult: u8, iptat: u8 },
    /// Write the flag that lets the detector switch back to the oscillator.
    ClockSwitch { osc: usize, flag: bool },
    /// Write the low buffer gain flag.
    LowBufGain { osc: usize, flag: bool },
    /// Wait until a ready bit in `mask` is set in the status register.
    WaitReady { mask: u32 },
}

/// The ready bit of oscillator `num` in the status register.
pub open spec fn ready_mask(num: usize) -> u32 {
    1u32 << (num as u32)
}

//==============================================================================
// XOscNum
//==============================================================================
/// The identity of one oscillator, as a type.
pub trait XOscNum: Sealed {
    /// The oscillator's index.
    const NUM: usize;

    /// What a phase locked loop calls the oscillator.
    const DPLL_SRC: DpllSrc;

    /// The pin of the oscillator's input.
    type XIn: PinId;

    /// The pin of the oscillator's output.
    type XOut: PinId;

    /// There are two oscillators.
    proof fn bounds()
        ensures
            Self::NUM < 2,
    ;
}

/// Oscillator 0.
pub enum Osc0 {
    /// The type is a marker; its value is never looked at.
    Marker,
}

impl Sealed for Osc0 {

}

impl XOscNum for Osc0 {
    const NUM: usize = 0;

    const DPLL_SRC: DpllSrc = DpllSrc::XOSC0;

    type XIn = PA14;

    type XOut = PA15;

    proof fn bounds() {
    }
}

/// Oscillator 1.
pub enum Osc1 {
    /// The type is a marker; its value is never looked at.
    Marker,
}

impl Sealed for Osc1 {

}

impl XOscNum for Osc1 {
    const NUM: usize = 1;

    const DPLL_SRC: DpllSrc = DpllSrc::XOSC1;

    type XIn = PB22;

    type XOut = PB23;

    proof fn bounds() {
    }
}

/// The current multiplier and reference that suit a crystal's frequency.
#[derive(Debug, Clone, Copy, PartialEq, Eq)]
pub enum CrystalCurrent {
    /// 8 MHz.
    BaseFreq,
    /// 8 to 16 MHz.
    LowFreq,
    /// 16 to 24 MHz.
    MedFreq,
    /// 24 to 48 MHz.
    HighFreq,
}

impl CrystalCurrent {
    /// The current multiplier.
    pub open spec fn imult_spec(&self) -> u8 {
        match self {
            Self::BaseFreq => 3,
            Self::LowFreq => 4,
            Self::MedFreq => 5,
            Self::HighFreq => 6,
        }
    }

    /// The current reference.
    pub open spec fn iptat_spec(&self) -> u8 {
        match self {
            Self::BaseFreq => 2,
            Self::LowFreq => 3,
            Self::MedFreq => 3,
            Self::HighFreq => 3,
        }
    }

    /// The current multiplier.
    pub fn imult(&self) -> (r: u8)
        ensures
            r == self.imult_spec(),
    {
        match &self {
            Self::BaseFreq => 3,
            Self::LowFreq => 4,
            Self::MedFreq => 5,
            Self::HighFreq => 6,
        }
    }

    /// The current reference.
    pub fn iptat(&self) -> (r: u8)
        ensures
            r == self.iptat_spec(),
    {
        match &self {
            Self::BaseFreq => 2,
            Self::LowFreq => 3,
            Self::MedFreq => 3,
            Self::HighFreq => 3,
        }
    }
}

//==============================================================================
// Registers
//==============================================================================
/// The token of oscillator `X`.
pub type XOscToken<X> = Registers<X>;

/// The registers of oscillator `X`. There is one value of this type for each
/// oscillator.
pub struct Registers<X: XOscNum> {
    osc: PhantomData<X>,
}

impl<X: XOscNum> Registers<X> {
    /// The token of oscillator `X`. Each oscillator has one.
    pub(crate) fn new() -> Self {
        Self { osc: PhantomData }
    }

    fn set_start_up(&mut self, start_up: StartUp, bus: &mut Bus)
        ensures
            final(bus)@ == old(bus)@.push(Op::Xosc(XoscOp::StartUp { osc: X::NUM, start_up })),
    {
        bus.push(Op::Xosc(XoscOp::StartUp { osc: X::NUM, start_up }));
    }

    fn set_on_demand(&mut self, on_demand: bool, bus: &mut Bus)
        ensures
            final(bus)@ == old(bus)@.push(
                Op::Xosc(XoscOp::OnDemand { osc: X::NUM, flag: on_demand }),
            ),
    {
        bus.push(Op::Xosc(XoscOp::OnDemand { osc: X::NUM, flag: on_demand }));
    }

    fn set_run_standby(&mut self, run_standby: bool, bus: &mut Bus)
        ensures
            final(bus)@ == old(bus)@.push(
                Op::Xosc(XoscOp::RunStandby { osc: X::NUM, flag: run_standby }),
            ),
    {
        bus.push(Op::Xosc(XoscOp::RunStandby { osc: X::NUM, flag: run_standby }));
    }

    fn from_clock(&mut self, bus: &mut Bus)
        ensures
            final(bus)@ == old(bus)@.push(Op::Xosc(XoscOp::Crystal { osc: X::NUM, flag: false })),
    {
        bus.push(Op::Xosc(XoscOp::Crystal { osc: X::NUM, flag: false }));
    }

    fn from_crystal(&mut self, bus: &mut Bus)
        ensures
            final(bus)@ == old(bus)@.push(Op::Xosc(XoscOp::Crystal { osc: X::NUM, flag: true })),
    {
        bus.push(Op::Xosc(XoscOp::Crystal { osc: X::NUM, flag: true }));
    }

    fn enable(&mut self, bus: &mut Bus)
        ensures
            final(bus)@ == old(bus)@.push(Op::Xosc(XoscOp::Enable { osc: X::NUM, flag: true })),
    {
        bus.push(Op::Xosc(XoscOp::Enable { osc: X::NUM, flag: true }));
    }

    fn disable(&mut self, bus: &mut Bus)
        ensures
            final(bus)@ == old(bus)@.push(Op::Xosc(XoscOp::Enable { osc: X::NUM, flag: false })),
    {
        bus.push(Op::Xosc(XoscOp::Enable { osc: X::NUM, flag: false }));
    }

    /// Waits until the oscillator is stable.
    fn wait_ready(&self, bus: &mut Bus)
        ensures
            final(bus)@ == old(bus)@.push(Op::Xosc(XoscOp::WaitReady { mask: ready_mask(X::NUM) })),
    {
        proof {
            X::bounds();
        }
        let mask: u32 = 1u32 << (X::NUM as u32);
        bus.push(Op::Xosc(XoscOp::WaitReady { mask }));
    }

    fn set_clock_failure_detector_prescaler(&mut self, prescale: CfdPresc, bus: &mut Bus)
        ensures
            final(bus)@ == old(bus)@.push(Op::Xosc(XoscOp::CfdPresc { osc: X::NUM, prescale })),
    {
        bus.push(Op::Xosc(XoscOp::CfdPresc { osc: X::NUM, prescale }));
    }

    fn set_crystal_current(&mut self, cc: CrystalCurrent, bus: &mut Bus)
        ensures
            final(bus)@ == old(bus)@.push(
                Op::Xosc(
                    XoscOp::Current { osc: X::NUM, imult: cc.imult_spec(), iptat: cc.iptat_spec() },
                ),
            ),
    {
        bus.push(Op::Xosc(XoscOp::Current { osc: X::NUM, imult: cc.imult(), iptat: cc.iptat() }));
    }

    fn set_clock_switch(&mut self, swben: bool, bus: &mut Bus)
        ensures
            final(bus)@ == old(bus)@.push(
                Op::Xosc(XoscOp::ClockSwitch { osc: X::NUM, flag: swben }),
            ),
    {
        bus.push(Op::Xosc(XoscOp::ClockSwitch { osc: X::NUM, flag: swben }));
    }

    fn set_low_buf_gain(&mut self, lowbufgain: bool, bus: &mut Bus)
        ensures
            final(bus)@ == old(bus)@.push(
                Op::Xosc(XoscOp::LowBufGain { osc: X::NUM, flag: lowbufgain }),
            ),
    {
        bus.push(Op::Xosc(XoscOp::LowBufGain { osc: X::NUM, flag: lowbufgain }));
    }
}

//==============================================================================
// Aliases
//==============================================================================
/// The input pin of oscillator `X`, as the oscillator holds it.
pub type XIn<X> = Pin<<X as XOscNum>::XIn, FloatingDisabled>;

/// The output pin of oscillator `X`, as the oscillator holds it.
pub type XOut<X> = Pin<<X as XOscNum>::XOut, FloatingDisabled>;

//==============================================================================
// XOscConfig
//==============================================================================
/// An oscillator with its pins, not yet running. `P` is the output pin of an
/// oscillator that a crystal drives, and [`NoneT`] for one that a clock
/// signal drives.
pub struct XOscConfig<X, P = NoneT> where X: XOscNum, P: OptionalPin {
    token: XOscToken<X>,
    xin: XIn<X>,
    xout: P,
    freq: Hertz,
}

impl<X: XOscNum> XOscConfig<X> {
    /// An oscillator that the clock signal of frequency `freq` on the pin
    /// `xin` drives.
    pub fn from_clock<M: PinMode>(
        token: XOscToken<X>,
        xin: Pin<X::XIn, M>,
        freq: Hertz,
        bus: &mut Bus,
    ) -> (r: Self)
        ensures
            r.token() == token,
            r.xin() == xin.floating_disabled(),
            r.xout() == NoneT,
            r.freq_spec() == freq,
            final(bus)@ == old(bus)@.push(
                Op::Gpio(
                    crate::gpio::GpioOp::FloatingDisabled {
                        group: <X::XIn as PinId>::GROUP,
                        num: <X::XIn as PinId>::NUM,
                    },
                ),
            ).push(Op::Xosc(XoscOp::Crystal { osc: X::NUM, flag: false })),
    {
        let mut token = token;
        let xin = xin.into_floating_disabled(bus);
        token.from_clock(bus);
        Self { token, xin, xout: NoneT, freq }
    }

    /// Gives the token and the pin back.
    pub fn free(self) -> (r: (XOscToken<X>, XIn<X>))
        ensures
            r.0 == self.token(),
            r.1 == self.xin(),
    {
        (self.token, self.xin)
    }
}

impl<X: XOscNum> XOscConfig<X, XOut<X>> {
    /// An oscillator that a crystal of frequency `freq` between the pins
    /// `xin` and `xout` drives.
    pub fn from_crystal<M: PinMode, MO: PinMode>(
        token: XOscToken<X>,
        xin: Pin<X::XIn, M>,
        xout: Pin<X::XOut, MO>,
        freq: Hertz,
        bus: &mut Bus,
    ) -> (r: Self)
        ensures
            r.token() == token,
            r.xin() == xin.floating_disabled(),
            r.xout() == xout.floating_disabled(),
            r.freq_spec() == freq,
            final(bus)@ == old(bus)@.push(
                Op::Gpio(
                    crate::gpio::GpioOp::FloatingDisabled {
                        group: <X::XIn as PinId>::GROUP,
                        num: <X::XIn as PinId>::NUM,
                    },
                ),
            ).push(
                Op::Gpio(
                    crate::gpio::GpioOp::FloatingDisabled {
                        group: <X::XOut as PinId>::GROUP,
                        num: <X::XOut as PinId>::NUM,
                    },
                ),
            ).push(Op::Xosc(XoscOp::Crystal { osc: X::NUM, flag: true })),
    {
        let mut token = token;
        let xin = xin.into_floating_disabled(bus);
        let xout = xout.into_floating_disabled(bus);
        token.from_crystal(bus);
        Self { token, xin, xout, freq }
    }

    /// Gives the token and the pins back.
    pub fn free(self) -> (r: (XOscToken<X>, XIn<X>, XOut<X>))
        ensures
            r.0 == self.token(),
            r.1 == self.xin(),
            r.2 == self.xout(),
    {
        (self.token, self.xin, self.xout)
    }
}

impl<X, P> XOscConfig<X, P> where X: XOscNum, P: OptionalPin {
    /// The oscillator's token.
    pub closed spec fn token(self) -> XOscToken<X> {
        self.token
    }

    /// The pin of the oscillator's input, which the oscillator holds.
    pub closed spec fn xin(self) -> XIn<X> {
        self.xin
    }

    /// The pin of the oscillator's output, where a crystal drives it.
    pub closed spec fn xout(self) -> P {
        self.xout
    }

    /// The frequency of the signal or the crystal.
    pub closed spec fn freq_spec(self) -> Hertz {
        self.freq
    }

    /// The frequency of the signal or the crystal.
    pub fn freq(&self) -> (hz: Hertz)
        ensures
            hz == self.freq_spec(),
    {
        self.freq
    }

    /// Sets the start-up time.
    pub fn set_start_up(self, start_up: StartUp, bus: &mut Bus) -> (r: Self)
        ensures
            r == self,
            final(bus)@ == old(bus)@.push(Op::Xosc(XoscOp::StartUp { osc: X::NUM, start_up })),
    {
        let mut this = self;
        this.token.set_start_up(start_up, bus);
        this
    }

    /// Sets the on-demand flag.
    pub fn set_on_demand(self, on_demand: bool, bus: &mut Bus) -> (r: Self)
        ensures
            r == self,
            final(bus)@ == old(bus)@.push(
                Op::Xosc(XoscOp::OnDemand { osc: X::NUM, flag: on_demand }),
            ),
    {
        let mut this = self;
        this.token.set_on_demand(on_demand, bus);
        this
    }

    /// Sets the run-in-standby flag.
    pub fn set_run_standby(self, run_standby: bool, bus: &mut Bus) -> (r: Self)
        ensures
            r == self,
            final(bus)@ == old(bus)@.push(
                Op::Xosc(XoscOp::RunStandby { osc: X::NUM, flag: run_standby }),
            ),
    {
        let mut this = self;
        this.token.set_run_standby(run_standby, bus);
        this
    }

    /// Sets the prescaler of the clock failure detector.
    pub fn set_clock_failure_detector_prescaler(self, prescale: CfdPresc, bus: &mut Bus) -> (r:
        Self)
        ensures
            r == self,
            final(bus)@ == old(bus)@.push(Op::Xosc(XoscOp::CfdPresc { osc: X::NUM, prescale })),
    {
        let mut this = self;
        this.token.set_clock_failure_detector_prescaler(prescale, bus);
        this
    }

    /// Sets the current multiplier and reference to suit the crystal.
    pub fn set_crystal_current(self, crystal_current: CrystalCurrent, bus: &mut Bus) -> (r: Self)
        ensures
            r == self,
            final(bus)@ == old(bus)@.push(
                Op::Xosc(
                    XoscOp::Current {
                        osc: X::NUM,
                        imult: crystal_current.imult_spec(),
                        iptat: crystal_current.iptat_spec(),
                    },
                ),
            ),
    {
        let mut this = self;
        this.token.set_crystal_current(crystal_current, bus);
        this
    }

    /// Sets the flag that lets the clock failure detector switch back to
    /// the oscillator.
    pub fn set_clock_switch(self, swben: bool, bus: &mut Bus) -> (r: Self)
        ensures
            r == self,
            final(bus)@ == old(bus)@.push(
                Op::Xosc(XoscOp::ClockSwitch { osc: X::NUM, flag: swben }),
            ),
    {
        let mut this = self;
        this.token.set_clock_switch(swben, bus);
        this
    }

    /// Sets the low buffer gain flag.
    pub fn set_low_buf_gain(self, lowbufgain: bool, bus: &mut Bus) -> (r: Self)
        ensures
            r == self,
            final(bus)@ == old(bus)@.push(
                Op::Xosc(XoscOp::LowBufGain { osc: X::NUM, flag: lowbufgain }),
            ),
    {
        let mut this = self;
        this.token.set_low_buf_gain(lowbufgain, bus);
        this
    }

    /// Switches the oscillator on. Nothing depends on it yet.
    pub fn enable(self, bus: &mut Bus) -> (r: Counted<XOsc<X, P>, Zero>)
        ensures
            r.inner().config() == self,
            final(bus)@ == old(bus)@.push(Op::Xosc(XoscOp::Enable { osc: X::NUM, flag: true })),
    {
        let mut this = self;
        this.token.enable(bus);
        Counted::new(XOsc::new(this))
    }
}

//==============================================================================
// XOsc
//==============================================================================
/// A running oscillator.
pub struct XOsc<X, P = NoneT> where X: XOscNum, P: OptionalPin {
    config: XOscConfig<X, P>,
}

/// Oscillator 0, running.
pub type XOsc0<P = NoneT> = XOsc<Osc0, P>;

/// Oscillator 1, running.
pub type XOsc1<P = NoneT> = XOsc<Osc1, P>;

impl<X, P> Sealed for XOsc<X, P> where X: XOscNum, P: OptionalPin {

}

impl<X, P> XOsc<X, P> where X: XOscNum, P: OptionalPin {
    /// The configuration that the oscillator runs with.
    pub closed spec fn config(self) -> XOscConfig<X, P> {
        self.config
    }

    /// The frequency that the oscillator puts out.
    pub open spec fn freq_spec(self) -> Hertz {
        self.config().freq_spec()
    }

    fn new(config: XOscConfig<X, P>) -> (r: Self)
        ensures
            r.config() == config,
    {
        XOsc { config }
    }

    /// Switches the oscillator off.
    fn disable(self, bus: &mut Bus) -> (r: XOscConfig<X, P>)
        ensures
            r == self.config(),
            final(bus)@ == old(bus)@.push(Op::Xosc(XoscOp::Enable { osc: X::NUM, flag: false })),
    {
        let mut config = self.config;
        config.token.disable(bus);
        config
    }

    /// Waits until the oscillator is stable.
    pub fn wait_ready(&self, bus: &mut Bus)
        ensures
            final(bus)@ == old(bus)@.push(Op::Xosc(XoscOp::WaitReady { mask: ready_mask(X::NUM) })),
    {
        self.config.token.wait_ready(bus);
    }

    /// The frequency that the oscillator puts out.
    pub fn freq(&self) -> (hz: Hertz)
        ensures
            hz == self.freq_spec(),
    {
        self.config.freq()
    }
}

impl<X, P> Counted<XOsc<X, P>, Zero> where X: XOscNum, P: OptionalPin {
    /// Switches the oscillator off. Only an oscillator that nothing depends
    /// on has this operation.
    pub fn disable(self, bus: &mut Bus) -> (r: XOscConfig<X, P>)
        ensures
            r == self.inner().config(),
            final(bus)@ == old(bus)@.push(Op::Xosc(XoscOp::Enable { osc: X::NUM, flag: false })),
    {
        self.into_inner().disable(bus)
    }
}

//==============================================================================
// GclkSource
//==============================================================================
impl GclkSourceType for Osc0 {
    const GCLK_SRC: GclkSourceEnum = GclkSourceEnum::XOSC0;
}

impl GclkSourceType for Osc1 {
    const GCLK_SRC: GclkSourceEnum = GclkSourceEnum::XOSC1;
}

impl<G, X, P> GclkSource<G> for XOsc<X, P> where
    G: GenNum,
    X: XOscNum + GclkSourceType,
    P: OptionalPin,
 {
    type Type = X;

    open spec fn freq_spec(&self) -> Hertz {
        self.config().freq_spec()
    }

    fn freq(&self) -> (hz: Hertz) {
        self.config.freq
    }
}

//==============================================================================
// DpllSource
//==============================================================================
impl DpllSourceType for Osc0 {
    const DPLL_SRC: DpllSrc = DpllSrc::XOSC0;
}

impl DpllSourceType for Osc1 {
    const DPLL_SRC: DpllSrc = DpllSrc::XOSC1;
}

impl<X, P> DpllSource for XOsc<X, P> where X: XOscNum + DpllSourceType, P: OptionalPin {
    type Type = X;

    open spec fn freq_spec(&self) -> Hertz {
        self.config().freq_spec()
    }

    fn freq(&self) -> (hz: Hertz) {
        self.config.freq
    }
}

//==============================================================================
// Constants
//==============================================================================
/// The constants of the oscillators: oscillator `n` has the index `n`, and
/// generators and loops call it `XOSC0` or `XOSC1` accordingly.
pub proof fn lemma_osc_constants()
    ensures
        <Osc0 as XOscNum>::NUM == 0 && <Osc1 as XOscNum>::NUM == 1,
        <Osc0 as XOscNum>::DPLL_SRC == DpllSrc::XOSC0,
        <Osc1 as XOscNum>::DPLL_SRC == DpllSrc::XOSC1,
        <Osc0 as GclkSourceType>::GCLK_SRC == GclkSourceEnum::XOSC0,
        <Osc1 as GclkSourceType>::GCLK_SRC == GclkSourceEnum::XOSC1,
        <Osc0 as DpllSourceType>::DPLL_SRC == DpllSrc::XOSC0,
        <Osc1 as DpllSourceType>::DPLL_SRC == DpllSrc::XOSC1,
{
}

} // verus!
