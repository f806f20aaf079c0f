//! The digital frequency locked loop.
//!
//! The loop runs in one of two modes. In open loop it puts out its nominal
//! 48 MHz. In closed loop it multiplies a reference, which a peripheral
//! channel supplies and which the loop owns for as long as it is configured.
use vstd::prelude::*;
use crate::bus::{Bus, Op};
use crate::clock::gclk::{GclkSource, GenNum};
use crate::clock::pclk::{Dfll48, Pclk, PclkSourceType};
use crate::time::Hertz;
use crate::typelevel::counted::Counted;
use crate::typelevel::{Sealed, Zero};

pub mod marker;

verus! {

/// A flag of the loop's synchronisation register.
#[derive(Clone, Copy, Debug, PartialEq, Eq)]
pub enum DfllSync {
    /// The enable bit is on its way.
    Enable,
    /// The second control register is on its way.
    CtrlB,
    /// The value register is on its way.
    Val,
    /// The multiplier register is on its way.
    Mul,
}

/// One transaction with the loop.
#[derive(Clone, Copy, Debug, PartialEq, Eq)]
pub enum DfllOp {
    /// Set the enable bit.
    Enable,
    /// Write the mode bit: closed loop if `closed`, open loop if not.
    Mode { closed: bool },
    /// Write the largest step of the fine correction.
    FineStep(u8),
    /// Write the largest step of the coarse correction.
    CoarseStep(u8),
    /// Write the multiplication factor.
    Mul(u16),
    /// Wait until the flag is clear.
    Sync(DfllSync),
}

/// The nominal frequency of the loop.
pub const NOMINAL_HZ: u32 = 48_000_000;

/// The transactions that start the loop in open mode.
pub open spec fn open_enable_ops() -> Seq<Op> {
    seq![
        Op::Dfll(DfllOp::Mode { closed: false }),
        Op::Dfll(DfllOp::Sync(DfllSync::Enable)),
        Op::Dfll(DfllOp::Enable),
        Op::Dfll(DfllOp::Sync(DfllSync::Enable)),
    ]
}

/// The transactions that start the loop in closed mode: the step limits and
/// the multiplier come before the mode bit.
pub open spec fn closed_enable_ops(fine: u8, coarse: u8, mul: u16) -> Seq<Op> {
    seq![
        Op::Dfll(DfllOp::FineStep(fine)),
        Op::Dfll(DfllOp::Sync(DfllSync::Mul)),
        Op::Dfll(DfllOp::CoarseStep(coarse)),
        Op::Dfll(DfllOp::Sync(DfllSync::Mul)),
        Op::Dfll(DfllOp::Mul(mul)),
        Op::Dfll(DfllOp::Sync(DfllSync::Mul)),
        Op::Dfll(DfllOp::Mode { closed: true }),
        Op::Dfll(DfllOp::Sync(DfllSync::Enable)),
    ]
}

/// The token of the loop.
pub type DfllToken = Registers;

/// The registers of the loop. There is one value of this type.
pub struct Registers {
    __: (),
}

impl Registers {
    /// The token of the loop.
    pub(crate) fn new() -> Self {
        Self { __: () }
    }

    fn wait_sync_enable(&self, bus: &mut Bus)
        ensures
            final(bus)@ == old(bus)@.push(Op::Dfll(DfllOp::Sync(DfllSync::Enable))),
    {
        bus.push(Op::Dfll(DfllOp::Sync(DfllSync::Enable)));
    }

    fn wait_sync_dfllmul(&self, bus: &mut Bus)
        ensures
            final(bus)@ == old(bus)@.push(Op::Dfll(DfllOp::Sync(DfllSync::Mul))),
    {
        bus.push(Op::Dfll(DfllOp::Sync(DfllSync::Mul)));
    }

    fn enable(&mut self, bus: &mut Bus)
        ensures
            final(bus)@ == old(bus)@.push(Op::Dfll(DfllOp::Enable)).push(
                Op::Dfll(DfllOp::Sync(DfllSync::Enable)),
            ),
    {
        bus.push(Op::Dfll(DfllOp::Enable));
        self.wait_sync_enable(bus);
    }

    fn set_open_mode(&mut self, bus: &mut Bus)
        ensures
            final(bus)@ == old(bus)@.push(Op::Dfll(DfllOp::Mode { closed: false })).push(
                Op::Dfll(DfllOp::Sync(DfllSync::Enable)),
            ),
    {
        bus.push(Op::Dfll(DfllOp::Mode { closed: false }));
        self.wait_sync_enable(bus);
    }

    fn set_closed_mode(&mut self, bus: &mut Bus)
        ensures
            final(bus)@ == old(bus)@.push(Op::Dfll(DfllOp::Mode { closed: true })).push(
                Op::Dfll(DfllOp::Sync(DfllSync::Enable)),
            ),
    {
        bus.push(Op::Dfll(DfllOp::Mode { closed: true }));
        self.wait_sync_enable(bus);
    }

    fn set_fine_maximum_step(&mut self, value: u8, bus: &mut Bus)
        ensures
            final(bus)@ == old(bus)@.push(Op::Dfll(DfllOp::FineStep(value))).push(
                Op::Dfll(DfllOp::Sync(DfllSync::Mul)),
            ),
    {
        bus.push(Op::Dfll(DfllOp::FineStep(value)));
        self.wait_sync_dfllmul(bus);
    }

    fn set_coarse_maximum_step(&mut self, value: u8, bus: &mut Bus)
        ensures
            final(bus)@ == old(bus)@.push(Op::Dfll(DfllOp::CoarseStep(value))).push(
                Op::Dfll(DfllOp::Sync(DfllSync::Mul)),
            ),
    {
        bus.push(Op::Dfll(DfllOp::CoarseStep(value)));
        self.wait_sync_dfllmul(bus);
    }

    fn set_multiplication_factor(&mut self, value: u16, bus: &mut Bus)
        ensures
            final(bus)@ == old(bus)@.push(Op::Dfll(DfllOp::Mul(value))).push(
                Op::Dfll(DfllOp::Sync(DfllSync::Mul)),
            ),
    {
        bus.push(Op::Dfll(DfllOp::Mul(value)));
        self.wait_sync_dfllmul(bus);
    }
}

type MultiplicationFactor = u16;

type CoarseMaximumStep = u8;

type FineMaximumStep = u8;

type Fine = u8;

type Coarse = u8;

/// A mode of the loop.
pub trait LoopMode: Sealed {

}

/// Open loop: the loop runs free at its nominal frequency.
pub struct OpenLoop {
    fine: Option<Fine>,
    coarse: Option<Coarse>,
}

impl LoopMode for OpenLoop {

}

impl Sealed for OpenLoop {

}

/// Closed loop: the loop follows the reference that channel `T` supplies.
pub struct ClosedLoop<T: PclkSourceType> {
    reference_clk: Pclk<Dfll48, T>,
    coarse_maximum_step: CoarseMaximumStep,
    fine_maximum_step: FineMaximumStep,
}

impl<T: PclkSourceType> Sealed for ClosedLoop<T> {

}

impl<T: PclkSourceType> LoopMode for ClosedLoop<T> {

}

impl<T: PclkSourceType> ClosedLoop<T> {
    /// The channel that supplies the reference.
    pub closed spec fn reference(self) -> Pclk<Dfll48, T> {
        self.reference_clk
    }

    /// The largest step of the coarse correction.
    pub closed spec fn coarse_step(self) -> u8 {
        self.coarse_maximum_step
    }

    /// The largest step of the fine correction.
    pub closed spec fn fine_step(self) -> u8 {
        self.fine_maximum_step
    }
}

/// The loop with its mode chosen, not yet running.
pub struct DfllConfig<TMode: LoopMode> {
    token: DfllToken,
    freq: Hertz,
    mode: TMode,
    multiplication_factor: MultiplicationFactor,
    standby_sleep_mode: bool,
    on_demand_mode: bool,
}

impl<TMode: LoopMode> DfllConfig<TMode> {
    #[verifier::type_invariant]
    spec fn inv(self) -> bool {
        self.freq.0 * self.multiplication_factor <= u32::MAX
    }

    /// The token of the loop.
    pub closed spec fn token(self) -> DfllToken {
        self.token
    }

    /// The frequency that is multiplied: the nominal one in open loop, the
    /// reference in closed loop.
    pub closed spec fn base_freq(self) -> Hertz {
        self.freq
    }

    /// The multiplication factor.
    pub closed spec fn multiplier(self) -> u16 {
        self.multiplication_factor
    }

    /// The mode and what it holds.
    pub closed spec fn mode(self) -> TMode {
        self.mode
    }

    /// Whether the loop is to run in standby.
    pub closed spec fn standby_sleep_mode(self) -> bool {
        self.standby_sleep_mode
    }

    /// Whether the loop is to run on demand only.
    pub closed spec fn on_demand_mode(self) -> bool {
        self.on_demand_mode
    }

    /// The frequency that the loop puts out: the base frequency times the
    /// multiplication factor.
    pub open spec fn freq_spec(self) -> Hertz {
        Hertz((self.base_freq().0 * self.multiplier()) as u32)
    }

    /// The frequency that the loop puts out.
    pub fn freq(&self) -> (hz: Hertz)
        ensures
            hz == self.freq_spec(),
            hz.0 == self.base_freq().0 * self.multiplier(),
    {
        proof {
            use_type_invariant(self);
        }
        Hertz(self.freq.0 * self.multiplication_factor as u32)
    }

    /// Notes whether the loop is to run in standby.
    pub fn set_standby_sleep_mode(&mut self, value: bool)
        ensures
            final(self).standby_sleep_mode() == value,
            final(self).on_demand_mode() == old(self).on_demand_mode(),
            final(self).base_freq() == old(self).base_freq(),
            final(self).token() == old(self).token(),
            final(self).multiplier() == old(self).multiplier(),
            final(self).mode() == old(self).mode(),
    {
        proof {
            use_type_invariant(&*self);
        }
        self.standby_sleep_mode = value;
    }

    /// Notes whether the loop is to run on demand only.
    pub fn set_on_demand_mode(&mut self, value: bool)
        ensures
            final(self).on_demand_mode() == value,
            final(self).standby_sleep_mode() == old(self).standby_sleep_mode(),
            final(self).base_freq() == old(self).base_freq(),
            final(self).token() == old(self).token(),
            final(self).multiplier() == old(self).multiplier(),
            final(self).mode() == old(self).mode(),
    {
        proof {
            use_type_invariant(&*self);
        }
        self.on_demand_mode = value;
    }
}

impl DfllConfig<OpenLoop> {
    /// The loop in open mode: the nominal frequency, not multiplied.
    pub fn in_open_mode(token: DfllToken) -> (r: DfllConfig<OpenLoop>)
        ensures
            r.token() == token,
            r.base_freq() == Hertz(NOMINAL_HZ),
            r.multiplier() == 1,
            r.freq_spec() == Hertz(NOMINAL_HZ),
            !r.standby_sleep_mode(),
            !r.on_demand_mode(),
    {
        Self {
            token,
            freq: Hertz::from_mhz(48),
            mode: OpenLoop { fine: None, coarse: None },
            multiplication_factor: 1_u16,
            standby_sleep_mode: false,
            on_demand_mode: false,
        }
    }

    /// Starts the loop in open mode. Nothing depends on it yet.
    pub fn enable(self, bus: &mut Bus) -> (r: Counted<Dfll<OpenLoop>, Zero>)
        ensures
            r.inner().config() == self,
            final(bus)@ == old(bus)@ + open_enable_ops(),
    {
        proof {
            use_type_invariant(&self);
        }
        let DfllConfig {
            mut token,
            freq,
            mode,
            multiplication_factor,
            standby_sleep_mode,
            on_demand_mode,
        } = self;
        token.set_open_mode(bus);
        token.enable(bus);
        assert(final(bus)@ =~= old(bus)@ + open_enable_ops());
        Counted::new(
            Dfll::new(
                DfllConfig {
                    token,
                    freq,
                    mode,
                    multiplication_factor,
                    standby_sleep_mode,
                    on_demand_mode,
                },
            ),
        )
    }

    /// Gives the token back.
    pub fn free(self) -> (r: DfllToken)
        ensures
            r == self.token(),
    {
        self.token
    }
}

impl<T: PclkSourceType> DfllConfig<ClosedLoop<T>> {
    /// The loop in closed mode, which takes the channel `reference_clk` as
    /// its reference and multiplies it by `multiplication_factor`.
    pub fn in_closed_mode(
        token: DfllToken,
        reference_clk: Pclk<Dfll48, T>,
        multiplication_factor: MultiplicationFactor,
        coarse_maximum_step: CoarseMaximumStep,
        fine_maximum_step: FineMaximumStep,
    ) -> (r: DfllConfig<ClosedLoop<T>>)
        requires
            reference_clk.freq_spec().0 * multiplication_factor <= u32::MAX,
        ensures
            r.token() == token,
            r.base_freq() == reference_clk.freq_spec(),
            r.multiplier() == multiplication_factor,
            r.mode().reference() == reference_clk,
            r.mode().coarse_step() == coarse_maximum_step,
            r.mode().fine_step() == fine_maximum_step,
            !r.standby_sleep_mode(),
            !r.on_demand_mode(),
    {
        Self {
            token,
            freq: reference_clk.freq(),
            mode: ClosedLoop { reference_clk, coarse_maximum_step, fine_maximum_step },
            multiplication_factor,
            standby_sleep_mode: false,
            on_demand_mode: false,
        }
    }

    /// Replaces the multiplication factor.
    pub fn set_multiplication_factor(&mut self, multiplication_factor: MultiplicationFactor)
        requires
            old(self).base_freq().0 * multiplication_factor <= u32::MAX,
        ensures
            final(self).multiplier() == multiplication_factor,
            final(self).base_freq() == old(self).base_freq(),
            final(self).token() == old(self).token(),
            final(self).mode() == old(self).mode(),
            final(self).standby_sleep_mode() == old(self).standby_sleep_mode(),
            final(self).on_demand_mode() == old(self).on_demand_mode(),
    {
        self.multiplication_factor = multiplication_factor;
    }

    /// Replaces the largest step of the coarse correction.
    pub fn set_coarse_maximum_step(&mut self, coarse_maximum_step: CoarseMaximumStep)
        ensures
            final(self).mode().coarse_step() == coarse_maximum_step,
            final(self).mode().fine_step() == old(self).mode().fine_step(),
            final(self).mode().reference() == old(self).mode().reference(),
            final(self).multiplier() == old(self).multiplier(),
            final(self).base_freq() == old(self).base_freq(),
            final(self).token() == old(self).token(),
            final(self).standby_sleep_mode() == old(self).standby_sleep_mode(),
            final(self).on_demand_mode() == old(self).on_demand_mode(),
    {
        proof {
            use_type_invariant(&*self);
        }
        self.mode.coarse_maximum_step = coarse_maximum_step;
    }

    /// Replaces the largest step of the fine correction.
    pub fn set_fine_maximum_step(&mut self, fine_maximum_step: FineMaximumStep)
        ensures
            final(self).mode().fine_step() == fine_maximum_step,
            final(self).mode().coarse_step() == old(self).mode().coarse_step(),
            final(self).mode().reference() == old(self).mode().reference(),
            final(self).multiplier() == old(self).multiplier(),
            final(self).base_freq() == old(self).base_freq(),
            final(self).token() == old(self).token(),
            final(self).standby_sleep_mode() == old(self).standby_sleep_mode(),
            final(self).on_demand_mode() == old(self).on_demand_mode(),
    {
        proof {
            use_type_invariant(&*self);
        }
        self.mode.fine_maximum_step = fine_maximum_step;
    }

    /// Starts the loop in closed mode: writes the step limits and the
    /// multiplier, then the mode bit. Nothing depends on the loop yet.
    pub fn enable(self, bus: &mut Bus) -> (r: Counted<Dfll<ClosedLoop<T>>, Zero>)
        ensures
            r.inner().config() == self,
            final(bus)@ == old(bus)@ + closed_enable_ops(
                self.mode().fine_step(),
                self.mode().coarse_step(),
                self.multiplier(),
            ),
    {
        proof {
            use_type_invariant(&self);
        }
        let DfllConfig {
            mut token,
            freq,
            mode,
            multiplication_factor,
            standby_sleep_mode,
            on_demand_mode,
        } = self;
        token.set_fine_maximum_step(mode.fine_maximum_step, bus);
        token.set_coarse_maximum_step(mode.coarse_maximum_step, bus);
        token.set_multiplication_factor(multiplication_factor, bus);
        token.set_closed_mode(bus);
        assert(final(bus)@ =~= old(bus)@ + closed_enable_ops(
            mode.fine_maximum_step,
            mode.coarse_maximum_step,
            multiplication_factor,
        ));
        Counted::new(
            Dfll::new(
                DfllConfig {
                    token,
                    freq,
                    mode,
                    multiplication_factor,
                    standby_sleep_mode,
                    on_demand_mode,
                },
            ),
        )
    }

    /// Gives the token and the reference channel back.
    pub fn free(self) -> (r: (DfllToken, Pclk<Dfll48, T>))
        ensures
            r.0 == self.token(),
            r.1 == self.mode().reference(),
    {
        (self.token, self.mode.reference_clk)
    }
}

/// The running loop.
pub struct Dfll<TMode: LoopMode> {
    config: DfllConfig<TMode>,
}

impl<TMode: LoopMode> Dfll<TMode> {
    /// The configuration that the loop runs with.
    pub closed spec fn config(self) -> DfllConfig<TMode> {
        self.config
    }

    /// The frequency that the loop puts out.
    pub open spec fn freq_spec(self) -> Hertz {
        self.config().freq_spec()
    }

    fn new(config: DfllConfig<TMode>) -> (r: Self)
        ensures
            r.config() == config,
    {
        Dfll { config }
    }

    fn disable(self) -> (r: DfllConfig<TMode>)
        ensures
            r == self.config(),
    {
        self.config
    }

    /// The frequency that the loop puts out.
    pub fn freq(&self) -> (hz: Hertz)
        ensures
            hz == self.freq_spec(),
            hz.0 == self.config().base_freq().0 * self.config().multiplier(),
    {
        self.config.freq()
    }
}

impl Dfll<OpenLoop> {
    /// The loop as it runs after reset: in open mode.
    pub(crate) fn init() -> (r: Self)
        ensures
            r.config().base_freq() == Hertz(NOMINAL_HZ),
            r.config().multiplier() == 1,
            r.freq_spec() == Hertz(NOMINAL_HZ),
    {
        Dfll::new(DfllConfig::in_open_mode(DfllToken::new()))
    }
}

impl<TMode: LoopMode> Sealed for Dfll<TMode> {

}

impl<TMode: LoopMode> Counted<Dfll<TMode>, Zero> {
    /// Takes the loop back to its configuration. Only a loop that nothing
    /// depends on has this operation.
    pub fn disable(self) -> (r: DfllConfig<TMode>)
        ensures
            r == self.inner().config(),
    {
        self.into_inner().disable()
    }
}

//==============================================================================
// GclkSource
//==============================================================================
impl<G: GenNum> GclkSource<G> for Dfll<OpenLoop> {
    type Type = marker::Dfll<OpenLoop>;

    open spec fn freq_spec(&self) -> Hertz {
        self.config().freq_spec()
    }

    fn freq(&self) -> (hz: Hertz)
        ensures
            hz.0 == self.config().base_freq().0 * self.config().multiplier(),
    {
        self.config.freq()
    }
}

impl<G: GenNum, T: PclkSourceType> GclkSource<G> for Dfll<ClosedLoop<T>> {
    type Type = marker::Dfll<marker::ClosedLoop>;

    open spec fn freq_spec(&self) -> Hertz {
        self.config().freq_spec()
    }

    fn freq(&self) -> (hz: Hertz)
        ensures
            hz.0 == self.config().base_freq().0 * self.config().multiplier(),
    {
        self.config.freq()
    }
}

} // verus!
