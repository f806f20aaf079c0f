//! Peripheral clock channels.
//!
//! A channel routes the output of one generator to one peripheral. While it
//! is enabled it counts as a consumer of that generator.
use core::marker::PhantomData;
use vstd::prelude::*;
use crate::bus::{Bus, Op};
use crate::clock::gclk::{Gclk, GclkSourceType, GenNum};
use crate::clock::sources::dpll::{Pll0, Pll1};
use crate::time::Hertz;
use crate::typelevel::counted::Counted;
use crate::typelevel::{Decrement, Increment, Sealed};

verus! {

/// One transaction with a peripheral channel.
#[derive(Clone, Copy, Debug, PartialEq, Eq)]
pub enum PclkOp {
    /// Select generator `gen` for `channel` and enable the channel, in one
    /// access.
    Enable { channel: usize, gen: usize },
    /// Disable `channel`.
    Disable { channel: usize },
    /// Wait until the enable bit of `channel` reads as `flag`.
    Sync { channel: usize, flag: bool },
}

/// The transactions that enable a channel.
pub open spec fn enable_ops(channel: usize, gen: usize) -> Seq<Op> {
    seq![
        Op::Pclk(PclkOp::Enable { channel, gen }),
        Op::Pclk(PclkOp::Sync { channel, flag: true }),
    ]
}

/// The transactions that disable a channel.
pub open spec fn disable_ops(channel: usize) -> Seq<Op> {
    seq![Op::Pclk(PclkOp::Disable { channel }), Op::Pclk(PclkOp::Sync { channel, flag: false })]
}

/// The identity of one peripheral channel, as a type.
pub trait PclkType: Sealed {
    /// The channel's index.
    const ID: usize;
}

/// The generator that feeds a channel, as a type.
pub trait PclkSourceType: GenNum {

}

impl<G: GenNum> PclkSourceType for G {

}

/// The channel of the frequency locked loop's reference.
pub struct Dfll48;

impl Sealed for Dfll48 {

}

impl PclkType for Dfll48 {
    const ID: usize = 0;
}

/// The channel of the external interrupt controller.
pub struct Eic;

impl Sealed for Eic {

}

impl PclkType for Eic {
    const ID: usize = 4;
}

/// The registers of channel `P`. There is one value of this type for each
/// channel.
pub struct PclkToken<P: PclkType> {
    pclk: PhantomData<P>,
}

impl<P: PclkType> PclkToken<P> {
    /// The token of channel `P`. Each channel has one.
    pub(crate) fn new() -> Self {
        PclkToken { pclk: PhantomData }
    }
}

/// The tokens of the peripheral channels.
pub struct Tokens {
    /// The channel of the frequency locked loop's reference.
    pub dfll48: PclkToken<Dfll48>,
    /// The channel of phase locked loop 0.
    pub dpll0: PclkToken<Pll0>,
    /// The channel of phase locked loop 1.
    pub dpll1: PclkToken<Pll1>,
    /// The channel of the external interrupt controller.
    pub eic: PclkToken<Eic>,
}

impl Tokens {
    /// The tokens of the channels.
    pub(crate) fn new() -> Self {
        Tokens {
            dfll48: PclkToken::new(),
            dpll0: PclkToken::new(),
            dpll1: PclkToken::new(),
            eic: PclkToken::new(),
        }
    }
}

/// An enabled channel `P`, fed by generator `T`.
pub struct Pclk<P, T> where P: PclkType, T: PclkSourceType {
    token: PclkToken<P>,
    src: PhantomData<T>,
    freq: Hertz,
}

impl<P, T> Sealed for Pclk<P, T> where P: PclkType, T: PclkSourceType {

}

impl<P, T> Pclk<P, T> where P: PclkType, T: PclkSourceType {
    /// The channel's token.
    pub closed spec fn token(self) -> PclkToken<P> {
        self.token
    }

    /// The frequency that the channel carries.
    pub closed spec fn freq_spec(self) -> Hertz {
        self.freq
    }

    /// A channel whose generator is known to run at `freq`.
    pub(crate) fn create(freq: Hertz) -> (r: Self)
        ensures
            r.freq_spec() == freq,
    {
        Pclk { token: PclkToken::new(), src: PhantomData, freq }
    }

    /// Enables the channel on the generator `gclk`, which gains a consumer.
    pub fn enable<S, N>(token: PclkToken<P>, gclk: Counted<Gclk<T, S>, N>, bus: &mut Bus) -> (r: (
        Self,
        Counted<Gclk<T, S>, N::Inc>,
    )) where S: GclkSourceType, N: Increment
        ensures
            r.0.token() == token,
            r.0.freq_spec() == gclk.inner().freq_spec(),
            r.1.inner() == gclk.inner(),
            r.1.count() == gclk.count() + 1,
            final(bus)@ == old(bus)@ + enable_ops(P::ID, T::NUM),
    {
        let freq = gclk.get().freq();
        bus.push(Op::Pclk(PclkOp::Enable { channel: P::ID, gen: T::NUM }));
        bus.push(Op::Pclk(PclkOp::Sync { channel: P::ID, flag: true }));
        assert(final(bus)@ =~= old(bus)@ + enable_ops(P::ID, T::NUM));
        (Pclk { token, src: PhantomData, freq }, gclk.inc())
    }

    /// Disables the channel; its generator loses a consumer.
    pub fn disable<S, N>(self, gclk: Counted<Gclk<T, S>, N>, bus: &mut Bus) -> (r: (
        PclkToken<P>,
        Counted<Gclk<T, S>, N::Dec>,
    )) where S: GclkSourceType, N: Decrement
        ensures
            r.0 == self.token(),
            r.1.inner() == gclk.inner(),
            r.1.count() + 1 == gclk.count(),
            final(bus)@ == old(bus)@ + disable_ops(P::ID),
    {
        bus.push(Op::Pclk(PclkOp::Disable { channel: P::ID }));
        bus.push(Op::Pclk(PclkOp::Sync { channel: P::ID, flag: false }));
        assert(final(bus)@ =~= old(bus)@ + disable_ops(P::ID));
        (self.token, gclk.dec())
    }

    /// The frequency that the channel carries.
    pub fn freq(&self) -> (hz: Hertz)
        ensures
            hz == self.freq_spec(),
    {
        self.freq
    }
}

/// The indices of the channels that have no loop of their own.
pub proof fn lemma_channel_constants()
    ensures
        Dfll48::ID == 0,
        Eic::ID == 4,
{
}

} // verus!
