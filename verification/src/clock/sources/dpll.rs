//! The digital phase locked loops.
//!
//! A loop takes a reference between 32 kHz and 3.2 MHz, from its peripheral
//! channel or from an external oscillator, divides it, and multiplies it by a
//! ratio with an integer and a fractional part. It must put out between
//! 96 MHz and 200 MHz to be enabled.
use core::marker::PhantomData;
use vstd::prelude::*;
use crate::bus::{Bus, Op};
use crate::clock::gclk::{GclkSource, GclkSourceEnum, GclkSourceType, GenNum};
use crate::clock::pclk::{Pclk, PclkSourceType, PclkType};
use crate::time::Hertz;
use crate::typelevel::counted::Counted;
use crate::typelevel::{Decrement, Increment, Sealed, Zero};

verus! {

//==============================================================================
// Transactions
//==============================================================================
/// What a loop can take its reference from.
#[derive(Clone, Copy, Debug, PartialEq, Eq)]
pub enum DpllSrc {
    /// The loop's peripheral channel.
    GCLK,
    /// The external 32 kHz oscillator.
    XOSC32,
    /// External oscillator 0.
    XOSC0,
    /// External oscillator 1.
    XOSC1,
}

/// A flag of a loop's synchronisation register.
#[derive(Clone, Copy, Debug, PartialEq, Eq)]
pub enum DpllSync {
    /// The enable bit is on its way.
    Enable,
    /// The ratio register is on its way.
    Ratio,
}

/// One transaction with loop `pll`.
#[derive(Clone, Copy, Debug, PartialEq, Eq)]
pub enum DpllOp {
    /// Write the whole ratio register: the integer and the fractional part.
    Ratio { pll: usize, ldr: u16, ldrfrac: u8 },
    /// Select the reference.
    RefClk { pll: usize, src: DpllSrc },
    /// Write the divider of the reference.
    Div { pll: usize, div: u16 },
    /// Write the lock bypass flag.
    LockBypass { pll: usize, flag: bool },
    /// Write the wake-up-fast flag.
    WakeUpFast { pll: usize, flag: bool },
    /// Write the enable bit.
    Enable { pll: usize, flag: bool },
    /// Wait until the flag is clear.
    Sync { pll: usize, wait: DpllSync },
    /// Wait until the output is ready.
    WaitReady { pll: usize },
    /// Wait until the loop has locked.
    WaitLocked { pll: usize },
}

/// The lowest reference that a loop takes.
pub const INPUT_MIN_HZ: u32 = 32_000;

/// The highest reference that a loop takes.
pub const INPUT_MAX_HZ: u32 = 3_200_000;

/// The lowest frequency that a loop may put out.
pub const OUTPUT_MIN_HZ: u32 = 96_000_000;

/// The highest frequency that a loop may put out.
pub const OUTPUT_MAX_HZ: u32 = 200_000_000;

/// Whether a loop takes `hz` as its reference.
pub open spec fn input_in_window(hz: Hertz) -> bool {
    INPUT_MIN_HZ <= hz.0 <= INPUT_MAX_HZ
}

/// Whether a loop may put out `hz`.
pub open spec fn output_in_window(hz: Hertz) -> bool {
    OUTPUT_MIN_HZ <= hz.0 <= OUTPUT_MAX_HZ
}

/// The largest integer part of the ratio: the field has thirteen bits and
/// holds the integer part less one.
pub const RATIO_INT_MAX: u16 = 0x2000;

/// The largest fractional part of the ratio: the field has five bits, and
/// counts thirty-seconds.
pub const RATIO_FRAC_MAX: u8 = 31;

/// The largest divider of the reference: the field has eleven bits.
pub const SOURCE_DIV_MAX: u16 = 0x7FF;

/// Whether the ratio fits its fields.
pub open spec fn ratio_in_range(mult: u16, frac: u8) -> bool {
    1 <= mult <= RATIO_INT_MAX && frac <= RATIO_FRAC_MAX
}

/// Whether the divider of the reference fits its field.
pub open spec fn source_div_in_range(div: u16) -> bool {
    1 <= div <= SOURCE_DIV_MAX
}

/// The frequency that a loop makes of the reference `input`: the reference
/// divided by `div`, times the ratio, which is its integer part plus one
/// plus `frac` thirty-seconds. What is left below one hertz is dropped.
pub open spec fn output_hz(input: Hertz, div: u16, mult: u16, frac: u8) -> nat {
    ((input.0 as nat / div as nat) * (32 * (mult as nat + 1) + frac as nat)) / 32
}

/// With the divider at one and the ratio at one, a loop doubles its
/// reference.
pub proof fn lemma_output_at_start(input: Hertz)
    ensures
        output_hz(input, 1, 1, 0) == 2 * input.0,
{
    assert(input.0 as nat / 1 == input.0);
    assert((input.0 as nat * 64) / 32 == 2 * input.0);
}

/// The fractional part of the ratio counts: with it the loop puts out more
/// than without, by the reference, divided, times the part, in
/// thirty-seconds; and a part of sixteen adds half of the reference.
pub proof fn lemma_fraction_counts(input: Hertz, div: u16, mult: u16, frac: u8)
    requires
        div >= 1,
    ensures
        output_hz(input, div, mult, frac) == ((input.0 as nat / div as nat) * 32 * (mult as nat
            + 1) + (input.0 as nat / div as nat) * frac as nat) / 32,
        output_hz(input, div, mult, 0) == (input.0 as nat / div as nat) * (mult as nat + 1),
        (input.0 as nat / div as nat) % 2 == 0 ==> output_hz(input, div, mult, 16) == (input.0 as nat
            / div as nat) * (mult as nat + 1) + (input.0 as nat / div as nat) / 2,
{
    let base = input.0 as nat / div as nat;
    let whole = mult as nat + 1;
    assert(base * (32 * whole + frac as nat) == base * 32 * whole + base * frac as nat)
        by (nonlinear_arith);
    assert(base * (32 * whole + 0) == 32 * (base * whole)) by (nonlinear_arith);
    if base % 2 == 0 {
        let half = base / 2;
        assert(base == 2 * half);
        assert(base * (32 * whole + 16) == 32 * (base * whole + half)) by (nonlinear_arith)
            requires
                base == 2 * half,
        ;
    }
}

/// The transactions that write the ratio of loop `pll`: the integer field
/// holds the integer part less one.
pub open spec fn ratio_ops(pll: usize, mult: u16, frac: u8) -> Seq<Op> {
    seq![
        Op::Dpll(DpllOp::Ratio { pll, ldr: (mult - 1) as u16, ldrfrac: frac }),
        Op::Dpll(DpllOp::Sync { pll, wait: DpllSync::Ratio }),
    ]
}

/// The transactions that switch loop `pll` on or off.
pub open spec fn enable_ops(pll: usize, flag: bool) -> Seq<Op> {
    seq![
        Op::Dpll(DpllOp::Enable { pll, flag }),
        Op::Dpll(DpllOp::Sync { pll, wait: DpllSync::Enable }),
    ]
}

//==============================================================================
// DpllNum
//==============================================================================
/// The identity of one loop, as a type.
pub trait DpllNum: Sealed {
    /// The loop's index.
    const NUM: usize;
}

/// Loop 0.
pub enum Pll0 {
    /// The type is a marker; its value is never looked at.
    Marker,
}

impl Sealed for Pll0 {

}

impl DpllNum for Pll0 {
    const NUM: usize = 0;
}

impl PclkType for Pll0 {
    const ID: usize = 1;
}

/// Loop 1.
pub enum Pll1 {
    /// The type is a marker; its value is never looked at.
    Marker,
}

impl Sealed for Pll1 {

}

impl DpllNum for Pll1 {
    const NUM: usize = 1;
}

impl PclkType for Pll1 {
    const ID: usize = 2;
}

//==============================================================================
// DpllSource
//==============================================================================
/// The kind of a reference, as a type: what the loop's reference field is
/// set to.
pub trait DpllSourceType: Sealed {
    /// The value of the reference field.
    const DPLL_SRC: DpllSrc;
}

impl<D, T> DpllSourceType for Pclk<D, T> where D: DpllNum + PclkType, T: PclkSourceType {
    const DPLL_SRC: DpllSrc = DpllSrc::GCLK;
}

/// A node that can be the reference of a loop.
pub trait DpllSource: Sealed {
    /// The kind of the reference.
    type Type: DpllSourceType;

    /// The frequency that the node puts out.
    spec fn freq_spec(&self) -> Hertz;

    /// The frequency that the node puts out.
    fn freq(&self) -> (hz: Hertz)
        ensures
            hz == self.freq_spec(),
    ;
}

//==============================================================================
// Registers
//==============================================================================
/// The token of loop `D`.
pub type DpllToken<D> = Registers<D>;

/// The registers of loop `D`. There is one value of this type for each loop.
pub struct Registers<D: DpllNum> {
    dpll: PhantomData<D>,
}

impl<D: DpllNum> Registers<D> {
    /// The token of loop `D`. Each loop has one.
    pub(crate) fn new() -> Self {
        Self { dpll: PhantomData }
    }

    /// Writes the ratio: the field holds the integer part less one, in
    /// thirteen bits, and five bits of the fractional part.
    fn set_loop_div(&mut self, mult: u16, frac: u8, bus: &mut Bus)
        requires
            ratio_in_range(mult, frac),
        ensures
            final(bus)@ == old(bus)@ + ratio_ops(D::NUM, mult, frac),
    {
        bus.push(Op::Dpll(DpllOp::Ratio { pll: D::NUM, ldr: mult - 1, ldrfrac: frac }));
        bus.push(Op::Dpll(DpllOp::Sync { pll: D::NUM, wait: DpllSync::Ratio }));
        assert(final(bus)@ =~= old(bus)@ + ratio_ops(D::NUM, mult, frac));
    }

    fn set_source_clock(&mut self, variant: DpllSrc, bus: &mut Bus)
        ensures
            final(bus)@ == old(bus)@.push(Op::Dpll(DpllOp::RefClk { pll: D::NUM, src: variant })),
    {
        bus.push(Op::Dpll(DpllOp::RefClk { pll: D::NUM, src: variant }));
    }

    /// Writes the divider of the reference, in eleven bits.
    fn set_source_div(&mut self, div: u16, bus: &mut Bus)
        requires
            source_div_in_range(div),
        ensures
            final(bus)@ == old(bus)@.push(Op::Dpll(DpllOp::Div { pll: D::NUM, div })),
    {
        bus.push(Op::Dpll(DpllOp::Div { pll: D::NUM, div }));
    }

    fn set_lock_bypass(&mut self, bypass: bool, bus: &mut Bus)
        ensures
            final(bus)@ == old(bus)@.push(
                Op::Dpll(DpllOp::LockBypass { pll: D::NUM, flag: bypass }),
            ),
    {
        bus.push(Op::Dpll(DpllOp::LockBypass { pll: D::NUM, flag: bypass }));
    }

    fn set_wake_up_fast(&mut self, wuf: bool, bus: &mut Bus)
        ensures
            final(bus)@ == old(bus)@.push(Op::Dpll(DpllOp::WakeUpFast { pll: D::NUM, flag: wuf })),
    {
        bus.push(Op::Dpll(DpllOp::WakeUpFast { pll: D::NUM, flag: wuf }));
    }

    fn wait_until_ready(&self, bus: &mut Bus)
        ensures
            final(bus)@ == old(bus)@.push(Op::Dpll(DpllOp::WaitReady { pll: D::NUM })),
    {
        bus.push(Op::Dpll(DpllOp::WaitReady { pll: D::NUM }));
    }

    fn wait_until_locked(&self, bus: &mut Bus)
        ensures
            final(bus)@ == old(bus)@.push(Op::Dpll(DpllOp::WaitLocked { pll: D::NUM })),
    {
        bus.push(Op::Dpll(DpllOp::WaitLocked { pll: D::NUM }));
    }

    fn wait_until_enable_synced(&self, bus: &mut Bus)
        ensures
            final(bus)@ == old(bus)@.push(
                Op::Dpll(DpllOp::Sync { pll: D::NUM, wait: DpllSync::Enable }),
            ),
    {
        bus.push(Op::Dpll(DpllOp::Sync { pll: D::NUM, wait: DpllSync::Enable }));
    }

    fn enable(&mut self, bus: &mut Bus)
        ensures
            final(bus)@ == old(bus)@ + enable_ops(D::NUM, true),
    {
        bus.push(Op::Dpll(DpllOp::Enable { pll: D::NUM, flag: true }));
        self.wait_until_enable_synced(bus);
        assert(final(bus)@ =~= old(bus)@ + enable_ops(D::NUM, true));
    }

    fn disable(&mut self, bus: &mut Bus)
        ensures
            final(bus)@ == old(bus)@ + enable_ops(D::NUM, false),
    {
        bus.push(Op::Dpll(DpllOp::Enable { pll: D::NUM, flag: false }));
        self.wait_until_enable_synced(bus);
        assert(final(bus)@ =~= old(bus)@ + enable_ops(D::NUM, false));
    }
}

//==============================================================================
// DpllConfig
//==============================================================================
/// A loop with its reference attached, not yet running.
pub struct DpllConfig<D, T> where D: DpllNum, T: DpllSourceType {
    token: DpllToken<D>,
    src: PhantomData<T>,
    freq: Hertz,
    mult: u16,
    frac: u8,
    div: u16,
}

impl<D, T> DpllConfig<D, T> where D: DpllNum, T: DpllSourceType {
    #[verifier::type_invariant]
    spec fn inv(self) -> bool {
        &&& input_in_window(self.freq)
        &&& source_div_in_range(self.div)
        &&& ratio_in_range(self.mult, self.frac)
        &&& output_hz(self.freq, self.div, self.mult, self.frac) <= u32::MAX
    }

    /// The loop's token.
    pub closed spec fn token(self) -> DpllToken<D> {
        self.token
    }

    /// The frequency of the reference.
    pub closed spec fn input_freq(self) -> Hertz {
        self.freq
    }

    /// The divider of the reference.
    pub closed spec fn source_div(self) -> u16 {
        self.div
    }

    /// The integer part of the ratio.
    pub closed spec fn loop_int(self) -> u16 {
        self.mult
    }

    /// The fractional part of the ratio.
    pub closed spec fn loop_frac(self) -> u8 {
        self.frac
    }

    /// The frequency that the loop puts out.
    pub open spec fn freq_spec(self) -> Hertz {
        Hertz(
            output_hz(self.input_freq(), self.source_div(), self.loop_int(), self.loop_frac()) as u32,
        )
    }

    /// Whether the loop takes `hz` as its reference.
    pub fn accepts_input(hz: Hertz) -> (ok: bool)
        ensures
            ok == input_in_window(hz),
    {
        hz.0 >= INPUT_MIN_HZ && hz.0 <= INPUT_MAX_HZ
    }

    /// Whether the loop, as it is configured, may be enabled.
    pub fn can_enable(&self) -> (ok: bool)
        ensures
            ok == output_in_window(self.freq_spec()),
    {
        let hz = self.freq();
        hz.0 >= OUTPUT_MIN_HZ && hz.0 <= OUTPUT_MAX_HZ
    }

    /// The frequency of the reference, which lies in the window that the
    /// loop takes: no configuration holds another.
    pub fn reference_freq(&self) -> (hz: Hertz)
        ensures
            hz == self.input_freq(),
            input_in_window(hz),
    {
        proof {
            use_type_invariant(self);
        }
        self.freq
    }

    /// Whether the divider `div` can replace the present one: it fits its
    /// field, and what the loop then puts out can be written in hertz.
    pub fn source_div_fits(&self, div: u16) -> (ok: bool)
        ensures
            ok == (source_div_in_range(div) && output_hz(
                self.input_freq(),
                div,
                self.loop_int(),
                self.loop_frac(),
            ) <= u32::MAX),
    {
        div >= 1 && div <= SOURCE_DIV_MAX && Self::fits(self.freq, div, self.mult, self.frac)
    }

    /// Whether the ratio `mult`, `frac` can replace the present one: it
    /// fits its fields, and what the loop then puts out can be written in
    /// hertz.
    pub fn loop_div_fits(&self, mult: u16, frac: u8) -> (ok: bool)
        ensures
            ok == (ratio_in_range(mult, frac) && output_hz(
                self.input_freq(),
                self.source_div(),
                mult,
                frac,
            ) <= u32::MAX),
    {
        proof {
            use_type_invariant(self);
        }
        mult >= 1 && mult <= RATIO_INT_MAX && frac <= RATIO_FRAC_MAX && Self::fits(
            self.freq,
            self.div,
            mult,
            frac,
        )
    }

    /// The reference divided, times the ratio in thirty-seconds: thirty-two
    /// times what the loop puts out, before what is below one hertz is
    /// dropped.
    fn scaled(freq: Hertz, div: u16, mult: u16, frac: u8) -> (r: u64)
        requires
            div >= 1,
        ensures
            r == (freq.0 as nat / div as nat) * (32 * (mult as nat + 1) + frac as nat),
            r / 32 == output_hz(freq, div, mult, frac),
    {
        let base: u64 = (freq.0 / div as u32) as u64;
        let ratio: u64 = 32 * (mult as u64 + 1) + frac as u64;
        assert(base * ratio <= 0xFFFF_FFFF * 0x20_00FF) by (nonlinear_arith)
            requires
                base <= 0xFFFF_FFFF,
                ratio <= 0x20_00FF,
        ;
        base * ratio
    }

    fn fits(freq: Hertz, div: u16, mult: u16, frac: u8) -> (ok: bool)
        requires
            div >= 1,
        ensures
            ok == (output_hz(freq, div, mult, frac) <= u32::MAX),
    {
        Self::scaled(freq, div, mult, frac) / 32 <= u32::MAX as u64
    }

    /// Attaches the reference `source` to the loop and counts the loop among
    /// the consumers of `source`. The ratio starts at one, the divider at
    /// one.
    pub fn from_xosc<S, N>(token: DpllToken<D>, source: Counted<S, N>, bus: &mut Bus) -> (r: (
        DpllConfig<D, T>,
        Counted<S, N::Inc>,
    )) where S: DpllSource<Type = T>, N: Increment
        requires
            input_in_window(source.inner().freq_spec()),
        ensures
            r.0.token() == token,
            r.0.input_freq() == source.inner().freq_spec(),
            r.0.source_div() == 1,
            r.0.loop_int() == 1,
            r.0.loop_frac() == 0,
            r.1.inner() == source.inner(),
            r.1.count() == source.count() + 1,
            final(bus)@ == old(bus)@.push(Op::Dpll(DpllOp::RefClk { pll: D::NUM, src: T::DPLL_SRC })),
    {
        let mut token = token;
        let freq = source.get().freq();
        let (mult, frac, div): (u16, u8, u16) = (1, 0, 1);
        token.set_source_clock(T::DPLL_SRC, bus);
        proof {
            lemma_output_at_start(freq);
        }
        let dpll = DpllConfig { token, src: PhantomData, freq, mult, frac, div };
        (dpll, source.inc())
    }

    /// Attaches the reference `source` to the loop if the loop takes its
    /// frequency, as [`from_xosc`](Self::from_xosc) does; if not, gives the
    /// token and the source back as they came.
    pub fn try_from_xosc<S, N>(token: DpllToken<D>, source: Counted<S, N>, bus: &mut Bus) -> (r:
        Result<(DpllConfig<D, T>, Counted<S, N::Inc>), (DpllToken<D>, Counted<S, N>)>) where
        S: DpllSource<Type = T>,
        N: Increment,

        ensures
            r is Ok == input_in_window(source.inner().freq_spec()),
            r matches Ok(ok) ==> {
                &&& ok.0.token() == token
                &&& ok.0.input_freq() == source.inner().freq_spec()
                &&& ok.0.source_div() == 1
                &&& ok.0.loop_int() == 1
                &&& ok.0.loop_frac() == 0
                &&& ok.1.inner() == source.inner()
                &&& ok.1.count() == source.count() + 1
                &&& final(bus)@ == old(bus)@.push(
                    Op::Dpll(DpllOp::RefClk { pll: D::NUM, src: T::DPLL_SRC }),
                )
            },
            r matches Err(back) ==> back.0 == token && back.1 == source && final(bus)@ == old(
                bus,
            )@,
    {
        if Self::accepts_input(source.get().freq()) {
            Ok(Self::from_xosc(token, source, bus))
        } else {
            Err((token, source))
        }
    }

    /// Switches the loop on if its output lies in the window, as
    /// [`enable`](Self::enable) does; if not, gives the configuration back
    /// as it came.
    pub fn try_enable(self, bus: &mut Bus) -> (r: Result<Counted<Dpll<D, T>, Zero>, Self>)
        ensures
            r is Ok == output_in_window(self.freq_spec()),
            input_in_window(self.input_freq()),
            r matches Ok(dpll) ==> dpll.inner().config() == self && output_in_window(
                dpll.inner().freq_spec(),
            ) && final(bus)@ == old(bus)@ + enable_ops(D::NUM, true),
            r matches Err(config) ==> config == self && final(bus)@ == old(bus)@,
    {
        proof {
            use_type_invariant(&self);
        }
        if self.can_enable() {
            Ok(self.enable(bus))
        } else {
            Err(self)
        }
    }

    /// Detaches the loop from its reference `source`, which loses a
    /// consumer.
    pub fn free_xosc<S, N>(self, source: Counted<S, N>) -> (r: (
        DpllToken<D>,
        Counted<S, N::Dec>,
    )) where S: DpllSource<Type = T>, N: Decrement
        ensures
            r.0 == self.token(),
            r.1.inner() == source.inner(),
            r.1.count() + 1 == source.count(),
    {
        (self.token, source.dec())
    }

    /// Sets the divider of the reference, which must fit its field of
    /// eleven bits.
    pub fn set_source_div(self, div: u16, bus: &mut Bus) -> (r: Self)
        requires
            source_div_in_range(div),
            output_hz(self.input_freq(), div, self.loop_int(), self.loop_frac()) <= u32::MAX,
        ensures
            r.token() == self.token(),
            r.input_freq() == self.input_freq(),
            r.source_div() == div,
            r.loop_int() == self.loop_int(),
            r.loop_frac() == self.loop_frac(),
            final(bus)@ == old(bus)@.push(Op::Dpll(DpllOp::Div { pll: D::NUM, div })),
    {
        proof {
            use_type_invariant(&self);
        }
        let DpllConfig { mut token, src, freq, mult, frac, div: _ } = self;
        token.set_source_div(div, bus);
        DpllConfig { token, src, freq, mult, frac, div }
    }

    /// Sets the ratio: its integer part `mult` and its fractional part
    /// `frac`, in thirty-seconds. Both must fit their fields.
    pub fn set_loop_div(self, mult: u16, frac: u8, bus: &mut Bus) -> (r: Self)
        requires
            ratio_in_range(mult, frac),
            output_hz(self.input_freq(), self.source_div(), mult, frac) <= u32::MAX,
        ensures
            r.token() == self.token(),
            r.input_freq() == self.input_freq(),
            r.source_div() == self.source_div(),
            r.loop_int() == mult,
            r.loop_frac() == frac,
            final(bus)@ == old(bus)@ + ratio_ops(D::NUM, mult, frac),
    {
        proof {
            use_type_invariant(&self);
        }
        let DpllConfig { mut token, src, freq, mult: _, frac: _, div } = self;
        token.set_loop_div(mult, frac, bus);
        DpllConfig { token, src, freq, mult, frac, div }
    }

    /// Sets the lock bypass flag.
    pub fn set_lock_bypass(self, bypass: bool, bus: &mut Bus) -> (r: Self)
        ensures
            r == self,
            final(bus)@ == old(bus)@.push(
                Op::Dpll(DpllOp::LockBypass { pll: D::NUM, flag: bypass }),
            ),
    {
        proof {
            use_type_invariant(&self);
        }
        let DpllConfig { mut token, src, freq, mult, frac, div } = self;
        token.set_lock_bypass(bypass, bus);
        DpllConfig { token, src, freq, mult, frac, div }
    }

    /// Sets the wake-up-fast flag.
    pub fn set_wake_up_fast(self, wuf: bool, bus: &mut Bus) -> (r: Self)
        ensures
            r == self,
            final(bus)@ == old(bus)@.push(Op::Dpll(DpllOp::WakeUpFast { pll: D::NUM, flag: wuf })),
    {
        proof {
            use_type_invariant(&self);
        }
        let DpllConfig { mut token, src, freq, mult, frac, div } = self;
        token.set_wake_up_fast(wuf, bus);
        DpllConfig { token, src, freq, mult, frac, div }
    }

    /// The frequency that the loop puts out.
    pub fn freq(&self) -> (hz: Hertz)
        ensures
            hz == self.freq_spec(),
            hz.0 == output_hz(
                self.input_freq(),
                self.source_div(),
                self.loop_int(),
                self.loop_frac(),
            ),
    {
        proof {
            use_type_invariant(self);
        }
        Hertz((Self::scaled(self.freq, self.div, self.mult, self.frac) / 32) as u32)
    }

    /// Switches the loop on. Its output must lie in the window; nothing
    /// depends on the loop yet.
    pub fn enable(self, bus: &mut Bus) -> (r: Counted<Dpll<D, T>, Zero>)
        requires
            output_in_window(self.freq_spec()),
        ensures
            r.inner().config() == self,
            input_in_window(r.inner().config().input_freq()),
            output_in_window(r.inner().freq_spec()),
            final(bus)@ == old(bus)@ + enable_ops(D::NUM, true),
    {
        proof {
            use_type_invariant(&self);
        }
        let DpllConfig { mut token, src, freq, mult, frac, div } = self;
        token.enable(bus);
        Counted::new(Dpll::new(DpllConfig { token, src, freq, mult, frac, div }))
    }
}

impl<D, T> DpllConfig<D, Pclk<D, T>> where D: DpllNum + PclkType, T: PclkSourceType {
    /// Attaches the loop's peripheral channel to the loop as its reference.
    /// The ratio starts at one, the divider at one.
    pub fn from_pclk(token: DpllToken<D>, pclk: Pclk<D, T>, bus: &mut Bus) -> (r: Self)
        requires
            input_in_window(pclk.freq_spec()),
        ensures
            r.token() == token,
            r.input_freq() == pclk.freq_spec(),
            r.source_div() == 1,
            r.loop_int() == 1,
            r.loop_frac() == 0,
            final(bus)@ == old(bus)@.push(
                Op::Dpll(DpllOp::RefClk { pll: <D as DpllNum>::NUM, src: DpllSrc::GCLK }),
            ),
    {
        let mut token = token;
        let freq = pclk.freq();
        let (mult, frac, div): (u16, u8, u16) = (1, 0, 1);
        token.set_source_clock(Pclk::<D, T>::DPLL_SRC, bus);
        proof {
            lemma_output_at_start(freq);
        }
        DpllConfig { token, src: PhantomData, freq, mult, frac, div }
    }

    /// Attaches the loop's peripheral channel to the loop if the loop takes
    /// its frequency, as [`from_pclk`](Self::from_pclk) does; if not, gives
    /// the token and the channel back as they came.
    pub fn try_from_pclk(token: DpllToken<D>, pclk: Pclk<D, T>, bus: &mut Bus) -> (r: Result<
        Self,
        (DpllToken<D>, Pclk<D, T>),
    >)
        ensures
            r is Ok == input_in_window(pclk.freq_spec()),
            r matches Ok(config) ==> {
                &&& config.token() == token
                &&& config.input_freq() == pclk.freq_spec()
                &&& config.source_div() == 1
                &&& config.loop_int() == 1
                &&& config.loop_frac() == 0
                &&& final(bus)@ == old(bus)@.push(
                    Op::Dpll(DpllOp::RefClk { pll: <D as DpllNum>::NUM, src: DpllSrc::GCLK }),
                )
            },
            r matches Err(back) ==> back.0 == token && back.1 == pclk && final(bus)@ == old(bus)@,
    {
        let hz = pclk.freq();
        if hz.0 >= INPUT_MIN_HZ && hz.0 <= INPUT_MAX_HZ {
            Ok(Self::from_pclk(token, pclk, bus))
        } else {
            Err((token, pclk))
        }
    }

    /// Detaches the loop from its peripheral channel and gives both back;
    /// the channel carries the frequency that it came with.
    pub fn free_pclk(self) -> (r: (DpllToken<D>, Pclk<D, T>))
        ensures
            r.0 == self.token(),
            r.1.freq_spec() == self.input_freq(),
    {
        let pclk = Pclk::create(self.freq);
        (self.token, pclk)
    }
}

//==============================================================================
// Dpll
//==============================================================================
/// A running loop.
pub struct Dpll<D, T> where D: DpllNum, T: DpllSourceType {
    config: DpllConfig<D, T>,
}

/// Loop 0, running.
pub type Dpll0<T> = Dpll<Pll0, T>;

/// Loop 1, running.
pub type Dpll1<T> = Dpll<Pll1, T>;

impl<D, T> Sealed for Dpll<D, T> where D: DpllNum, T: DpllSourceType {

}

impl<D, T> Dpll<D, T> where D: DpllNum, T: DpllSourceType {
    #[verifier::type_invariant]
    spec fn inv(self) -> bool {
        &&& self.config.inv()
        &&& output_in_window(self.config.freq_spec())
    }

    /// The configuration that the loop runs with.
    pub closed spec fn config(self) -> DpllConfig<D, T> {
        self.config
    }

    /// The frequency that the loop puts out.
    pub open spec fn freq_spec(self) -> Hertz {
        self.config().freq_spec()
    }

    fn new(config: DpllConfig<D, T>) -> (r: Self)
        requires
            output_in_window(config.freq_spec()),
        ensures
            r.config() == config,
    {
        proof {
            use_type_invariant(&config);
        }
        Dpll { config }
    }

    /// Switches the loop off.
    fn disable(self, bus: &mut Bus) -> (r: DpllConfig<D, T>)
        ensures
            r == self.config(),
            final(bus)@ == old(bus)@ + enable_ops(D::NUM, false),
    {
        proof {
            use_type_invariant(&self);
        }
        let DpllConfig { mut token, src, freq, mult, frac, div } = self.config;
        token.disable(bus);
        DpllConfig { token, src, freq, mult, frac, div }
    }

    /// Waits until the loop's output is ready.
    pub fn wait_until_ready(&self, bus: &mut Bus)
        ensures
            final(bus)@ == old(bus)@.push(Op::Dpll(DpllOp::WaitReady { pll: D::NUM })),
    {
        self.config.token.wait_until_ready(bus);
    }

    /// Waits until the loop has locked on its reference.
    pub fn wait_until_locked(&self, bus: &mut Bus)
        ensures
            final(bus)@ == old(bus)@.push(Op::Dpll(DpllOp::WaitLocked { pll: D::NUM })),
    {
        self.config.token.wait_until_locked(bus);
    }

    /// The frequency that the loop puts out. It lies in the window of the
    /// output, and the reference in the window of the input: no loop runs
    /// otherwise.
    pub fn freq(&self) -> (hz: Hertz)
        ensures
            hz == self.freq_spec(),
            hz.0 == output_hz(
                self.config().input_freq(),
                self.config().source_div(),
                self.config().loop_int(),
                self.config().loop_frac(),
            ),
            output_in_window(hz),
            input_in_window(self.config().input_freq()),
    {
        proof {
            use_type_invariant(self);
        }
        self.config.freq()
    }
}

impl<D, T> Counted<Dpll<D, T>, Zero> where D: DpllNum, T: DpllSourceType {
    /// Switches the loop off. Only a loop that nothing depends on has this
    /// operation.
    pub fn disable(self, bus: &mut Bus) -> (r: DpllConfig<D, T>)
        ensures
            r == self.inner().config(),
            final(bus)@ == old(bus)@ + enable_ops(D::NUM, false),
    {
        self.into_inner().disable(bus)
    }
}

//==============================================================================
// GclkSource
//==============================================================================
impl GclkSourceType for Pll0 {
    const GCLK_SRC: GclkSourceEnum = GclkSourceEnum::DPLL0;
}

impl GclkSourceType for Pll1 {
    const GCLK_SRC: GclkSourceEnum = GclkSourceEnum::DPLL1;
}

impl<G, D, T> GclkSource<G> for Dpll<D, T> where
    G: GenNum,
    D: DpllNum + GclkSourceType,
    T: DpllSourceType,
 {
    type Type = D;

    open spec fn freq_spec(&self) -> Hertz {
        self.config().freq_spec()
    }

    fn freq(&self) -> (hz: Hertz)
        ensures
            hz.0 == output_hz(
                self.config().input_freq(),
                self.config().source_div(),
                self.config().loop_int(),
                self.config().loop_frac(),
            ),
            output_in_window(hz),
    {
        proof {
            use_type_invariant(self);
        }
        self.config.freq()
    }
}

//==============================================================================
// Constants
//==============================================================================
/// The constants of the loops: loop `n` has the index `n` and the
/// peripheral channel `n + 1`; generators call the loops `DPLL0` and
/// `DPLL1`.
pub proof fn lemma_pll_constants()
    ensures
        <Pll0 as DpllNum>::NUM == 0 && <Pll1 as DpllNum>::NUM == 1,
        <Pll0 as PclkType>::ID == 1 && <Pll1 as PclkType>::ID == 2,
        <Pll0 as GclkSourceType>::GCLK_SRC == GclkSourceEnum::DPLL0,
        <Pll1 as GclkSourceType>::GCLK_SRC == GclkSourceEnum::DPLL1,
{
}

/// A loop calls its peripheral channel `GCLK`, whatever feeds the channel.
pub proof fn lemma_channel_reference<D: DpllNum + PclkType, T: PclkSourceType>()
    ensures
        <Pclk<D, T> as DpllSourceType>::DPLL_SRC == DpllSrc::GCLK,
{
}

} // verus!
