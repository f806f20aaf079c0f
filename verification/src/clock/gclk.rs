//! Generic clock generators.
//!
//! A generator takes one source, divides it, and hands the result to any
//! number of peripheral channels. Its life is a chain of types: the bare
//! [`GclkToken`], the [`GclkConfig`] with a source attached, and the enabled
//! [`Gclk`], which is counted by its consumers.
use core::marker::PhantomData;
use num_traits::AsPrimitive;
use vstd::arithmetic::power2::{lemma2_to64, pow2};
use vstd::prelude::*;
use crate::bus::{Bus, Op};
use crate::nvm::NvmOp;
use crate::pac::NVMCTRL;
use crate::clock::pclk::{Dfll48, Pclk, PclkSourceType};
use crate::clock::sources::dfll::{marker, ClosedLoop, Dfll, OpenLoop};
use crate::time::Hertz;
use crate::typelevel::counted::Counted;
use crate::typelevel::{Count, Decrement, Increment, One, Sealed, Zero};

verus! {

//==============================================================================
// Transactions
//==============================================================================
/// What a generator can take its input from.
#[derive(Clone, Copy, Debug, PartialEq, Eq)]
pub enum GclkSourceEnum {
    /// External oscillator 0.
    XOSC0,
    /// External oscillator 1.
    XOSC1,
    /// The generator's input pad.
    GCLKIN,
    /// The output of generator 1.
    GCLKGEN1,
    /// The ultra low power 32 kHz oscillator.
    OSCULP32K,
    /// The external 32 kHz oscillator.
    XOSC32K,
    /// The frequency locked loop.
    DFLL,
    /// Phase locked loop 0.
    DPLL0,
    /// Phase locked loop 1.
    DPLL1,
}

/// How a generator reads its divider field.
#[derive(Clone, Copy, Debug, PartialEq, Eq)]
pub enum DivSel {
    /// The input is divided by the field's value; zero divides by one.
    Div1,
    /// The input is divided by two to the power of the field's value plus one.
    Div2,
}

/// One transaction with the generic clock controller.
#[derive(Clone, Copy, Debug, PartialEq, Eq)]
pub enum GclkOp {
    /// Select the input of generator `gen`.
    Source { gen: usize, src: GclkSourceEnum },
    /// Write the divider select flag and the divider field of generator
    /// `gen`, in one access.
    Divider { gen: usize, divsel: DivSel, div: u16 },
    /// Write the improve-duty-cycle flag of generator `gen`.
    DutyCycle { gen: usize, flag: bool },
    /// Drive the output pad of generator `gen`, which rests at `pol` while
    /// the generator is off.
    OutputOn { gen: usize, pol: bool },
    /// Stop driving the output pad of generator `gen`.
    OutputOff { gen: usize },
    /// Write the enable bit of generator `gen`.
    Enable { gen: usize, flag: bool },
    /// Wait until none of the generators in `mask` has a write pending.
    Sync { mask: u16 },
}

//==============================================================================
// Divider values
//==============================================================================
/// `u8` to `u16`, by `AsPrimitive::as_` of num-traits, which is the `as`
/// operator: the number is kept.
#[verifier::external_body]
fn u8_as_u16(x: u8) -> (r: u16)
    ensures
        r == x,
{
    AsPrimitive::<u16>::as_(x)
}

/// `u8` to `u32`, by `AsPrimitive::as_` of num-traits, which is the `as`
/// operator: the number is kept.
#[verifier::external_body]
fn u8_as_u32(x: u8) -> (r: u32)
    ensures
        r == x,
{
    AsPrimitive::<u32>::as_(x)
}

/// `u16` to `u16`, by `AsPrimitive::as_` of num-traits, which is the `as`
/// operator: the number is kept.
#[verifier::external_body]
fn u16_as_u16(x: u16) -> (r: u16)
    ensures
        r == x,
{
    AsPrimitive::<u16>::as_(x)
}

/// `u16` to `u32`, by `AsPrimitive::as_` of num-traits, which is the `as`
/// operator: the number is kept.
#[verifier::external_body]
fn u16_as_u32(x: u16) -> (r: u32)
    ensures
        r == x,
{
    AsPrimitive::<u32>::as_(x)
}

/// An integer that fits a generator's divider field.
pub trait DivValue: Copy {
    /// The number that the value stands for.
    spec fn as_nat(self) -> nat;

    /// The largest number that the type holds.
    spec fn max() -> nat;

    /// No value is above `max`.
    proof fn range(self)
        ensures
            self.as_nat() <= Self::max(),
    ;

    /// The value as the register field takes it.
    fn as_u16(self) -> (r: u16)
        ensures
            r == self.as_nat(),
    ;

    /// The value as a division factor is counted.
    fn as_u32(self) -> (r: u32)
        ensures
            r == self.as_nat(),
    ;
}

impl DivValue for u8 {
    open spec fn as_nat(self) -> nat {
        self as nat
    }

    open spec fn max() -> nat {
        255
    }

    proof fn range(self) {
    }

    fn as_u16(self) -> (r: u16) {
        u8_as_u16(self)
    }

    fn as_u32(self) -> (r: u32) {
        u8_as_u32(self)
    }
}

impl DivValue for u16 {
    open spec fn as_nat(self) -> nat {
        self as nat
    }

    open spec fn max() -> nat {
        65535
    }

    proof fn range(self) {
    }

    fn as_u16(self) -> (r: u16) {
        u16_as_u16(self)
    }

    fn as_u32(self) -> (r: u32) {
        u16_as_u32(self)
    }
}

//==============================================================================
// GenNum
//==============================================================================
/// The identity of one generator, as a type.
pub trait GenNum: Sealed {
    /// The generator's index.
    const NUM: usize;

    /// The integer that the plain divider field holds.
    type Div: DivValue;

    /// The number of bits of the divider field.
    const DIV_WIDTH: u16;

    /// The largest division factor, which only the boosted encoding reaches.
    const DIV_MAX: u32;

    /// What holds of every generator: there are twelve of them, the divider
    /// field is as wide as `Div`, and the largest factor is two to the power
    /// of that width plus one.
    proof fn bounds()
        ensures
            Self::NUM < 12,
            (Self::DIV_WIDTH == 8 && <Self::Div as DivValue>::max() == 255 && Self::DIV_MAX == 512)
                || (Self::DIV_WIDTH == 16 && <Self::Div as DivValue>::max() == 65535
                && Self::DIV_MAX == 131072),
    ;
}

/// Every generator but generator 0, which clocks the processor.
pub trait NotGen0: GenNum {

}

/// Generator 0.
pub enum Gen0 {
    /// The type is a marker; its value is never looked at.
    Marker,
}

impl Sealed for Gen0 {

}

impl GenNum for Gen0 {
    const NUM: usize = 0;

    type Div = u8;

    const DIV_WIDTH: u16 = 8;

    const DIV_MAX: u32 = 512;

    proof fn bounds() {
    }
}

/// Generator 1, the only one with a divider field of sixteen bits, and the
/// only one that can feed other generators.
pub enum Gen1 {
    /// The type is a marker; its value is never looked at.
    Marker,
}

impl Sealed for Gen1 {

}

impl NotGen0 for Gen1 {

}

impl GenNum for Gen1 {
    const NUM: usize = 1;

    type Div = u16;

    const DIV_WIDTH: u16 = 16;

    const DIV_MAX: u32 = 131072;

    proof fn bounds() {
    }
}

/// Generator 2.
pub enum Gen2 {
    /// The type is a marker; its value is never looked at.
    Marker,
}

impl Sealed for Gen2 {

}

impl NotGen0 for Gen2 {

}

impl GenNum for Gen2 {
    const NUM: usize = 2;

    type Div = u8;

    const DIV_WIDTH: u16 = 8;

    const DIV_MAX: u32 = 512;

    proof fn bounds() {
    }
}

/// Generator 3.
pub enum Gen3 {
    /// The type is a marker; its value is never looked at.
    Marker,
}

impl Sealed for Gen3 {

}

impl NotGen0 for Gen3 {

}

impl GenNum for Gen3 {
    const NUM: usize = 3;

    type Div = u8;

    const DIV_WIDTH: u16 = 8;

    const DIV_MAX: u32 = 512;

    proof fn bounds() {
    }
}

/// Generator 4.
pub enum Gen4 {
    /// The type is a marker; its value is never looked at.
    Marker,
}

impl Sealed for Gen4 {

}

impl NotGen0 for Gen4 {

}

impl GenNum for Gen4 {
    const NUM: usize = 4;

    type Div = u8;

    const DIV_WIDTH: u16 = 8;

    const DIV_MAX: u32 = 512;

    proof fn bounds() {
    }
}

/// Generator 5.
pub enum Gen5 {
    /// The type is a marker; its value is never looked at.
    Marker,
}

impl Sealed for Gen5 {

}

impl NotGen0 for Gen5 {

}

impl GenNum for Gen5 {
    const NUM: usize = 5;

    type Div = u8;

    const DIV_WIDTH: u16 = 8;

    const DIV_MAX: u32 = 512;

    proof fn bounds() {
    }
}

/// Generator 6.
pub enum Gen6 {
    /// The type is a marker; its value is never looked at.
    Marker,
}

impl Sealed for Gen6 {

}

impl NotGen0 for Gen6 {

}

impl GenNum for Gen6 {
    const NUM: usize = 6;

    type Div = u8;

    const DIV_WIDTH: u16 = 8;

    const DIV_MAX: u32 = 512;

    proof fn bounds() {
    }
}

/// Generator 7.
pub enum Gen7 {
    /// The type is a marker; its value is never looked at.
    Marker,
}

impl Sealed for Gen7 {

}

impl NotGen0 for Gen7 {

}

impl GenNum for Gen7 {
    const NUM: usize = 7;

    type Div = u8;

    const DIV_WIDTH: u16 = 8;

    const DIV_MAX: u32 = 512;

    proof fn bounds() {
    }
}

/// Generator 8.
pub enum Gen8 {
    /// The type is a marker; its value is never looked at.
    Marker,
}

impl Sealed for Gen8 {

}

impl NotGen0 for Gen8 {

}

impl GenNum for Gen8 {
    const NUM: usize = 8;

    type Div = u8;

    const DIV_WIDTH: u16 = 8;

    const DIV_MAX: u32 = 512;

    proof fn bounds() {
    }
}

/// Generator 9.
pub enum Gen9 {
    /// The type is a marker; its value is never looked at.
    Marker,
}

impl Sealed for Gen9 {

}

impl NotGen0 for Gen9 {

}

impl GenNum for Gen9 {
    const NUM: usize = 9;

    type Div = u8;

    const DIV_WIDTH: u16 = 8;

    const DIV_MAX: u32 = 512;

    proof fn bounds() {
    }
}

/// Generator 10.
pub enum Gen10 {
    /// The type is a marker; its value is never looked at.
    Marker,
}

impl Sealed for Gen10 {

}

impl NotGen0 for Gen10 {

}

impl GenNum for Gen10 {
    const NUM: usize = 10;

    type Div = u8;

    const DIV_WIDTH: u16 = 8;

    const DIV_MAX: u32 = 512;

    proof fn bounds() {
    }
}

/// Generator 11.
pub enum Gen11 {
    /// The type is a marker; its value is never looked at.
    Marker,
}

impl Sealed for Gen11 {

}

impl NotGen0 for Gen11 {

}

impl GenNum for Gen11 {
    const NUM: usize = 11;

    type Div = u8;

    const DIV_WIDTH: u16 = 8;

    const DIV_MAX: u32 = 512;

    proof fn bounds() {
    }
}

//==============================================================================
// Div
//==============================================================================
/// The factor by which a generator divides, given the divider select flag and
/// the value of the divider field.
pub open spec fn division_factor(divsel: DivSel, field: nat) -> nat {
    match divsel {
        DivSel::Div1 => if field == 0 {
            1
        } else {
            field
        },
        DivSel::Div2 => pow2(field + 1),
    }
}

/// A generator's divider.
///
/// `Div` holds a plain divisor, as wide as the generator's divider field:
/// sixteen bits for generator 1 and eight bits for the others. `Max` is the
/// one factor above that range, which the divider select flag reaches.
pub enum Div<G: GenNum> {
    /// Divide by the value; zero, like one, does not divide.
    Div(G::Div),
    /// Divide by the largest factor of the generator.
    Max,
}

impl<G: GenNum> Clone for Div<G> {
    fn clone(&self) -> (r: Self)
        ensures
            r == *self,
    {
        *self
    }
}

impl<G: GenNum> Copy for Div<G> {

}

impl<G: GenNum> Div<G> {
    /// The divider select flag that encodes the divider.
    pub open spec fn divsel(self) -> DivSel {
        match self {
            Div::Div(_) => DivSel::Div1,
            Div::Max => DivSel::Div2,
        }
    }

    /// The value of the divider field that encodes the divider.
    pub open spec fn field(self) -> nat {
        match self {
            Div::Div(div) => div.as_nat(),
            Div::Max => G::DIV_WIDTH as nat,
        }
    }

    /// The factor by which the generator then divides.
    pub open spec fn factor(self) -> nat {
        division_factor(self.divsel(), self.field())
    }

    /// The divider select flag and the divider field that encode the divider.
    pub fn encode(&self) -> (r: (DivSel, u16))
        ensures
            r.0 == self.divsel(),
            r.1 == self.field(),
    {
        match self {
            Div::Div(div) => (DivSel::Div1, div.as_u16()),
            Div::Max => (DivSel::Div2, G::DIV_WIDTH),
        }
    }

    /// The factor by which the generator divides.
    pub fn as_u32(&self) -> (r: u32)
        ensures
            r == self.factor(),
            r >= 1,
    {
        proof {
            G::bounds();
            lemma2_to64();
        }
        match self {
            Div::Div(div) => {
                let raw = div.as_u32();
                if raw == 0 {
                    1
                } else {
                    raw
                }
            },
            Div::Max => G::DIV_MAX,
        }
    }

    /// A plain divider stays below the largest factor, which only `Max`
    /// stands for; and that factor is two to the power of the field's width
    /// plus one.
    pub proof fn lemma_factor_range(self)
        ensures
            1 <= self.factor() <= G::DIV_MAX,
            self is Div ==> self.factor() <= <G::Div as DivValue>::max() < G::DIV_MAX,
            self is Max ==> self.factor() == G::DIV_MAX == pow2((G::DIV_WIDTH + 1) as nat),
    {
        G::bounds();
        lemma2_to64();
        match self {
            Div::Div(div) => {
                div.range();
            },
            Div::Max => {},
        }
    }
}

/// A frequency divided by a factor of at least one is no more than the
/// frequency.
pub proof fn lemma_quotient_fits(hz: u32, factor: nat)
    requires
        factor >= 1,
    ensures
        hz as nat / factor <= hz,
        ((hz as nat / factor) as u32) as nat == hz as nat / factor,
{
    vstd::arithmetic::div_mod::lemma_div_is_ordered_by_denominator(hz as int, 1, factor as int);
    assert(hz as int / 1 == hz);
}

//==============================================================================
// Registers
//==============================================================================
/// The registers of generator `G`. There is one value of this type for each
/// generator, and whoever holds it has the generator to itself.
///
/// The token keeps the factor of the divider that was last written, which
/// the registers hold until the next write: a generator that is freed and
/// attached again divides as before.
pub struct Registers<G: GenNum> {
    gen: PhantomData<G>,
    div: u32,
}

/// The token of generator `G`.
pub type GclkToken<G> = Registers<G>;

/// The bit of generator `num` in the mask of pending writes.
pub open spec fn sync_mask(num: usize) -> u16 {
    1u16 << (num as u16)
}

/// The transactions that select a generator's source.
pub open spec fn source_ops(gen: usize, src: GclkSourceEnum) -> Seq<Op> {
    seq![Op::Gclk(GclkOp::Source { gen, src }), Op::Gclk(GclkOp::Sync { mask: sync_mask(gen) })]
}

/// The transactions that write a generator's divider.
pub open spec fn divider_ops(gen: usize, divsel: DivSel, field: nat) -> Seq<Op> {
    seq![
        Op::Gclk(GclkOp::Divider { gen, divsel, div: field as u16 }),
        Op::Gclk(GclkOp::Sync { mask: sync_mask(gen) }),
    ]
}

/// The transactions that write a generator's improve-duty-cycle flag.
pub open spec fn duty_cycle_ops(gen: usize, flag: bool) -> Seq<Op> {
    seq![Op::Gclk(GclkOp::DutyCycle { gen, flag }), Op::Gclk(GclkOp::Sync { mask: sync_mask(gen) })]
}

/// The transactions that switch a generator on or off.
pub open spec fn enable_ops(gen: usize, flag: bool) -> Seq<Op> {
    seq![Op::Gclk(GclkOp::Enable { gen, flag }), Op::Gclk(GclkOp::Sync { mask: sync_mask(gen) })]
}

impl<G: GenNum> Registers<G> {
    #[verifier::type_invariant]
    spec fn inv(self) -> bool {
        self.div >= 1
    }

    /// The factor by which the generator divides, as its registers stand.
    pub closed spec fn factor(self) -> nat {
        self.div as nat
    }

    /// This token after the divider `div` was written.
    pub closed spec fn with_div(self, div: Div<G>) -> Self {
        Registers { gen: self.gen, div: div.factor() as u32 }
    }

    /// Writing a divider leaves its factor in the token, and writing the
    /// same divider again changes nothing.
    pub proof fn lemma_with_div(self, div: Div<G>)
        ensures
            self.with_div(div).factor() == div.factor(),
            self.with_div(div).with_div(div) == self.with_div(div),
    {
        div.lemma_factor_range();
        G::bounds();
    }

    /// The token of generator `G`, as it is after reset: the generator does
    /// not divide. Each generator has one.
    pub(crate) fn new() -> (r: Self)
        ensures
            r.factor() == 1,
    {
        Registers { gen: PhantomData, div: 1 }
    }

    /// The factor by which the generator divides, as its registers stand.
    pub fn last_factor(&self) -> (factor: u32)
        ensures
            factor == self.factor(),
            factor >= 1,
    {
        proof {
            use_type_invariant(self);
        }
        self.div
    }

    /// The generator's bit in the mask of pending writes.
    fn mask(&self) -> (m: u16)
        ensures
            m == sync_mask(G::NUM),
    {
        proof {
            G::bounds();
        }
        1u16 << (G::NUM as u16)
    }

    /// Waits until the generator's last write has reached its clock domain.
    fn wait_syncbusy(&self, bus: &mut Bus)
        ensures
            final(bus)@ == old(bus)@.push(Op::Gclk(GclkOp::Sync { mask: sync_mask(G::NUM) })),
    {
        bus.push(Op::Gclk(GclkOp::Sync { mask: self.mask() }));
    }

    /// Selects the generator's source.
    fn set_source(&mut self, variant: GclkSourceEnum, bus: &mut Bus)
        ensures
            *final(self) == *old(self),
            final(bus)@ == old(bus)@ + source_ops(G::NUM, variant),
    {
        bus.push(Op::Gclk(GclkOp::Source { gen: G::NUM, src: variant }));
        self.wait_syncbusy(bus);
        assert(final(bus)@ =~= old(bus)@ + source_ops(G::NUM, variant));
    }

    /// Writes the generator's divider: the plain field for `Div::Div`, the
    /// select flag and the field's width for `Div::Max`.
    fn set_div(&mut self, div: Div<G>, bus: &mut Bus)
        ensures
            *final(self) == old(self).with_div(div),
            final(bus)@ == old(bus)@ + divider_ops(G::NUM, div.divsel(), div.field()),
    {
        self.div = div.as_u32();
        match div {
            Div::Div(div) => {
                bus.push(
                    Op::Gclk(GclkOp::Divider { gen: G::NUM, divsel: DivSel::Div1, div: div.as_u16() }),
                );
            },
            Div::Max => {
                bus.push(
                    Op::Gclk(
                        GclkOp::Divider { gen: G::NUM, divsel: DivSel::Div2, div: G::DIV_WIDTH },
                    ),
                );
            },
        }
        self.wait_syncbusy(bus);
        assert(final(bus)@ =~= old(bus)@ + divider_ops(G::NUM, div.divsel(), div.field()));
    }

    /// Writes the improve-duty-cycle flag, which makes the duty cycle even
    /// for odd division factors.
    fn improve_duty_cycle(&mut self, flag: bool, bus: &mut Bus)
        ensures
            *final(self) == *old(self),
            final(bus)@ == old(bus)@ + duty_cycle_ops(G::NUM, flag),
    {
        bus.push(Op::Gclk(GclkOp::DutyCycle { gen: G::NUM, flag }));
        self.wait_syncbusy(bus);
        assert(final(bus)@ =~= old(bus)@ + duty_cycle_ops(G::NUM, flag));
    }

    /// Drives the generator's output pad.
    fn enable_gclk_out(&mut self, pol: bool, bus: &mut Bus)
        ensures
            *final(self) == *old(self),
            final(bus)@ == old(bus)@.push(Op::Gclk(GclkOp::OutputOn { gen: G::NUM, pol })).push(
                Op::Gclk(GclkOp::Sync { mask: sync_mask(G::NUM) }),
            ),
    {
        bus.push(Op::Gclk(GclkOp::OutputOn { gen: G::NUM, pol }));
        self.wait_syncbusy(bus);
    }

    /// Stops driving the generator's output pad.
    fn disable_gclk_out(&mut self, bus: &mut Bus)
        ensures
            *final(self) == *old(self),
            final(bus)@ == old(bus)@.push(Op::Gclk(GclkOp::OutputOff { gen: G::NUM })).push(
                Op::Gclk(GclkOp::Sync { mask: sync_mask(G::NUM) }),
            ),
    {
        bus.push(Op::Gclk(GclkOp::OutputOff { gen: G::NUM }));
        self.wait_syncbusy(bus);
    }

    /// Switches the generator on.
    fn enable(&mut self, bus: &mut Bus)
        ensures
            *final(self) == *old(self),
            final(bus)@ == old(bus)@ + enable_ops(G::NUM, true),
    {
        bus.push(Op::Gclk(GclkOp::Enable { gen: G::NUM, flag: true }));
        self.wait_syncbusy(bus);
        assert(final(bus)@ =~= old(bus)@ + enable_ops(G::NUM, true));
    }

    /// Switches the generator off.
    fn disable(&mut self, bus: &mut Bus)
        ensures
            *final(self) == *old(self),
            final(bus)@ == old(bus)@ + enable_ops(G::NUM, false),
    {
        bus.push(Op::Gclk(GclkOp::Enable { gen: G::NUM, flag: false }));
        self.wait_syncbusy(bus);
        assert(final(bus)@ =~= old(bus)@ + enable_ops(G::NUM, false));
    }
}

//==============================================================================
// GclkSource
//==============================================================================
/// The kind of a source, as a type: what the generator's source field is set
/// to.
pub trait GclkSourceType: Sealed {
    /// The value of the source field.
    const GCLK_SRC: GclkSourceEnum;
}

/// A node that can feed generator `G`.
pub trait GclkSource<G: GenNum>: Sealed {
    /// The kind of the source.
    type Type: GclkSourceType;

    /// The frequency that the node puts out.
    spec fn freq_spec(&self) -> Hertz;

    /// The frequency that the node puts out.
    fn freq(&self) -> (hz: Hertz)
        ensures
            hz == self.freq_spec(),
    ;
}

//==============================================================================
// GclkConfig
//==============================================================================
/// A generator with its source attached, not yet running. The divider and
/// the duty cycle are set in this state only.
pub struct GclkConfig<G, T> where G: GenNum, T: GclkSourceType {
    token: GclkToken<G>,
    src: PhantomData<T>,
    freq: Hertz,
}

impl<G, T> GclkConfig<G, T> where G: GenNum, T: GclkSourceType {
    /// The generator's token.
    pub closed spec fn token(self) -> GclkToken<G> {
        self.token
    }

    /// The frequency of the source.
    pub closed spec fn source_freq(self) -> Hertz {
        self.freq
    }

    /// The factor by which the generator divides: the one that its token
    /// keeps.
    pub open spec fn divider(self) -> nat {
        self.token().factor()
    }

    /// The frequency that the generator puts out: that of the source,
    /// divided.
    pub open spec fn freq_spec(self) -> Hertz {
        Hertz((self.source_freq().0 as nat / self.divider()) as u32)
    }

    /// The configuration that attaching a source of frequency `freq` to
    /// `token` gives: the source, divided as the token's registers stand.
    pub closed spec fn attached(token: GclkToken<G>, freq: Hertz) -> Self {
        GclkConfig { token, src: PhantomData, freq }
    }

    /// This configuration with the divider replaced.
    pub closed spec fn with_div(self, div: Div<G>) -> Self {
        GclkConfig { token: self.token.with_div(div), src: self.src, freq: self.freq }
    }

    /// What `attached` and `with_div` hold: the token, the source's
    /// frequency and the factor.
    pub proof fn lemma_model(token: GclkToken<G>, freq: Hertz, div: Div<G>)
        ensures
            Self::attached(token, freq).token() == token,
            Self::attached(token, freq).source_freq() == freq,
            Self::attached(token, freq).divider() == token.factor(),
            forall|c: Self| #[trigger] c.with_div(div).token() == c.token().with_div(div),
            forall|c: Self| #[trigger] c.with_div(div).source_freq() == c.source_freq(),
            forall|c: Self| #[trigger] c.with_div(div).divider() == div.factor(),
    {
        div.lemma_factor_range();
        G::bounds();
    }

    /// Attaches `source` to the generator: selects it as the generator's
    /// input and counts the generator among its consumers. The divider is
    /// not written: the generator divides as its token says it last did, by
    /// one if it never did.
    pub fn new<S, N>(token: GclkToken<G>, source: Counted<S, N>, bus: &mut Bus) -> (r: (
        GclkConfig<G, T>,
        Counted<S, N::Inc>,
    )) where S: GclkSource<G, Type = T>, N: Increment
        ensures
            r.0 == Self::attached(token, source.inner().freq_spec()),
            r.0.token() == token,
            r.0.source_freq() == source.inner().freq_spec(),
            r.0.divider() == token.factor(),
            r.0.divider() >= 1,
            r.0.freq_spec().0 == source.inner().freq_spec().0 as nat / token.factor(),
            r.1.inner() == source.inner(),
            r.1.count() == source.count() + 1,
            final(bus)@ == old(bus)@ + source_ops(G::NUM, T::GCLK_SRC),
    {
        let mut token = token;
        let freq = source.get().freq();
        token.set_source(T::GCLK_SRC, bus);
        proof {
            use_type_invariant(&token);
            lemma_quotient_fits(freq.0, token.factor());
        }
        let config = GclkConfig { token, src: PhantomData, freq };
        (config, source.inc())
    }

    /// Detaches the generator from `source`: gives the token back and counts
    /// one consumer fewer. No register is written.
    pub fn free<S, N>(self, source: Counted<S, N>) -> (r: (GclkToken<G>, Counted<S, N::Dec>)) where
        S: GclkSource<G, Type = T>,
        N: Decrement,

        ensures
            r.0 == self.token(),
            r.1.inner() == source.inner(),
            r.1.count() + 1 == source.count(),
    {
        (self.token, source.dec())
    }

    /// Moves the generator from the source `from` to the source `to`, as
    /// `free` followed by `new`: the divider stays, so the generator then
    /// puts out the frequency of `to`, divided as before.
    pub fn swap<Old, New, NO, NN>(
        self,
        from: Counted<Old, NO>,
        to: Counted<New, NN>,
        bus: &mut Bus,
    ) -> (r: (GclkConfig<G, New::Type>, Counted<Old, NO::Dec>, Counted<New, NN::Inc>)) where
        Old: GclkSource<G, Type = T>,
        New: GclkSource<G>,
        NO: Decrement,
        NN: Increment,

        ensures
            r.0 == GclkConfig::<G, New::Type>::attached(self.token(), to.inner().freq_spec()),
            r.0.token() == self.token(),
            r.0.source_freq() == to.inner().freq_spec(),
            r.0.divider() == self.divider(),
            r.0.divider() >= 1,
            r.0.freq_spec().0 == to.inner().freq_spec().0 as nat / self.divider(),
            r.1.inner() == from.inner(),
            r.1.count() + 1 == from.count(),
            r.2.inner() == to.inner(),
            r.2.count() == to.count() + 1,
            final(bus)@ == old(bus)@ + source_ops(G::NUM, <New::Type as GclkSourceType>::GCLK_SRC),
    {
        let (token, from) = self.free(from);
        let (config, to) = GclkConfig::new(token, to, bus);
        (config, from, to)
    }

    /// Sets the divider.
    pub fn div(self, div: Div<G>, bus: &mut Bus) -> (r: Self)
        ensures
            r == self.with_div(div),
            r.token() == self.token().with_div(div),
            r.source_freq() == self.source_freq(),
            r.divider() == div.factor(),
            final(bus)@ == old(bus)@ + divider_ops(G::NUM, div.divsel(), div.field()),
    {
        let GclkConfig { mut token, src, freq } = self;
        token.set_div(div, bus);
        proof {
            token.lemma_with_div(div);
            self.token.lemma_with_div(div);
        }
        GclkConfig { token, src, freq }
    }

    /// Sets the improve-duty-cycle flag.
    pub fn improve_duty_cycle(self, flag: bool, bus: &mut Bus) -> (r: Self)
        ensures
            r == self,
            final(bus)@ == old(bus)@ + duty_cycle_ops(G::NUM, flag),
    {
        let GclkConfig { mut token, src, freq } = self;
        token.improve_duty_cycle(flag, bus);
        GclkConfig { token, src, freq }
    }

    /// The frequency that the generator puts out.
    pub fn freq(&self) -> (hz: Hertz)
        ensures
            hz == self.freq_spec(),
            self.divider() >= 1,
            hz.0 == self.source_freq().0 as nat / self.divider(),
    {
        proof {
            use_type_invariant(&self.token);
            lemma_quotient_fits(self.freq.0, self.token.factor());
        }
        Hertz(self.freq.0 / self.token.last_factor())
    }

    /// Switches the generator on. Nothing depends on it yet.
    pub fn enable(self, bus: &mut Bus) -> (r: Counted<Gclk<G, T>, Zero>)
        ensures
            r.inner().config() == self,
            final(bus)@ == old(bus)@ + enable_ops(G::NUM, true),
    {
        let GclkConfig { mut token, src, freq } = self;
        token.enable(bus);
        Counted::new(Gclk::create(GclkConfig { token, src, freq }))
    }
}

//==============================================================================
// Gclk
//==============================================================================
/// A running generator.
pub struct Gclk<G, T> where G: GenNum, T: GclkSourceType {
    config: GclkConfig<G, T>,
}

impl<G, T> Sealed for Gclk<G, T> where G: GenNum, T: GclkSourceType {

}

impl<G, T> Gclk<G, T> where G: GenNum, T: GclkSourceType {
    /// The configuration that the generator runs with.
    pub closed spec fn config(self) -> GclkConfig<G, T> {
        self.config
    }

    /// The frequency that the generator puts out.
    pub open spec fn freq_spec(self) -> Hertz {
        self.config().freq_spec()
    }

    fn create(config: GclkConfig<G, T>) -> (r: Self)
        ensures
            r.config() == config,
    {
        Gclk { config }
    }

    /// Switches the generator off.
    fn disable(self, bus: &mut Bus) -> (r: GclkConfig<G, T>)
        ensures
            r == self.config(),
            final(bus)@ == old(bus)@ + enable_ops(G::NUM, false),
    {
        let GclkConfig { mut token, src, freq } = self.config;
        token.disable(bus);
        GclkConfig { token, src, freq }
    }

    /// The frequency that the generator puts out.
    pub fn freq(&self) -> (hz: Hertz)
        ensures
            hz == self.freq_spec(),
            self.config().divider() >= 1,
            hz.0 == self.config().source_freq().0 as nat / self.config().divider(),
    {
        self.config.freq()
    }
}

impl<G, T> Counted<Gclk<G, T>, Zero> where G: GenNum, T: GclkSourceType {
    /// Switches the generator off. Only a generator that nothing depends on
    /// has this operation.
    pub fn disable(self, bus: &mut Bus) -> (r: GclkConfig<G, T>)
        ensures
            r == self.inner().config(),
            final(bus)@ == old(bus)@ + enable_ops(G::NUM, false),
    {
        self.into_inner().disable(bus)
    }
}

impl<G, T, N> Counted<Gclk<G, T>, N> where G: GenNum, T: GclkSourceType, N: Count {
    /// Drives the generator's output pad, which rests at `pol` while the
    /// generator is off.
    pub fn enable_gclk_out(self, pol: bool, bus: &mut Bus) -> (r: Self)
        ensures
            r.inner() == self.inner(),
            final(bus)@ == old(bus)@.push(Op::Gclk(GclkOp::OutputOn { gen: G::NUM, pol })).push(
                Op::Gclk(GclkOp::Sync { mask: sync_mask(G::NUM) }),
            ),
    {
        let gclk = self.into_inner();
        let GclkConfig { mut token, src, freq } = gclk.config;
        token.enable_gclk_out(pol, bus);
        Counted::with_count(Gclk::create(GclkConfig { token, src, freq }))
    }

    /// Stops driving the generator's output pad.
    pub fn disable_gclk_out(self, bus: &mut Bus) -> (r: Self)
        ensures
            r.inner() == self.inner(),
            final(bus)@ == old(bus)@.push(Op::Gclk(GclkOp::OutputOff { gen: G::NUM })).push(
                Op::Gclk(GclkOp::Sync { mask: sync_mask(G::NUM) }),
            ),
    {
        let gclk = self.into_inner();
        let GclkConfig { mut token, src, freq } = gclk.config;
        token.disable_gclk_out(bus);
        Counted::with_count(Gclk::create(GclkConfig { token, src, freq }))
    }
}

impl<T: GclkSourceType> Counted<Gclk<Gen0, T>, One> {
    /// Moves generator 0 from the source `from` to the source `to` while it
    /// runs and the processor depends on it. The generator is never off; its
    /// divider stays.
    pub fn swap<Old, New, NO, NN>(
        self,
        from: Counted<Old, NO>,
        to: Counted<New, NN>,
        bus: &mut Bus,
    ) -> (r: (Counted<Gclk<Gen0, New::Type>, One>, Counted<Old, NO::Dec>, Counted<New, NN::Inc>)) where
        Old: GclkSource<Gen0, Type = T>,
        New: GclkSource<Gen0>,
        NO: Decrement,
        NN: Increment,

        ensures
            r.0.inner().config() == GclkConfig::<Gen0, New::Type>::attached(
                self.inner().config().token(),
                to.inner().freq_spec(),
            ),
            r.0.inner().config().source_freq() == to.inner().freq_spec(),
            r.0.inner().config().divider() == self.inner().config().divider(),
            r.0.inner().config().divider() >= 1,
            r.0.inner().freq_spec().0 == to.inner().freq_spec().0 as nat
                / self.inner().config().divider(),
            r.1.inner() == from.inner(),
            r.1.count() + 1 == from.count(),
            r.2.inner() == to.inner(),
            r.2.count() == to.count() + 1,
            final(bus)@ == old(bus)@ + source_ops(0, <New::Type as GclkSourceType>::GCLK_SRC),
    {
        let (config, from, to) = self.into_inner().config.swap(from, to, bus);
        (Counted::with_count(Gclk::create(config)), from, to)
    }
}

//==============================================================================
// Gclk aliases
//==============================================================================
/// Generator 0, running.
pub type Gclk0<S> = Gclk<Gen0, S>;

/// Generator 1, running.
pub type Gclk1<S> = Gclk<Gen1, S>;

/// Generator 2, running.
pub type Gclk2<S> = Gclk<Gen2, S>;

/// Generator 3, running.
pub type Gclk3<S> = Gclk<Gen3, S>;

/// Generator 4, running.
pub type Gclk4<S> = Gclk<Gen4, S>;

/// Generator 5, running.
pub type Gclk5<S> = Gclk<Gen5, S>;

/// Generator 6, running.
pub type Gclk6<S> = Gclk<Gen6, S>;

/// Generator 7, running.
pub type Gclk7<S> = Gclk<Gen7, S>;

/// Generator 8, running.
pub type Gclk8<S> = Gclk<Gen8, S>;

/// Generator 9, running.
pub type Gclk9<S> = Gclk<Gen9, S>;

/// Generator 10, running.
pub type Gclk10<S> = Gclk<Gen10, S>;

/// Generator 11, running.
pub type Gclk11<S> = Gclk<Gen11, S>;

//==============================================================================
// Generator 0 at reset
//==============================================================================
impl GclkConfig<Gen0, marker::Dfll<OpenLoop>> {
    /// Generator 0 as it is after reset: fed by the loop in open mode, not
    /// divided.
    fn init(freq: Hertz) -> (r: Self)
        ensures
            r.source_freq() == freq,
            r.divider() == 1,
    {
        let token = GclkToken::new();
        GclkConfig { token, src: PhantomData, freq }
    }
}

impl Gclk<Gen0, marker::Dfll<OpenLoop>> {
    /// Generator 0 as it runs after reset.
    pub(crate) fn init(freq: Hertz) -> (r: Self)
        ensures
            r.config().source_freq() == freq,
            r.config().divider() == 1,
    {
        Gclk::create(GclkConfig::init(freq))
    }
}

//==============================================================================
// Changing the mode of the loop under generator 0
//==============================================================================
impl Counted<Gclk<Gen0, marker::Dfll<OpenLoop>>, One> {
    /// Takes the loop from open to closed mode while generator 0 runs from
    /// it: the generator lets go of the loop, `exchange` makes the closed
    /// loop of the open one, and the generator takes it again. What
    /// `exchange` records on the bus comes before the generator's source
    /// select.
    pub fn change_mode<T, F>(
        self,
        dfll: Counted<Dfll<OpenLoop>, One>,
        exchange: F,
        bus: &mut Bus,
    ) -> (r: (
        Counted<Gclk<Gen0, marker::Dfll<marker::ClosedLoop>>, One>,
        Counted<Dfll<ClosedLoop<T>>, One>,
    )) where
        T: PclkSourceType,
        F: FnOnce(Counted<Dfll<OpenLoop>, Zero>, &mut Bus) -> Counted<Dfll<ClosedLoop<T>>, Zero>,

        requires
            forall|freed: Counted<Dfll<OpenLoop>, Zero>, b: &mut Bus|
                freed.inner() == dfll.inner() && *b == *old(bus) ==> #[trigger] exchange.requires(
                    (freed, b),
                ),
        ensures
            exists|freed: Counted<Dfll<OpenLoop>, Zero>, b: &mut Bus, made: Counted<
                Dfll<ClosedLoop<T>>,
                Zero,
            >|
                {
                    &&& freed.inner() == dfll.inner()
                    &&& *b == *old(bus)
                    &&& #[trigger] exchange.ensures((freed, b), made)
                    &&& r.1.inner() == made.inner()
                    &&& final(bus)@ == final(b)@ + source_ops(0, GclkSourceEnum::DFLL)
                },
            r.0.inner().config() == GclkConfig::<Gen0, marker::Dfll<marker::ClosedLoop>>::attached(
                self.inner().config().token(),
                r.1.inner().freq_spec(),
            ),
            r.0.inner().config().source_freq() == r.1.inner().freq_spec(),
            r.0.inner().config().divider() == self.inner().config().divider(),
            r.0.inner().config().divider() >= 1,
            r.0.inner().freq_spec().0 == r.1.inner().freq_spec().0 as nat
                / self.inner().config().divider(),
    {
        let (token, freed) = self.into_inner().config.free(dfll);
        let made = exchange(freed, bus);
        let (config, dfll) = GclkConfig::new(token, made, bus);
        proof {
            marker::lemma_source::<marker::ClosedLoop>();
        }
        (Counted::with_count(Gclk::create(config)), dfll)
    }
}

impl Counted<Gclk<Gen0, marker::Dfll<marker::ClosedLoop>>, One> {
    /// Takes the loop from closed to open mode while generator 0 runs from
    /// it: the generator lets go of the loop, `exchange` makes the open loop
    /// of the closed one and hands out its reference channel, and the
    /// generator takes the loop again. What `exchange` records on the bus
    /// comes before the generator's source select.
    pub fn change_mode<T, F>(
        self,
        dfll: Counted<Dfll<ClosedLoop<T>>, One>,
        exchange: F,
        bus: &mut Bus,
    ) -> (r: (
        Counted<Gclk<Gen0, marker::Dfll<OpenLoop>>, One>,
        Counted<Dfll<OpenLoop>, One>,
        Pclk<Dfll48, T>,
    )) where
        T: PclkSourceType,
        F: FnOnce(Counted<Dfll<ClosedLoop<T>>, Zero>, &mut Bus) -> (
            Counted<Dfll<OpenLoop>, Zero>,
            Pclk<Dfll48, T>,
        ),

        requires
            forall|freed: Counted<Dfll<ClosedLoop<T>>, Zero>, b: &mut Bus|
                freed.inner() == dfll.inner() && *b == *old(bus) ==> #[trigger] exchange.requires(
                    (freed, b),
                ),
        ensures
            exists|freed: Counted<Dfll<ClosedLoop<T>>, Zero>, b: &mut Bus, made: (
                Counted<Dfll<OpenLoop>, Zero>,
                Pclk<Dfll48, T>,
            )|
                {
                    &&& freed.inner() == dfll.inner()
                    &&& *b == *old(bus)
                    &&& #[trigger] exchange.ensures((freed, b), made)
                    &&& r.1.inner() == made.0.inner()
                    &&& r.2 == made.1
                    &&& final(bus)@ == final(b)@ + source_ops(0, GclkSourceEnum::DFLL)
                },
            r.0.inner().config() == GclkConfig::<Gen0, marker::Dfll<OpenLoop>>::attached(
                self.inner().config().token(),
                r.1.inner().freq_spec(),
            ),
            r.0.inner().config().source_freq() == r.1.inner().freq_spec(),
            r.0.inner().config().divider() == self.inner().config().divider(),
            r.0.inner().config().divider() >= 1,
            r.0.inner().freq_spec().0 == r.1.inner().freq_spec().0 as nat
                / self.inner().config().divider(),
    {
        let (token, freed) = self.into_inner().config.free(dfll);
        let (made, pclk) = exchange(freed, bus);
        let (config, dfll) = GclkConfig::new(token, made, bus);
        proof {
            marker::lemma_source::<OpenLoop>();
        }
        (Counted::with_count(Gclk::create(config)), dfll, pclk)
    }
}

//==============================================================================
// Generator 1 as a source
//==============================================================================
/// Every generator but generator 1: those that generator 1 can feed.
pub trait NotGen1: GenNum {

}

impl NotGen1 for Gen0 {

}

impl NotGen1 for Gen2 {

}

impl NotGen1 for Gen3 {

}

impl NotGen1 for Gen4 {

}

impl NotGen1 for Gen5 {

}

impl NotGen1 for Gen6 {

}

impl NotGen1 for Gen7 {

}

impl NotGen1 for Gen8 {

}

impl NotGen1 for Gen9 {

}

impl NotGen1 for Gen10 {

}

impl NotGen1 for Gen11 {

}

impl GclkSourceType for Gen1 {
    const GCLK_SRC: GclkSourceEnum = GclkSourceEnum::GCLKGEN1;
}

impl<G, T> GclkSource<G> for Gclk<Gen1, T> where G: NotGen1, T: GclkSourceType {
    type Type = Gen1;

    open spec fn freq_spec(&self) -> Hertz {
        self.config().freq_spec()
    }

    fn freq(&self) -> (hz: Hertz)
        ensures
            self.config().divider() >= 1,
            hz.0 == self.config().source_freq().0 as nat / self.config().divider(),
    {
        self.config.freq()
    }
}

//==============================================================================
// Tokens
//==============================================================================
/// The tokens of the generators that are free after reset: all but
/// generator 0.
pub struct Tokens {
    pub gclk1: GclkToken<Gen1>,
    pub gclk2: GclkToken<Gen2>,
    pub gclk3: GclkToken<Gen3>,
    pub gclk4: GclkToken<Gen4>,
    pub gclk5: GclkToken<Gen5>,
    pub gclk6: GclkToken<Gen6>,
    pub gclk7: GclkToken<Gen7>,
    pub gclk8: GclkToken<Gen8>,
    pub gclk9: GclkToken<Gen9>,
    pub gclk10: GclkToken<Gen10>,
    pub gclk11: GclkToken<Gen11>,
}

impl Tokens {
    /// Whether no generator divides, as after reset.
    pub open spec fn fresh(self) -> bool {
        &&& self.gclk1.factor() == 1
        &&& self.gclk2.factor() == 1
        &&& self.gclk3.factor() == 1
        &&& self.gclk4.factor() == 1
        &&& self.gclk5.factor() == 1
        &&& self.gclk6.factor() == 1
        &&& self.gclk7.factor() == 1
        &&& self.gclk8.factor() == 1
        &&& self.gclk9.factor() == 1
        &&& self.gclk10.factor() == 1
        &&& self.gclk11.factor() == 1
    }

    /// Makes the tokens, and has the memory controller choose its wait
    /// states by itself, so that the processor may run at any speed.
    pub(crate) fn new(nvmctrl: &mut NVMCTRL, bus: &mut Bus)
        -> (r: Self)
        ensures
            r.fresh(),
            final(bus)@ == old(bus)@.push(Op::Nvm(NvmOp::AutoWaitStates)),
    {
        bus.push(Op::Nvm(NvmOp::AutoWaitStates));
        Tokens {
            gclk1: GclkToken::new(),
            gclk2: GclkToken::new(),
            gclk3: GclkToken::new(),
            gclk4: GclkToken::new(),
            gclk5: GclkToken::new(),
            gclk6: GclkToken::new(),
            gclk7: GclkToken::new(),
            gclk8: GclkToken::new(),
            gclk9: GclkToken::new(),
            gclk10: GclkToken::new(),
            gclk11: GclkToken::new(),
        }
    }
}

/// All generators as they are after reset.
pub struct Gclks {
    /// Generator 0, which runs from the loop and clocks the processor.
    pub gclk0: Counted<Gclk0<marker::Dfll<OpenLoop>>, One>,
    /// The tokens of the other generators.
    pub tokens: Tokens,
}

impl Gclks {
    /// The generators after reset: generator 0 runs from the loop at its
    /// nominal frequency, and one consumer, the processor, depends on it.
    pub(crate) fn new(nvmctrl: &mut NVMCTRL, bus: &mut Bus) -> (r: Self)
        ensures
            r.gclk0.inner().config().source_freq() == Hertz(
                crate::clock::sources::dfll::NOMINAL_HZ,
            ),
            r.gclk0.inner().config().divider() == 1,
            r.gclk0.inner().freq_spec() == Hertz(crate::clock::sources::dfll::NOMINAL_HZ),
            r.tokens.fresh(),
            final(bus)@ == old(bus)@.push(Op::Nvm(NvmOp::AutoWaitStates)),
    {
        let gclk0 = Gclk::init(Hertz::from_mhz(48));
        assert(gclk0.config().source_freq().0 as nat / 1 == gclk0.config().source_freq().0);
        Gclks { gclk0: Counted::with_count(gclk0), tokens: Tokens::new(nvmctrl, bus) }
    }
}

//==============================================================================
// Constants
//==============================================================================
/// The constants of the generators: generator `n` has the index `n`;
/// generator 1 has a divider field of sixteen bits and the largest factor
/// 131,072, and is `GCLKGEN1` to the generators that it feeds; every other
/// generator has a field of eight bits and the largest factor 512.
pub proof fn lemma_gen_constants()
    ensures
        Gen0::NUM == 0 && Gen1::NUM == 1 && Gen2::NUM == 2 && Gen3::NUM == 3,
        Gen4::NUM == 4 && Gen5::NUM == 5 && Gen6::NUM == 6 && Gen7::NUM == 7,
        Gen8::NUM == 8 && Gen9::NUM == 9 && Gen10::NUM == 10 && Gen11::NUM == 11,
        <Gen1 as GclkSourceType>::GCLK_SRC == GclkSourceEnum::GCLKGEN1,
        Gen1::DIV_WIDTH == 16 && Gen1::DIV_MAX == 131072,
        Gen0::DIV_WIDTH == 8 && Gen0::DIV_MAX == 512,
        Gen2::DIV_WIDTH == 8 && Gen2::DIV_MAX == 512,
        Gen3::DIV_WIDTH == 8 && Gen3::DIV_MAX == 512,
        Gen4::DIV_WIDTH == 8 && Gen4::DIV_MAX == 512,
        Gen5::DIV_WIDTH == 8 && Gen5::DIV_MAX == 512,
        Gen6::DIV_WIDTH == 8 && Gen6::DIV_MAX == 512,
        Gen7::DIV_WIDTH == 8 && Gen7::DIV_MAX == 512,
        Gen8::DIV_WIDTH == 8 && Gen8::DIV_MAX == 512,
        Gen9::DIV_WIDTH == 8 && Gen9::DIV_MAX == 512,
        Gen10::DIV_WIDTH == 8 && Gen10::DIV_MAX == 512,
        Gen11::DIV_WIDTH == 8 && Gen11::DIV_MAX == 512,
{
}

//==============================================================================
// What holds of a generator
//==============================================================================
/// A generator that is attached to a source of frequency `source`, divided
/// by `div` and enabled puts out the source's frequency divided by the
/// factor of `div`: by the value itself for a plain divider (by one where
/// the value is zero), and by two to the power of the field's value plus one
/// for the boosted one.
pub proof fn lemma_divided_frequency<G: GenNum, T: GclkSourceType>(
    token: GclkToken<G>,
    source: Hertz,
    div: Div<G>,
    enabled: Gclk<G, T>,
)
    requires
        enabled.config() == GclkConfig::<G, T>::attached(token, source).with_div(div),
    ensures
        enabled.freq_spec().0 == source.0 as nat / div.factor(),
        div matches Div::Div(d) ==> div.factor() == (if d.as_nat() == 0 {
            1
        } else {
            d.as_nat()
        }),
        div is Max ==> div.factor() == pow2(1 + div.field()),
        div.factor() >= 1,
{
    GclkConfig::<G, T>::lemma_model(token, source, div);
    div.lemma_factor_range();
    let c = GclkConfig::<G, T>::attached(token, source);
    assert(c.with_div(div).source_freq() == c.source_freq());
    assert(c.with_div(div).divider() == div.factor());
    vstd::arithmetic::div_mod::lemma_div_is_ordered_by_denominator(
        source.0 as int,
        1,
        div.factor() as int,
    );
    assert(source.0 as int / 1 == source.0);
}

/// Freeing a configuration and attaching the same source to the token that
/// comes back gives the configuration that was freed, divider included, and
/// so the same frequency.
pub proof fn lemma_reattach<G: GenNum, T: GclkSourceType>(freed: GclkConfig<G, T>)
    ensures
        GclkConfig::<G, T>::attached(freed.token(), freed.source_freq()) == freed,
        GclkConfig::<G, T>::attached(freed.token(), freed.source_freq()).divider()
            == freed.divider(),
        GclkConfig::<G, T>::attached(freed.token(), freed.source_freq()).freq_spec()
            == freed.freq_spec(),
{
}

/// The same for a configuration that was attached and divided: freed and
/// attached again, the generator still divides by the factor of `div`.
pub proof fn lemma_reattach_divided<G: GenNum, T: GclkSourceType>(
    token: GclkToken<G>,
    source: Hertz,
    div: Div<G>,
)
    ensures
        ({
            let freed = GclkConfig::<G, T>::attached(token, source).with_div(div);
            let again = GclkConfig::<G, T>::attached(freed.token(), source);
            &&& again == freed
            &&& again.divider() == div.factor()
            &&& again.freq_spec().0 == source.0 as nat / div.factor()
        }),
{
    GclkConfig::<G, T>::lemma_model(token, source, div);
    div.lemma_factor_range();
    lemma_quotient_fits(source.0, div.factor());
}

} // verus!
