//! The clock tree.
//!
//! [`Clocks::new`] trades the handles of the clock peripherals for the
//! tokens of every node of the tree, and for the two nodes that run after
//! reset: the frequency locked loop and generator 0.
use vstd::prelude::*;
use crate::bus::{Bus, Op};
use crate::pac::{GCLK, MCLK, NVMCTRL, OSC32KCTRL, OSCCTRL};

pub mod gclk;
pub mod pclk;
pub mod sources;

verus! {

/// What the real-time counter can take its clock from.
#[derive(Clone, Copy, Debug, PartialEq, Eq)]
pub enum RtcSel {
    /// 1.024 kHz from the ultra low power oscillator.
    ULP1K,
    /// 32.768 kHz from the ultra low power oscillator.
    ULP32K,
    /// 1.024 kHz from the external 32 kHz oscillator.
    XOSC1K,
    /// 32.768 kHz from the external 32 kHz oscillator.
    XOSC32K,
}

/// One transaction with the 32 kHz oscillators controller.
#[derive(Clone, Copy, Debug, PartialEq, Eq)]
pub enum Osc32kOp {
    /// Write the whole clock selection register of the real-time counter.
    RtcSelect(RtcSel),
}

/// The handles of the clock peripherals.
pub struct PacClocks {
    pub oscctrl: OSCCTRL,
    pub osc32kctrl: OSC32KCTRL,
    pub gclk: GCLK,
    pub mclk: MCLK,
}

/// Every node of the clock tree, as it is after reset.
pub struct Clocks {
    /// The handles of the peripherals, until they are handed out.
    pub pac: Option<PacClocks>,
    /// The oscillators and loops.
    pub sources: sources::Sources,
    /// The generators.
    pub gclks: gclk::Gclks,
    /// The tokens of the peripheral channels.
    pub pclks: pclk::Tokens,
}

impl Clocks {
    /// Takes the handles of the clock peripherals and gives the tree. Every
    /// token of the tree comes from here, so there is one of each for as
    /// long as the caller has made each handle once. In the tree the loop
    /// runs in open mode at its nominal frequency, generator 0 runs from it
    /// undivided, each counts one consumer, and every other node is a free
    /// token; no generator divides. The memory controller is told to choose
    /// its wait states by itself.
    pub fn new(
        oscctrl: OSCCTRL,
        osc32kctrl: OSC32KCTRL,
        gclk: GCLK,
        mclk: MCLK,
        nvmctrl: &mut NVMCTRL,
        bus: &mut Bus,
    ) -> (clocks: Clocks)
        ensures
            clocks.pac == Some(PacClocks { oscctrl, osc32kctrl, gclk, mclk }),
            clocks.sources.dfll.inner().config().base_freq() == crate::time::Hertz(
                sources::dfll::NOMINAL_HZ,
            ),
            clocks.sources.dfll.inner().config().multiplier() == 1,
            clocks.sources.dfll.inner().freq_spec() == crate::time::Hertz(
                sources::dfll::NOMINAL_HZ,
            ),
            clocks.sources.dfll.count() == 1,
            clocks.gclks.gclk0.inner().config().source_freq() == crate::time::Hertz(
                sources::dfll::NOMINAL_HZ,
            ),
            clocks.gclks.gclk0.inner().config().divider() == 1,
            clocks.gclks.gclk0.inner().freq_spec() == crate::time::Hertz(
                sources::dfll::NOMINAL_HZ,
            ),
            clocks.gclks.gclk0.count() == 1,
            clocks.gclks.tokens.fresh(),
            final(bus)@ == old(bus)@.push(Op::Nvm(crate::nvm::NvmOp::AutoWaitStates)),
    {
        Clocks {
            pac: Some(PacClocks { oscctrl, osc32kctrl, gclk, mclk }),
            sources: sources::Sources::new(),
            gclks: gclk::Gclks::new(nvmctrl, bus),
            pclks: pclk::Tokens::new(),
        }
    }

    /// Hands out the handles of the peripherals, once. Whoever uses them
    /// works behind the back of the tree.
    pub fn pac(&mut self) -> (r: Option<PacClocks>)
        ensures
            r == old(self).pac,
            final(self).pac is None,
            final(self).sources == old(self).sources,
            final(self).gclks == old(self).gclks,
            final(self).pclks == old(self).pclks,
    {
        self.pac.take()
    }
}

/// A source of the real-time counter's clock.
pub trait RtcClock: Sized {
    /// The selection that `enable_1k` answers with.
    spec fn sel_1k(&self) -> RtcSel;

    /// The selection that `enable_32k` answers with.
    spec fn sel_32k(&self) -> RtcSel;

    /// The source as `enable_1k` leaves it.
    spec fn after_1k(&self) -> Self;

    /// The source as `enable_32k` leaves it.
    spec fn after_32k(&self) -> Self;

    /// Switches the 1.024 kHz output on and says what to select for it.
    fn enable_1k(&mut self) -> (sel: RtcSel)
        ensures
            sel == old(self).sel_1k(),
            *final(self) == old(self).after_1k(),
    ;

    /// Switches the 32.768 kHz output on and says what to select for it.
    fn enable_32k(&mut self) -> (sel: RtcSel)
        ensures
            sel == old(self).sel_32k(),
            *final(self) == old(self).after_32k(),
    ;
}

/// Has the real-time counter run from `clock`: from its 32.768 kHz output
/// if `enable_32k`, from its 1.024 kHz output if not. That one output of
/// the source is switched on, and the other is left alone.
pub fn set_rtc_clock<C: RtcClock>(clock: &mut C, enable_32k: bool, bus: &mut Bus)
    ensures
        *final(clock) == (if enable_32k {
            old(clock).after_32k()
        } else {
            old(clock).after_1k()
        }),
        final(bus)@ == old(bus)@.push(
            Op::Osc32k(
                Osc32kOp::RtcSelect(
                    if enable_32k {
                        old(clock).sel_32k()
                    } else {
                        old(clock).sel_1k()
                    },
                ),
            ),
        ),
{
    let rtc_sel = if enable_32k {
        clock.enable_32k()
    } else {
        clock.enable_1k()
    };
    bus.push(Op::Osc32k(Osc32kOp::RtcSelect(rtc_sel)));
}

} // verus!
