//! The nodes that clocks come from.
use vstd::prelude::*;
use crate::clock::sources::dfll::{Dfll, OpenLoop};
use crate::clock::sources::dpll::{DpllToken, Pll0, Pll1};
use crate::clock::sources::osculp32k::OscUlp32k;
use crate::clock::sources::xosc::{Osc0, Osc1, XOscToken};
use crate::time::Hertz;
use crate::typelevel::counted::Counted;
use crate::typelevel::{One, Zero};

pub mod dfll;
pub mod dpll;
pub mod osculp32k;
pub mod xosc;

verus! {

/// The oscillators and loops, as they are after reset.
pub struct Sources {
    /// The frequency locked loop, which runs in open mode and feeds
    /// generator 0.
    pub dfll: Counted<Dfll<OpenLoop>, One>,
    /// The token of phase locked loop 0.
    pub dpll0: DpllToken<Pll0>,
    /// The token of phase locked loop 1.
    pub dpll1: DpllToken<Pll1>,
    /// The token of external oscillator 0.
    pub xosc0: XOscToken<Osc0>,
    /// The token of external oscillator 1.
    pub xosc1: XOscToken<Osc1>,
    /// The ultra low power oscillator, which always runs.
    pub osculp32k: Counted<OscUlp32k, Zero>,
}

impl Sources {
    /// The sources after reset.
    pub(crate) fn new() -> (r: Self)
        ensures
            r.dfll.inner().config().base_freq() == Hertz(dfll::NOMINAL_HZ),
            r.dfll.inner().config().multiplier() == 1,
            r.dfll.inner().freq_spec() == Hertz(dfll::NOMINAL_HZ),
    {
        Sources {
            dfll: Counted::with_count(Dfll::init()),
            dpll0: DpllToken::new(),
            dpll1: DpllToken::new(),
            xosc0: XOscToken::new(),
            xosc1: XOscToken::new(),
            osculp32k: Counted::new(OscUlp32k::new()),
        }
    }
}

} // verus!
