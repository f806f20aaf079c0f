//! Markers by which a generator knows the loop as its source.
//!
//! The closed mode of the loop itself carries the type of its reference. A
//! generator that runs from the loop has no use for that, so it names the
//! mode by these markers instead.
use core::marker::PhantomData;
use vstd::prelude::*;
use crate::clock::gclk::{GclkSourceEnum, GclkSourceType};
use crate::clock::sources::dfll::OpenLoop;
use crate::typelevel::Sealed;

verus! {

/// The mode of the loop, as a generator names it.
pub trait ModeMarker: Sealed {

}

/// The closed mode, whatever the reference.
pub struct ClosedLoop {
    __: (),
}

impl Sealed for ClosedLoop {

}

impl ModeMarker for ClosedLoop {

}

impl ModeMarker for OpenLoop {

}

/// The loop in mode `T`, as the source of a generator.
pub struct Dfll<T: ModeMarker> {
    __: PhantomData<T>,
}

impl<T: ModeMarker> Sealed for Dfll<T> {

}

impl<T: ModeMarker> GclkSourceType for Dfll<T> {
    const GCLK_SRC: GclkSourceEnum = GclkSourceEnum::DFLL;
}

/// A generator calls the loop by the same name in either mode.
pub proof fn lemma_source<T: ModeMarker>()
    ensures
        <Dfll<T> as GclkSourceType>::GCLK_SRC == GclkSourceEnum::DFLL,
{
}

} // verus!
