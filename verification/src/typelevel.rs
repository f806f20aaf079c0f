//! Type-level markers and naturals.
use core::marker::PhantomData;
use vstd::prelude::*;

pub mod counted;

verus! {

/// Marks a trait whose set of implementations is closed.
pub trait Sealed {

}

/// Type-level version of the `None` variant.
pub struct NoneT;

impl Sealed for NoneT {

}

/// A natural number written as a type.
pub trait Count: Sealed + Sized {
    /// The number that the type stands for.
    spec fn value() -> nat;

    /// The number that the type stands for, at run time.
    fn get() -> (n: usize)
        requires
            Self::value() <= usize::MAX,
        ensures
            n == Self::value(),
    ;
}

/// The number zero.
pub struct Zero;

/// The number after `N`.
pub struct Succ<N: Count> {
    pred: PhantomData<N>,
}

/// The number one.
pub type One = Succ<Zero>;

impl Sealed for Zero {

}

impl<N: Count> Sealed for Succ<N> {

}

impl Count for Zero {
    open spec fn value() -> nat {
        0
    }

    fn get() -> (n: usize) {
        0
    }
}

impl<N: Count> Count for Succ<N> {
    open spec fn value() -> nat {
        N::value() + 1
    }

    fn get() -> (n: usize) {
        N::get() + 1
    }
}

/// A count that has a successor.
pub trait Increment: Count {
    /// The count one above.
    type Inc: Count;

    /// `Inc` stands for one more than `Self`.
    proof fn inc_value()
        ensures
            <Self::Inc as Count>::value() == Self::value() + 1,
    ;
}

/// A count that has a predecessor: every count but [`Zero`].
pub trait Decrement: Count {
    /// The count one below.
    type Dec: Count;

    /// `Dec` stands for one less than `Self`.
    proof fn dec_value()
        ensures
            <Self::Dec as Count>::value() + 1 == Self::value(),
    ;
}

impl<N: Count> Increment for N {
    type Inc = Succ<N>;

    proof fn inc_value() {
    }
}

impl<N: Count> Decrement for Succ<N> {
    type Dec = N;

    proof fn dec_value() {
    }
}

} // verus!
