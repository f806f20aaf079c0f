//! A value together with the number of its consumers.
use core::marker::PhantomData;
use vstd::prelude::*;
use crate::typelevel::{Count, Decrement, Increment, Sealed, Zero};

verus! {

/// A `T` that `N` others depend on.
///
/// The count is part of the type: it takes no memory, and an operation that
/// needs a count of zero, or a count above zero, is only defined for the
/// types that have it.
pub struct Counted<T, N: Count> {
    inner: T,
    count: PhantomData<N>,
}

impl<T, N: Count> Sealed for Counted<T, N> {

}

impl<T, N: Count> Counted<T, N> {
    /// The value that is counted.
    pub closed spec fn inner(&self) -> T {
        self.inner
    }

    /// The number of consumers.
    pub open spec fn count(&self) -> nat {
        N::value()
    }

    /// The value that is counted.
    pub fn get(&self) -> (t: &T)
        ensures
            *t == self.inner(),
    {
        &self.inner
    }

    /// The value that is counted, to change it. The count stays.
    pub fn get_mut(&mut self) -> (t: &mut T)
        ensures
            *t == old(self).inner(),
            final(self).inner() == *final(t),
    {
        &mut self.inner
    }

    /// The number of consumers, at run time.
    pub fn count_usize(&self) -> (n: usize)
        requires
            self.count() <= usize::MAX,
        ensures
            n == self.count(),
    {
        N::get()
    }

    /// Wraps `t` with the count that its consumers at hand make up: the
    /// caller answers for it.
    pub(crate) fn with_count(t: T) -> (c: Self)
        ensures
            c.inner() == t,
    {
        Counted { inner: t, count: PhantomData }
    }

    /// Unwraps the value and forgets the count.
    pub(crate) fn into_inner(self) -> (t: T)
        ensures
            t == self.inner(),
    {
        self.inner
    }
}

impl<T> Counted<T, Zero> {
    /// Wraps `t`, on which nothing depends yet.
    pub(crate) fn new(t: T) -> (c: Self)
        ensures
            c.inner() == t,
            c.count() == 0,
    {
        Counted { inner: t, count: PhantomData }
    }
}

impl<T, N: Increment> Counted<T, N> {
    /// Records one more consumer.
    pub(crate) fn inc(self) -> (c: Counted<T, N::Inc>)
        ensures
            c.inner() == self.inner(),
            c.count() == self.count() + 1,
            run(self.count(), seq![Step::Inc]) == Some(c.count()),
    {
        proof {
            N::inc_value();
            lemma_single_step(self.count());
        }
        Counted { inner: self.inner, count: PhantomData }
    }
}

impl<T, N: Decrement> Counted<T, N> {
    /// Records one consumer fewer.
    pub(crate) fn dec(self) -> (c: Counted<T, N::Dec>)
        ensures
            c.inner() == self.inner(),
            c.count() + 1 == self.count(),
            run(self.count(), seq![Step::Dec]) == Some(c.count()),
    {
        proof {
            N::dec_value();
            lemma_single_step(self.count());
        }
        Counted { inner: self.inner, count: PhantomData }
    }
}

//==============================================================================
// Counting, step by step
//==============================================================================
/// One change of a count.
pub enum Step {
    /// One more consumer.
    Inc,
    /// One consumer fewer.
    Dec,
}

/// The count that `steps` lead to from `start`, or `None` where a decrement
/// meets a count of zero: there is no such sequence of operations.
pub open spec fn run(start: nat, steps: Seq<Step>) -> Option<nat>
    decreases steps.len(),
{
    if steps.len() == 0 {
        Some(start)
    } else {
        match run(start, steps.drop_last()) {
            None => None,
            Some(count) => match steps.last() {
                Step::Inc => Some(count + 1),
                Step::Dec => if count == 0 {
                    None
                } else {
                    Some((count - 1) as nat)
                },
            },
        }
    }
}

/// The number of increments among `steps`.
pub open spec fn increments(steps: Seq<Step>) -> nat
    decreases steps.len(),
{
    if steps.len() == 0 {
        0
    } else {
        increments(steps.drop_last()) + (if steps.last() is Inc {
            1nat
        } else {
            0nat
        })
    }
}

/// The number of decrements among `steps`.
pub open spec fn decrements(steps: Seq<Step>) -> nat
    decreases steps.len(),
{
    if steps.len() == 0 {
        0
    } else {
        decrements(steps.drop_last()) + (if steps.last() is Dec {
            1nat
        } else {
            0nat
        })
    }
}

/// Whatever sequence of increments and decrements leads somewhere from
/// zero, it leads to the number of increments less the number of
/// decrements.
pub proof fn lemma_count_is_difference(steps: Seq<Step>)
    requires
        run(0, steps) is Some,
    ensures
        increments(steps) >= decrements(steps),
        run(0, steps) == Some((increments(steps) - decrements(steps)) as nat),
    decreases steps.len(),
{
    if steps.len() > 0 {
        lemma_count_is_difference(steps.drop_last());
    }
}

/// One increment is one step of `run`, and so is one decrement of a count
/// above zero; a decrement of zero is no step.
pub proof fn lemma_single_step(start: nat)
    ensures
        run(start, seq![Step::Inc]) == Some(start + 1),
        start > 0 ==> run(start, seq![Step::Dec]) == Some((start - 1) as nat),
        run(0, seq![Step::Dec]) is None,
{
    assert(seq![Step::Inc].drop_last() =~= Seq::<Step>::empty());
    assert(seq![Step::Dec].drop_last() =~= Seq::<Step>::empty());
    reveal_with_fuel(run, 2);
}

} // verus!
