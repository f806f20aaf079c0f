//! The record of register transactions.
//!
//! The library never touches the device. An operation that stands for
//! register accesses appends them, in the order in which the device must see
//! them, to a [`Bus`]; the caller carries them out and empties the record.
use vstd::prelude::*;
use crate::clock::gclk::GclkOp;
use crate::clock::Osc32kOp;
use crate::clock::pclk::PclkOp;
use crate::clock::sources::dfll::DfllOp;
use crate::clock::sources::dpll::DpllOp;
use crate::clock::sources::xosc::XoscOp;
use crate::eic::EicOp;
use crate::gpio::GpioOp;
use crate::nvm::NvmOp;

verus! {

/// One transaction with the device.
#[derive(Clone, Copy, Debug, PartialEq, Eq)]
pub enum Op {
    /// A transaction with the generic clock controller.
    Gclk(GclkOp),
    /// A transaction with a peripheral channel.
    Pclk(PclkOp),
    /// A transaction with the frequency locked loop.
    Dfll(DfllOp),
    /// A transaction with a phase locked loop.
    Dpll(DpllOp),
    /// A transaction with an external oscillator.
    Xosc(XoscOp),
    /// A transaction with the port controller.
    Gpio(GpioOp),
    /// A transaction with the external interrupt controller.
    Eic(EicOp),
    /// A transaction with the non-volatile memory controller.
    Nvm(NvmOp),
    /// A transaction with the 32 kHz oscillators controller.
    Osc32k(Osc32kOp),
}

/// An ordered record of transactions that are still to be carried out.
pub struct Bus {
    ops: Vec<Op>,
}

impl View for Bus {
    type V = Seq<Op>;

    closed spec fn view(&self) -> Seq<Op> {
        self.ops@
    }
}

impl Bus {
    /// A record that holds nothing.
    pub fn new() -> (bus: Bus)
        ensures
            bus@ == Seq::<Op>::empty(),
    {
        Bus { ops: Vec::new() }
    }

    /// Appends one transaction.
    pub fn push(&mut self, op: Op)
        ensures
            final(self)@ == old(self)@.push(op),
    {
        self.ops.push(op);
    }

    /// The number of transactions in the record.
    pub fn len(&self) -> (n: usize)
        ensures
            n == self@.len(),
    {
        self.ops.len()
    }

    /// The transactions in the record, oldest first.
    pub fn ops(&self) -> (ops: &Vec<Op>)
        ensures
            ops@ == self@,
    {
        &self.ops
    }

    /// Hands the record out and leaves it empty.
    pub fn take(&mut self) -> (ops: Vec<Op>)
        ensures
            ops@ == old(self)@,
            final(self)@ == Seq::<Op>::empty(),
    {
        let mut ops: Vec<Op> = Vec::new();
        core::mem::swap(&mut self.ops, &mut ops);
        ops
    }
}

} // verus!
