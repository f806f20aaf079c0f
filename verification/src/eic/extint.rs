//! The lines.
//!
//! A line is made from its token and its pin by the controller, which
//! counts it. Its detection mode and its sense are part of its type; every
//! change of them goes through the controller, which owns the registers
//! that the lines share, and gives the line back under its new type.
use core::marker::PhantomData;
use vstd::prelude::*;
use crate::bus::{Bus, Op};
use crate::eic::eicontroller::{
    with_line, AnyClock, ClkSrc, Configurable, EIController, WithClock, WithoutClock,
};
use crate::eic::{
    set_field, AsyncOnly, DebounceMode, Debounced, DebouncedAsync, EIConfigReg, EINum, EicOp,
    Filtered, FilteredAsync, GetEINum, NmiEI, NmiToken, Normal, SenseMode, Token,
};
use crate::gpio::{Pin, PinMode};
use crate::typelevel::counted::Counted;
use crate::typelevel::{Count, Sealed};

verus! {

/// A line, made from its token and its pin. `AM` is its detection mode,
/// `AK` the clock that it relies on, `AS` its sense.
pub struct ExtInt<I, M, AM, AK, AS> where I: GetEINum, M: PinMode {
    token: Token<I::EINum>,
    pin: Pin<I, M>,
    mode: PhantomData<AM>,
    clockmode: PhantomData<AK>,
    sensemode: PhantomData<AS>,
}

impl<I, M, AM, AK, AS> Sealed for ExtInt<I, M, AM, AK, AS> where I: GetEINum, M: PinMode {

}

/// The configuration register of a line with the filter bit of the line
/// set or cleared.
pub open spec fn with_filter<E: EINum>(config: EIConfigReg, on: bool) -> u32 {
    set_field(config.0, E::FILTEN as usize, E::FILTEN as usize, if on {
        1u8
    } else {
        0u8
    })
}

/// The transaction that writes the configuration register of line `E`.
pub open spec fn config_op<E: EINum>(value: u32) -> Op {
    Op::Eic(EicOp::Config { index: E::OFFSET as usize, value })
}

impl<I, M, AM, AK, AS> ExtInt<I, M, AM, AK, AS> where I: GetEINum, M: PinMode {
    /// The token that the line was made from.
    pub closed spec fn token(self) -> Token<I::EINum> {
        self.token
    }

    /// The pin that the line was made from.
    pub closed spec fn pin(self) -> Pin<I, M> {
        self.pin
    }

    /// The token and the pin of the line.
    pub(crate) fn into_parts(self) -> (r: (Token<I::EINum>, Pin<I, M>))
        ensures
            r.0 == self.token(),
            r.1 == self.pin(),
    {
        (self.token, self.pin)
    }

    /// The line under another type: the token and the pin stay.
    fn retag<AM2, AK2, AS2>(self) -> (r: ExtInt<I, M, AM2, AK2, AS2>)
        ensures
            r.token() == self.token(),
            r.pin() == self.pin(),
    {
        ExtInt {
            token: self.token,
            pin: self.pin,
            mode: PhantomData,
            clockmode: PhantomData,
            sensemode: PhantomData,
        }
    }

    /// Changes the sense of the line to `S`. `config` is what the
    /// configuration register of the line holds.
    pub fn set_sense_mode<AK2, S, N>(
        self,
        eic: &Counted<EIController<AK2, Configurable>, N>,
        config: EIConfigReg,
        bus: &mut Bus,
    ) -> (r: ExtInt<I, M, AM, AK, S>) where AK2: AnyClock, S: SenseMode, N: Count
        ensures
            r.token() == self.token(),
            r.pin() == self.pin(),
            final(bus)@ == old(bus)@.push(
                config_op::<I::EINum>(
                    set_field(
                        config.0,
                        <I::EINum as EINum>::SENSEMSB as usize,
                        <I::EINum as EINum>::SENSELSB as usize,
                        S::SENSE.bits_spec(),
                    ),
                ),
            ),
    {
        let _ = eic.set_sense_mode::<I::EINum>(S::SENSE, config, bus);
        self.retag()
    }

    /// Enables the interrupt of the line.
    pub fn enable_interrupt(&self, bus: &mut Bus)
        ensures
            final(bus)@ == old(bus)@.push(
                Op::Eic(EicOp::IntenSet(<I::EINum as EINum>::MASK as u32)),
            ),
    {
        self.token.enable_interrupt(bus);
    }

    /// Disables the interrupt of the line.
    pub fn disable_interrupt(&self, bus: &mut Bus)
        ensures
            final(bus)@ == old(bus)@.push(
                Op::Eic(EicOp::IntenClr(<I::EINum as EINum>::MASK as u32)),
            ),
    {
        self.token.disable_interrupt(bus);
    }

    /// Whether the line has triggered, given the flags `state`.
    pub fn get_interrupt_status(&self, state: u16) -> (r: bool)
        ensures
            r == ((state & <I::EINum as EINum>::MASK) != 0),
    {
        self.token.get_interrupt_status(state)
    }

    /// Clears the flag of the line.
    pub fn clear_interrupt_status(&self, bus: &mut Bus)
        ensures
            final(bus)@ == old(bus)@.push(
                Op::Eic(EicOp::IntFlagClear(<I::EINum as EINum>::MASK as u32)),
            ),
    {
        self.token.clear_interrupt_status(bus);
    }

    /// Switches the event output of the line on. `val` is what the event
    /// control register holds.
    pub fn enable_event_output<AK2, N>(
        &self,
        eic: &Counted<EIController<AK2, Configurable>, N>,
        val: u32,
        bus: &mut Bus,
    ) where AK2: AnyClock, N: Count
        ensures
            final(bus)@ == old(bus)@.push(
                Op::Eic(EicOp::EventControl(with_line(val, <I::EINum as EINum>::MASK, true))),
            ),
    {
        eic.set_event_output::<I::EINum>(true, val, bus);
    }

    /// Switches the event output of the line off. `val` is what the event
    /// control register holds.
    pub fn disable_event_output<AK2, N>(
        &self,
        eic: &Counted<EIController<AK2, Configurable>, N>,
        val: u32,
        bus: &mut Bus,
    ) where AK2: AnyClock, N: Count
        ensures
            final(bus)@ == old(bus)@.push(
                Op::Eic(EicOp::EventControl(with_line(val, <I::EINum as EINum>::MASK, false))),
            ),
    {
        eic.set_event_output::<I::EINum>(false, val, bus);
    }
}

impl<I, M, AS> ExtInt<I, M, AsyncOnly, WithoutClock, AS> where I: GetEINum, M: PinMode {
    /// Makes a line that detects without a clock, and sets its bit in the
    /// asynchronous mode register, which holds `val`.
    pub fn new_async(token: Token<I::EINum>, pin: Pin<I, M>, val: u32, bus: &mut Bus) -> (r: Self)
        ensures
            r.token() == token,
            r.pin() == pin,
            final(bus)@ == old(bus)@.push(
                Op::Eic(EicOp::Asynch(with_line(val, <I::EINum as EINum>::MASK, true))),
            ),
    {
        bus.push(Op::Eic(EicOp::Asynch(val | (<I::EINum as EINum>::MASK as u32))));
        ExtInt { token, pin, mode: PhantomData, clockmode: PhantomData, sensemode: PhantomData }
    }
}

impl<I, M, CS, AS> ExtInt<I, M, Normal, WithClock<CS>, AS> where
    I: GetEINum,
    M: PinMode,
    CS: ClkSrc,
 {
    /// Makes a line that detects on the clock of the controller.
    pub fn new_sync(token: Token<I::EINum>, pin: Pin<I, M>) -> (r: Self)
        ensures
            r.token() == token,
            r.pin() == pin,
    {
        ExtInt { token, pin, mode: PhantomData, clockmode: PhantomData, sensemode: PhantomData }
    }

    /// Switches the filter of the line on. `config` is what the
    /// configuration register of the line holds.
    pub fn enable_filtering<N: Count>(
        self,
        eic: &Counted<EIController<WithClock<CS>, Configurable>, N>,
        config: EIConfigReg,
        bus: &mut Bus,
    ) -> (r: ExtInt<I, M, Filtered, WithClock<CS>, AS>)
        ensures
            r.token() == self.token(),
            r.pin() == self.pin(),
            final(bus)@ == old(bus)@.push(
                config_op::<I::EINum>(with_filter::<I::EINum>(config, true)),
            ),
    {
        let _ = eic.enable_filtering::<I::EINum>(config, bus);
        self.retag()
    }

    /// Switches the filter and the asynchronous detection of the line on.
    /// `config` is what the configuration register of the line holds, `val`
    /// what the asynchronous mode register holds.
    pub fn enable_filtering_async<N: Count>(
        self,
        eic: &Counted<EIController<WithClock<CS>, Configurable>, N>,
        config: EIConfigReg,
        val: u32,
        bus: &mut Bus,
    ) -> (r: ExtInt<I, M, FilteredAsync, WithClock<CS>, AS>)
        ensures
            r.token() == self.token(),
            r.pin() == self.pin(),
            final(bus)@ == old(bus)@.push(
                config_op::<I::EINum>(with_filter::<I::EINum>(config, true)),
            ).push(Op::Eic(EicOp::Asynch(with_line(val, <I::EINum as EINum>::MASK, true)))),
    {
        let _ = eic.enable_filtering::<I::EINum>(config, bus);
        eic.enable_async::<I::EINum>(val, bus);
        self.retag()
    }

    /// Switches the asynchronous detection of the line on. `val` is what
    /// the asynchronous mode register holds.
    pub fn enable_async<N: Count>(
        self,
        eic: &Counted<EIController<WithClock<CS>, Configurable>, N>,
        val: u32,
        bus: &mut Bus,
    ) -> (r: ExtInt<I, M, AsyncOnly, WithClock<CS>, AS>)
        ensures
            r.token() == self.token(),
            r.pin() == self.pin(),
            final(bus)@ == old(bus)@.push(
                Op::Eic(EicOp::Asynch(with_line(val, <I::EINum as EINum>::MASK, true))),
            ),
    {
        eic.enable_async::<I::EINum>(val, bus);
        self.retag()
    }
}

impl<I, M, CS, AS> ExtInt<I, M, Normal, WithClock<CS>, AS> where
    I: GetEINum,
    M: PinMode,
    CS: ClkSrc,
    AS: DebounceMode,
 {
    /// Switches the debouncer of the line on; only a line that senses
    /// edges has this operation. `bits` is what the debouncer enable field
    /// holds.
    pub fn enable_debouncing<N: Count>(
        self,
        eic: &Counted<EIController<WithClock<CS>, Configurable>, N>,
        bits: u16,
        bus: &mut Bus,
    ) -> (r: ExtInt<I, M, Debounced, WithClock<CS>, AS>)
        ensures
            r.token() == self.token(),
            r.pin() == self.pin(),
            final(bus)@ == old(bus)@.push(
                Op::Eic(EicOp::DebounceEn((bits | <I::EINum as EINum>::MASK) as u32)),
            ),
    {
        eic.enable_debouncing::<I::EINum>(bits, bus);
        self.retag()
    }

    /// Switches the debouncer and the asynchronous detection of the line
    /// on. `bits` is what the debouncer enable field holds, `val` what the
    /// asynchronous mode register holds.
    pub fn enable_debouncing_async<N: Count>(
        self,
        eic: &Counted<EIController<WithClock<CS>, Configurable>, N>,
        bits: u16,
        val: u32,
        bus: &mut Bus,
    ) -> (r: ExtInt<I, M, DebouncedAsync, WithClock<CS>, AS>)
        ensures
            r.token() == self.token(),
            r.pin() == self.pin(),
            final(bus)@ == old(bus)@.push(
                Op::Eic(EicOp::DebounceEn((bits | <I::EINum as EINum>::MASK) as u32)),
            ).push(Op::Eic(EicOp::Asynch(with_line(val, <I::EINum as EINum>::MASK, true)))),
    {
        eic.enable_debouncing::<I::EINum>(bits, bus);
        eic.enable_async::<I::EINum>(val, bus);
        self.retag()
    }
}

impl<I, M, CS, AS> ExtInt<I, M, AsyncOnly, WithClock<CS>, AS> where
    I: GetEINum,
    M: PinMode,
    CS: ClkSrc,
 {
    /// Switches the asynchronous detection of the line off. `val` is what
    /// the asynchronous mode register holds.
    pub fn disable_async<N: Count>(
        self,
        eic: &Counted<EIController<WithClock<CS>, Configurable>, N>,
        val: u32,
        bus: &mut Bus,
    ) -> (r: ExtInt<I, M, Normal, WithClock<CS>, AS>)
        ensures
            r.token() == self.token(),
            r.pin() == self.pin(),
            final(bus)@ == old(bus)@.push(
                Op::Eic(EicOp::Asynch(with_line(val, <I::EINum as EINum>::MASK, false))),
            ),
    {
        eic.disable_async::<I::EINum>(val, bus);
        self.retag()
    }
}

impl<I, M, CS, AS> ExtInt<I, M, Filtered, WithClock<CS>, AS> where
    I: GetEINum,
    M: PinMode,
    CS: ClkSrc,
 {
    /// Switches the filter of the line off. `config` is what the
    /// configuration register of the line holds.
    pub fn disable_filtering<N: Count>(
        self,
        eic: &Counted<EIController<WithClock<CS>, Configurable>, N>,
        config: EIConfigReg,
        bus: &mut Bus,
    ) -> (r: ExtInt<I, M, Normal, WithClock<CS>, AS>)
        ensures
            r.token() == self.token(),
            r.pin() == self.pin(),
            final(bus)@ == old(bus)@.push(
                config_op::<I::EINum>(with_filter::<I::EINum>(config, false)),
            ),
    {
        let _ = eic.disable_filtering::<I::EINum>(config, bus);
        self.retag()
    }
}

impl<I, M, CS, AS> ExtInt<I, M, FilteredAsync, WithClock<CS>, AS> where
    I: GetEINum,
    M: PinMode,
    CS: ClkSrc,
 {
    /// Switches the filter and the asynchronous detection of the line off.
    /// `config` is what the configuration register of the line holds, `val`
    /// what the asynchronous mode register holds.
    pub fn disable_filtering<N: Count>(
        self,
        eic: &Counted<EIController<WithClock<CS>, Configurable>, N>,
        config: EIConfigReg,
        val: u32,
        bus: &mut Bus,
    ) -> (r: ExtInt<I, M, Normal, WithClock<CS>, AS>)
        ensures
            r.token() == self.token(),
            r.pin() == self.pin(),
            final(bus)@ == old(bus)@.push(
                config_op::<I::EINum>(with_filter::<I::EINum>(config, false)),
            ).push(Op::Eic(EicOp::Asynch(with_line(val, <I::EINum as EINum>::MASK, false)))),
    {
        let _ = eic.disable_filtering::<I::EINum>(config, bus);
        eic.disable_async::<I::EINum>(val, bus);
        self.retag()
    }
}

impl<I, M, CS, AS> ExtInt<I, M, Debounced, WithClock<CS>, AS> where
    I: GetEINum,
    M: PinMode,
    CS: ClkSrc,
 {
    /// Switches the debouncer of the line off. `bits` is what the debouncer
    /// enable field holds.
    pub fn disable_debouncing<N: Count>(
        self,
        eic: &Counted<EIController<WithClock<CS>, Configurable>, N>,
        bits: u16,
        bus: &mut Bus,
    ) -> (r: ExtInt<I, M, Normal, WithClock<CS>, AS>)
        ensures
            r.token() == self.token(),
            r.pin() == self.pin(),
            final(bus)@ == old(bus)@.push(
                Op::Eic(EicOp::DebounceEn((bits & !(<I::EINum as EINum>::MASK)) as u32)),
            ),
    {
        eic.disable_debouncing::<I::EINum>(bits, bus);
        self.retag()
    }

    /// Whether the debounced line is high in the pin state `state`.
    pub fn pin_state(&self, state: u16) -> (r: bool)
        ensures
            r == ((state & <I::EINum as EINum>::MASK) != 0),
    {
        self.token.pin_state(state)
    }
}

impl<I, M, CS, AS> ExtInt<I, M, DebouncedAsync, WithClock<CS>, AS> where
    I: GetEINum,
    M: PinMode,
    CS: ClkSrc,
 {
    /// Switches the debouncer and the asynchronous detection of the line
    /// off. `bits` is what the debouncer enable field holds, `val` what the
    /// asynchronous mode register holds.
    pub fn disable_debouncing<N: Count>(
        self,
        eic: &Counted<EIController<WithClock<CS>, Configurable>, N>,
        bits: u16,
        val: u32,
        bus: &mut Bus,
    ) -> (r: ExtInt<I, M, Normal, WithClock<CS>, AS>)
        ensures
            r.token() == self.token(),
            r.pin() == self.pin(),
            final(bus)@ == old(bus)@.push(
                Op::Eic(EicOp::DebounceEn((bits & !(<I::EINum as EINum>::MASK)) as u32)),
            ).push(Op::Eic(EicOp::Asynch(with_line(val, <I::EINum as EINum>::MASK, false)))),
    {
        eic.disable_debouncing::<I::EINum>(bits, bus);
        eic.disable_async::<I::EINum>(val, bus);
        self.retag()
    }

    /// Whether the debounced line is high in the pin state `state`.
    pub fn pin_state(&self, state: u16) -> (r: bool)
        ensures
            r == ((state & <I::EINum as EINum>::MASK) != 0),
    {
        self.token.pin_state(state)
    }
}

//==============================================================================
// The non-maskable line
//==============================================================================
/// The non-maskable line, made from its token and its pin.
pub struct NmiExtInt<I, M, AM, AK, AS> where I: NmiEI, M: PinMode {
    token: NmiToken,
    pin: Pin<I, M>,
    mode: PhantomData<AM>,
    clockmode: PhantomData<AK>,
    sensemode: PhantomData<AS>,
}

impl<I, M, AM, AK, AS> NmiExtInt<I, M, AM, AK, AS> where I: NmiEI, M: PinMode {
    /// The token that the line was made from.
    pub closed spec fn token(self) -> NmiToken {
        self.token
    }

    /// The pin that the line was made from.
    pub closed spec fn pin(self) -> Pin<I, M> {
        self.pin
    }

    /// The token and the pin of the line.
    pub(crate) fn into_parts(self) -> (r: (NmiToken, Pin<I, M>))
        ensures
            r.0 == self.token(),
            r.1 == self.pin(),
    {
        (self.token, self.pin)
    }

    /// The line under another type: the token and the pin stay.
    fn retag<AM2, AK2, AS2>(self) -> (r: NmiExtInt<I, M, AM2, AK2, AS2>)
        ensures
            r.token() == self.token(),
            r.pin() == self.pin(),
    {
        NmiExtInt {
            token: self.token,
            pin: self.pin,
            mode: PhantomData,
            clockmode: PhantomData,
            sensemode: PhantomData,
        }
    }

    /// Changes the sense of the line to `S`.
    pub fn set_sense_mode<AK2, S, N>(
        self,
        eic: &Counted<EIController<AK2, Configurable>, N>,
        bus: &mut Bus,
    ) -> (r: NmiExtInt<I, M, AM, AK, S>) where AK2: AnyClock, S: SenseMode, N: Count
        ensures
            r.token() == self.token(),
            r.pin() == self.pin(),
            final(bus)@ == old(bus)@.push(Op::Eic(EicOp::NmiSense(S::SENSE.bits_spec()))),
    {
        eic.set_sense_mode_nmi(S::SENSE, bus);
        self.retag()
    }

    /// Clears the interrupt.
    pub fn clear_interrupt_status(&self, bus: &mut Bus)
        ensures
            final(bus)@ == old(bus)@.push(Op::Eic(EicOp::NmiFlagClear)),
    {
        self.token.clear_interrupt_status(bus);
    }
}

impl<I, M, AS> NmiExtInt<I, M, AsyncOnly, WithoutClock, AS> where I: NmiEI, M: PinMode {
    /// Makes the line, detecting without a clock.
    pub fn new_async(token: NmiToken, pin: Pin<I, M>, bus: &mut Bus) -> (r: Self)
        ensures
            r.token() == token,
            r.pin() == pin,
            final(bus)@ == old(bus)@.push(Op::Eic(EicOp::NmiAsync { flag: true })),
    {
        token.set_async_mode(true, bus);
        NmiExtInt { token, pin, mode: PhantomData, clockmode: PhantomData, sensemode: PhantomData }
    }
}

impl<I, M, CS, AS> NmiExtInt<I, M, Normal, WithClock<CS>, AS> where
    I: NmiEI,
    M: PinMode,
    CS: ClkSrc,
 {
    /// Makes the line, detecting on the clock of the controller.
    pub fn new_sync(token: NmiToken, pin: Pin<I, M>) -> (r: Self)
        ensures
            r.token() == token,
            r.pin() == pin,
    {
        NmiExtInt { token, pin, mode: PhantomData, clockmode: PhantomData, sensemode: PhantomData }
    }

    /// Switches the asynchronous detection of the line on.
    pub fn enable_async(self, bus: &mut Bus) -> (r: NmiExtInt<
        I,
        M,
        AsyncOnly,
        WithClock<CS>,
        AS,
    >)
        ensures
            r.token() == self.token(),
            r.pin() == self.pin(),
            final(bus)@ == old(bus)@.push(Op::Eic(EicOp::NmiAsync { flag: true })),
    {
        self.token.set_async_mode(true, bus);
        self.retag()
    }

}

impl<I, M, AK, AS> NmiExtInt<I, M, AsyncOnly, AK, AS> where I: NmiEI, M: PinMode {
    /// Switches the filter of the line on, and with it the asynchronous
    /// detection off. The filter needs the clock of the controller.
    pub fn enable_filtering<CS, N>(
        self,
        _eic: &Counted<EIController<WithClock<CS>, Configurable>, N>,
        bus: &mut Bus,
    ) -> (r: NmiExtInt<I, M, Filtered, WithClock<CS>, AS>) where CS: ClkSrc, N: Count
        ensures
            r.token() == self.token(),
            r.pin() == self.pin(),
            final(bus)@ == old(bus)@.push(Op::Eic(EicOp::NmiFilter { flag: true })).push(
                Op::Eic(EicOp::NmiAsync { flag: false }),
            ),
    {
        self.token.set_filter_mode(true, bus);
        self.token.set_async_mode(false, bus);
        self.retag()
    }
}

impl<I, M, CS, AS> NmiExtInt<I, M, Filtered, WithClock<CS>, AS> where
    I: NmiEI,
    M: PinMode,
    CS: ClkSrc,
 {
    /// Switches the filter of the line off.
    pub fn disable_filtering(self, bus: &mut Bus) -> (r: NmiExtInt<
        I,
        M,
        Normal,
        WithClock<CS>,
        AS,
    >)
        ensures
            r.token() == self.token(),
            r.pin() == self.pin(),
            final(bus)@ == old(bus)@.push(Op::Eic(EicOp::NmiFilter { flag: false })),
    {
        self.token.set_filter_mode(false, bus);
        self.retag()
    }
}

} // verus!
