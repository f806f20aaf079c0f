//! The external interrupt controller.
//!
//! The controller watches sixteen lines and one non-maskable line. Each line
//! has a token; the registers that the lines share belong to the
//! [`eicontroller::EIController`], which computes their new contents from
//! what the caller has read.
use core::marker::PhantomData;
use bitfield::{Bit, BitRange};
use vstd::prelude::*;
use crate::bus::{Bus, Op};
use crate::gpio::{PinId, PA08, PA14, PA15, PB22, PB23};
use crate::typelevel::{NoneT, Sealed};

pub mod eicontroller;
pub mod extint;
pub mod v1;

verus! {

//==============================================================================
// Transactions
//==============================================================================
/// What clocks the controller.
#[derive(Clone, Copy, Debug, PartialEq, Eq)]
pub enum CKSEL_A {
    /// The controller's peripheral channel.
    CLK_GCLK,
    /// The ultra low power 32 kHz oscillator.
    CLK_ULP32K,
}

/// What ticks the debouncer.
#[derive(Clone, Copy, Debug, PartialEq, Eq)]
pub enum TICKON_A {
    /// The clock of the controller.
    CLK_GCLK_EIC,
    /// The low frequency clock.
    CLK_LFREQ,
}

/// By how much the debouncer's clock is divided.
#[derive(Clone, Copy, Debug, PartialEq, Eq)]
pub enum PRESCALER_A {
    DIV2,
    DIV4,
    DIV8,
    DIV16,
    DIV32,
    DIV64,
    DIV128,
    DIV256,
}

/// The prescaler of lines 0 to 7.
pub type PRESCALER0_A = PRESCALER_A;

/// The prescaler of lines 8 to 15.
pub type PRESCALER1_A = PRESCALER_A;

/// How many equal samples the debouncer asks for.
#[derive(Clone, Copy, Debug, PartialEq, Eq)]
pub enum STATES_A {
    /// Three samples.
    LFREQ3,
    /// Seven samples.
    LFREQ7,
}

/// The sample count of lines 0 to 7.
pub type STATES0_A = STATES_A;

/// The sample count of lines 8 to 15.
pub type STATES1_A = STATES_A;

/// The settings of the debouncer, which all lines share.
#[derive(Clone, Copy, Debug, PartialEq, Eq)]
pub struct DebouncerSettings {
    pub tickon: TICKON_A,
    pub prescaler0: PRESCALER0_A,
    pub states0: STATES0_A,
    pub prescaler1: PRESCALER1_A,
    pub states1: STATES1_A,
}

impl DebouncerSettings {
    /// Replaces what ticks the debouncer.
    pub fn set_tickon(&mut self, tick: TICKON_A)
        ensures
            *final(self) == (DebouncerSettings { tickon: tick, ..*old(self) }),
    {
        self.tickon = tick;
    }

    /// Replaces the prescaler of lines 0 to 7.
    pub fn set_prescaler0(&mut self, prescale: PRESCALER0_A)
        ensures
            *final(self) == (DebouncerSettings { prescaler0: prescale, ..*old(self) }),
    {
        self.prescaler0 = prescale;
    }

    /// Replaces the sample count of lines 0 to 7.
    pub fn set_states0(&mut self, states: STATES0_A)
        ensures
            *final(self) == (DebouncerSettings { states0: states, ..*old(self) }),
    {
        self.states0 = states;
    }

    /// Replaces the prescaler of lines 8 to 15.
    pub fn set_prescaler1(&mut self, prescale: PRESCALER1_A)
        ensures
            *final(self) == (DebouncerSettings { prescaler1: prescale, ..*old(self) }),
    {
        self.prescaler1 = prescale;
    }

    /// Replaces the sample count of lines 8 to 15.
    pub fn set_states1(&mut self, states: STATES1_A)
        ensures
            *final(self) == (DebouncerSettings { states1: states, ..*old(self) }),
    {
        self.states1 = states;
    }
}

impl Default for DebouncerSettings {
    fn default() -> (r: Self)
        ensures
            r == (DebouncerSettings {
                tickon: TICKON_A::CLK_LFREQ,
                prescaler0: PRESCALER_A::DIV2,
                states0: STATES_A::LFREQ3,
                prescaler1: PRESCALER_A::DIV2,
                states1: STATES_A::LFREQ3,
            }),
    {
        Self {
            tickon: TICKON_A::CLK_LFREQ,
            prescaler0: PRESCALER0_A::DIV2,
            states0: STATES0_A::LFREQ3,
            prescaler1: PRESCALER1_A::DIV2,
            states1: STATES1_A::LFREQ3,
        }
    }
}

/// One transaction with the controller.
#[derive(Clone, Copy, Debug, PartialEq, Eq)]
pub enum EicOp {
    /// Switch on the controller's bus clock.
    BusClockOn,
    /// Set the software reset bit.
    SwRst,
    /// Wait until the software reset is over.
    WaitSwRst,
    /// Select what clocks the controller.
    ClockSelect(CKSEL_A),
    /// Write the enable bit.
    Enable { flag: bool },
    /// Wait until the enable bit has arrived.
    WaitEnable,
    /// Write the whole of configuration register `index`.
    Config { index: usize, value: u32 },
    /// Write the control register of the non-maskable line with only the
    /// sense field set.
    NmiSense(u8),
    /// Write the control register of the non-maskable line with only the
    /// filter flag set to `flag`.
    NmiFilter { flag: bool },
    /// Write the control register of the non-maskable line with only the
    /// asynchronous flag set to `flag`.
    NmiAsync { flag: bool },
    /// Clear the flag of the non-maskable line.
    NmiFlagClear,
    /// Write the whole event control register.
    EventControl(u32),
    /// Write the whole asynchronous mode register.
    Asynch(u32),
    /// Write the debouncer enable field.
    DebounceEn(u32),
    /// Write the debouncer prescaler register.
    DPrescaler(DebouncerSettings),
    /// Enable the interrupts of the lines in the mask.
    IntenSet(u32),
    /// Disable the interrupts of the lines in the mask.
    IntenClr(u32),
    /// Clear the flags of the lines in the mask.
    IntFlagClear(u32),
}

//==============================================================================
// Mode
//==============================================================================
/// How a line detects.
#[derive(Clone, Copy, Debug, PartialEq, Eq)]
pub enum EIMode {
    Normal,
    AsyncOnly,
    Filtered,
    FilteredAsync,
    Debounced,
    DebouncedAsync,
}

/// A detection mode, as a type.
pub trait Mode: Sealed {
    /// The mode that the type stands for.
    const MODE: EIMode;
}

/// Detection on the clock of the controller.
pub enum Normal {
    /// The type is a marker; its value is never looked at.
    Marker,
}

impl Sealed for Normal {

}

impl Mode for Normal {
    const MODE: EIMode = EIMode::Normal;
}

impl AnyMode for Normal {
    type Mode = Normal;
}

/// Detection without a clock.
pub enum AsyncOnly {
    /// The type is a marker; its value is never looked at.
    Marker,
}

impl Sealed for AsyncOnly {

}

impl Mode for AsyncOnly {
    const MODE: EIMode = EIMode::AsyncOnly;
}

impl AnyMode for AsyncOnly {
    type Mode = AsyncOnly;
}

/// Detection through the majority filter.
pub enum Filtered {
    /// The type is a marker; its value is never looked at.
    Marker,
}

impl Sealed for Filtered {

}

impl Mode for Filtered {
    const MODE: EIMode = EIMode::Filtered;
}

impl AnyMode for Filtered {
    type Mode = Filtered;
}

/// Detection through the majority filter, without a clock.
pub enum FilteredAsync {
    /// The type is a marker; its value is never looked at.
    Marker,
}

impl Sealed for FilteredAsync {

}

impl Mode for FilteredAsync {
    const MODE: EIMode = EIMode::FilteredAsync;
}

impl AnyMode for FilteredAsync {
    type Mode = FilteredAsync;
}

/// Detection through the debouncer.
pub enum Debounced {
    /// The type is a marker; its value is never looked at.
    Marker,
}

impl Sealed for Debounced {

}

impl Mode for Debounced {
    const MODE: EIMode = EIMode::Debounced;
}

impl AnyMode for Debounced {
    type Mode = Debounced;
}

/// Detection through the debouncer, with the edge taken without a clock.
pub enum DebouncedAsync {
    /// The type is a marker; its value is never looked at.
    Marker,
}

impl Sealed for DebouncedAsync {

}

impl Mode for DebouncedAsync {
    const MODE: EIMode = EIMode::DebouncedAsync;
}

impl AnyMode for DebouncedAsync {
    type Mode = DebouncedAsync;
}

/// Type class for all possible [`Mode`] types.
pub trait AnyMode: Sealed {
    /// The mode itself.
    type Mode: Mode;
}

/// The mode that `S` stands for.
pub type SpecificMode<S> = <S as AnyMode>::Mode;

//==============================================================================
// Sense
//==============================================================================
/// What triggers an interrupt or an event.
#[derive(Clone, Copy, Debug, PartialEq, Eq)]
pub enum Sense {
    /// No detection.
    Off,
    /// Rising-edge detection.
    Rise,
    /// Falling-edge detection.
    Fall,
    /// Both-edge detection.
    Both,
    /// High-level detection.
    High,
    /// Low-level detection.
    Low,
}

impl Sense {
    /// The value of the sense field.
    pub open spec fn bits_spec(self) -> u8 {
        match self {
            Sense::Off => 0,
            Sense::Rise => 1,
            Sense::Fall => 2,
            Sense::Both => 3,
            Sense::High => 4,
            Sense::Low => 5,
        }
    }

    /// The value of the sense field.
    pub fn bits(self) -> (r: u8)
        ensures
            r == self.bits_spec(),
            r < 8,
    {
        match self {
            Sense::Off => 0,
            Sense::Rise => 1,
            Sense::Fall => 2,
            Sense::Both => 3,
            Sense::High => 4,
            Sense::Low => 5,
        }
    }
}

/// Trait for all input [`Sense`] modes.
pub trait SenseMode: Sealed {
    /// The sense that the type stands for.
    const SENSE: Sense;
}

/// No detection.
pub enum SenseNone {
    /// The type is a marker; its value is never looked at.
    Marker,
}

impl Sealed for SenseNone {

}

impl SenseMode for SenseNone {
    const SENSE: Sense = Sense::Off;
}

impl AnySenseMode for SenseNone {
    type Mode = SenseNone;
}

/// Rising-edge detection.
pub enum SenseRise {
    /// The type is a marker; its value is never looked at.
    Marker,
}

impl Sealed for SenseRise {

}

impl SenseMode for SenseRise {
    const SENSE: Sense = Sense::Rise;
}

impl AnySenseMode for SenseRise {
    type Mode = SenseRise;
}

/// Falling-edge detection.
pub enum SenseFall {
    /// The type is a marker; its value is never looked at.
    Marker,
}

impl Sealed for SenseFall {

}

impl SenseMode for SenseFall {
    const SENSE: Sense = Sense::Fall;
}

impl AnySenseMode for SenseFall {
    type Mode = SenseFall;
}

/// Both-edge detection.
pub enum SenseBoth {
    /// The type is a marker; its value is never looked at.
    Marker,
}

impl Sealed for SenseBoth {

}

impl SenseMode for SenseBoth {
    const SENSE: Sense = Sense::Both;
}

impl AnySenseMode for SenseBoth {
    type Mode = SenseBoth;
}

/// High-level detection.
pub enum SenseHigh {
    /// The type is a marker; its value is never looked at.
    Marker,
}

impl Sealed for SenseHigh {

}

impl SenseMode for SenseHigh {
    const SENSE: Sense = Sense::High;
}

impl AnySenseMode for SenseHigh {
    type Mode = SenseHigh;
}

/// Low-level detection.
pub enum SenseLow {
    /// The type is a marker; its value is never looked at.
    Marker,
}

impl Sealed for SenseLow {

}

impl SenseMode for SenseLow {
    const SENSE: Sense = Sense::Low;
}

impl AnySenseMode for SenseLow {
    type Mode = SenseLow;
}

/// Valid sense modes for level detection.
pub trait LevelDetectMode: SenseMode {

}

impl LevelDetectMode for SenseHigh {

}

impl LevelDetectMode for SenseLow {

}

/// Valid sense modes for edge detection.
pub trait EdgeDetectMode: SenseMode {

}

impl EdgeDetectMode for SenseRise {

}

impl EdgeDetectMode for SenseFall {

}

impl EdgeDetectMode for SenseBoth {

}

/// Valid sense modes with debouncing active.
pub trait DebounceMode: EdgeDetectMode {

}

impl DebounceMode for SenseRise {

}

impl DebounceMode for SenseFall {

}

impl DebounceMode for SenseBoth {

}

/// Type class for all possible [`SenseMode`] types.
pub trait AnySenseMode: SenseMode + Sealed {
    /// The sense mode itself.
    type Mode: SenseMode;
}

/// The sense mode that `S` stands for.
pub type SpecificSenseMode<S> = <S as AnySenseMode>::Mode;

//==============================================================================
// EINum
//==============================================================================
/// The identity of one line, as a type.
///
/// The lines share two configuration registers, eight lines each; a line
/// has four bits of its register, three for the sense and one for the
/// filter.
pub trait EINum: Sealed {
    /// The number of the line.
    const NUM: u8;

    /// The configuration register of the line.
    const OFFSET: u8;

    /// The bit of the line in the registers that have one bit for each
    /// line.
    const MASK: u16;

    /// The filter bit of the line in its configuration register.
    const FILTEN: u8;

    /// The lowest bit of the sense field of the line.
    const SENSELSB: u8;

    /// The highest bit of the sense field of the line.
    const SENSEMSB: u8;

    /// How the constants follow from the number of the line.
    proof fn layout()
        ensures
            Self::NUM < 16,
            Self::OFFSET == Self::NUM / 8,
            Self::MASK == 1u16 << (Self::NUM as u16),
            Self::SENSELSB == (Self::NUM % 8) * 4,
            Self::SENSEMSB == Self::SENSELSB + 2,
            Self::FILTEN == Self::SENSELSB + 3,
    ;
}

/// Token type for line 0.
pub enum EI00 {
    /// The type is a marker; its value is never looked at.
    Marker,
}

impl Sealed for EI00 {

}

impl EINum for EI00 {
    const NUM: u8 = 0;

    const OFFSET: u8 = 0;

    const MASK: u16 = 1;

    const FILTEN: u8 = 3;

    const SENSELSB: u8 = 0;

    const SENSEMSB: u8 = 2;

    proof fn layout() {
        assert(1u16 == 1u16 << 0u16) by (bit_vector);
    }
}

/// Token type for line 1.
pub enum EI01 {
    /// The type is a marker; its value is never looked at.
    Marker,
}

impl Sealed for EI01 {

}

impl EINum for EI01 {
    const NUM: u8 = 1;

    const OFFSET: u8 = 0;

    const MASK: u16 = 2;

    const FILTEN: u8 = 7;

    const SENSELSB: u8 = 4;

    const SENSEMSB: u8 = 6;

    proof fn layout() {
        assert(2u16 == 1u16 << 1u16) by (bit_vector);
    }
}

/// Token type for line 2.
pub enum EI02 {
    /// The type is a marker; its value is never looked at.
    Marker,
}

impl Sealed for EI02 {

}

impl EINum for EI02 {
    const NUM: u8 = 2;

    const OFFSET: u8 = 0;

    const MASK: u16 = 4;

    const FILTEN: u8 = 11;

    const SENSELSB: u8 = 8;

    const SENSEMSB: u8 = 10;

    proof fn layout() {
        assert(4u16 == 1u16 << 2u16) by (bit_vector);
    }
}

/// Token type for line 3.
pub enum EI03 {
    /// The type is a marker; its value is never looked at.
    Marker,
}

impl Sealed for EI03 {

}

impl EINum for EI03 {
    const NUM: u8 = 3;

    const OFFSET: u8 = 0;

    const MASK: u16 = 8;

    const FILTEN: u8 = 15;

    const SENSELSB: u8 = 12;

    const SENSEMSB: u8 = 14;

    proof fn layout() {
        assert(8u16 == 1u16 << 3u16) by (bit_vector);
    }
}

/// Token type for line 4.
pub enum EI04 {
    /// The type is a marker; its value is never looked at.
    Marker,
}

impl Sealed for EI04 {

}

impl EINum for EI04 {
    const NUM: u8 = 4;

    const OFFSET: u8 = 0;

    const MASK: u16 = 16;

    const FILTEN: u8 = 19;

    const SENSELSB: u8 = 16;

    const SENSEMSB: u8 = 18;

    proof fn layout() {
        assert(16u16 == 1u16 << 4u16) by (bit_vector);
    }
}

/// Token type for line 5.
pub enum EI05 {
    /// The type is a marker; its value is never looked at.
    Marker,
}

impl Sealed for EI05 {

}

impl EINum for EI05 {
    const NUM: u8 = 5;

    const OFFSET: u8 = 0;

    const MASK: u16 = 32;

    const FILTEN: u8 = 23;

    const SENSELSB: u8 = 20;

    const SENSEMSB: u8 = 22;

    proof fn layout() {
        assert(32u16 == 1u16 << 5u16) by (bit_vector);
    }
}

/// Token type for line 6.
pub enum EI06 {
    /// The type is a marker; its value is never looked at.
    Marker,
}

impl Sealed for EI06 {

}

impl EINum for EI06 {
    const NUM: u8 = 6;

    const OFFSET: u8 = 0;

    const MASK: u16 = 64;

    const FILTEN: u8 = 27;

    const SENSELSB: u8 = 24;

    const SENSEMSB: u8 = 26;

    proof fn layout() {
        assert(64u16 == 1u16 << 6u16) by (bit_vector);
    }
}

/// Token type for line 7.
pub enum EI07 {
    /// The type is a marker; its value is never looked at.
    Marker,
}

impl Sealed for EI07 {

}

impl EINum for EI07 {
    const NUM: u8 = 7;

    const OFFSET: u8 = 0;

    const MASK: u16 = 128;

    const FILTEN: u8 = 31;

    const SENSELSB: u8 = 28;

    const SENSEMSB: u8 = 30;

    proof fn layout() {
        assert(128u16 == 1u16 << 7u16) by (bit_vector);
    }
}

/// Token type for line 8.
pub enum EI08 {
    /// The type is a marker; its value is never looked at.
    Marker,
}

impl Sealed for EI08 {

}

impl EINum for EI08 {
    const NUM: u8 = 8;

    const OFFSET: u8 = 1;

    const MASK: u16 = 256;

    const FILTEN: u8 = 3;

    const SENSELSB: u8 = 0;

    const SENSEMSB: u8 = 2;

    proof fn layout() {
        assert(256u16 == 1u16 << 8u16) by (bit_vector);
    }
}

/// Token type for line 9.
pub enum EI09 {
    /// The type is a marker; its value is never looked at.
    Marker,
}

impl Sealed for EI09 {

}

impl EINum for EI09 {
    const NUM: u8 = 9;

    const OFFSET: u8 = 1;

    const MASK: u16 = 512;

    const FILTEN: u8 = 7;

    const SENSELSB: u8 = 4;

    const SENSEMSB: u8 = 6;

    proof fn layout() {
        assert(512u16 == 1u16 << 9u16) by (bit_vector);
    }
}

/// Token type for line 10.
pub enum EI10 {
    /// The type is a marker; its value is never looked at.
    Marker,
}

impl Sealed for EI10 {

}

impl EINum for EI10 {
    const NUM: u8 = 10;

    const OFFSET: u8 = 1;

    const MASK: u16 = 1024;

    const FILTEN: u8 = 11;

    const SENSELSB: u8 = 8;

    const SENSEMSB: u8 = 10;

    proof fn layout() {
        assert(1024u16 == 1u16 << 10u16) by (bit_vector);
    }
}

/// Token type for line 11.
pub enum EI11 {
    /// The type is a marker; its value is never looked at.
    Marker,
}

impl Sealed for EI11 {

}

impl EINum for EI11 {
    const NUM: u8 = 11;

    const OFFSET: u8 = 1;

    const MASK: u16 = 2048;

    const FILTEN: u8 = 15;

    const SENSELSB: u8 = 12;

    const SENSEMSB: u8 = 14;

    proof fn layout() {
        assert(2048u16 == 1u16 << 11u16) by (bit_vector);
    }
}

/// Token type for line 12.
pub enum EI12 {
    /// The type is a marker; its value is never looked at.
    Marker,
}

impl Sealed for EI12 {

}

impl EINum for EI12 {
    const NUM: u8 = 12;

    const OFFSET: u8 = 1;

    const MASK: u16 = 4096;

    const FILTEN: u8 = 19;

    const SENSELSB: u8 = 16;

    const SENSEMSB: u8 = 18;

    proof fn layout() {
        assert(4096u16 == 1u16 << 12u16) by (bit_vector);
    }
}

/// Token type for line 13.
pub enum EI13 {
    /// The type is a marker; its value is never looked at.
    Marker,
}

impl Sealed for EI13 {

}

impl EINum for EI13 {
    const NUM: u8 = 13;

    const OFFSET: u8 = 1;

    const MASK: u16 = 8192;

    const FILTEN: u8 = 23;

    const SENSELSB: u8 = 20;

    const SENSEMSB: u8 = 22;

    proof fn layout() {
        assert(8192u16 == 1u16 << 13u16) by (bit_vector);
    }
}

/// Token type for line 14.
pub enum EI14 {
    /// The type is a marker; its value is never looked at.
    Marker,
}

impl Sealed for EI14 {

}

impl EINum for EI14 {
    const NUM: u8 = 14;

    const OFFSET: u8 = 1;

    const MASK: u16 = 16384;

    const FILTEN: u8 = 27;

    const SENSELSB: u8 = 24;

    const SENSEMSB: u8 = 26;

    proof fn layout() {
        assert(16384u16 == 1u16 << 14u16) by (bit_vector);
    }
}

/// Token type for line 15.
pub enum EI15 {
    /// The type is a marker; its value is never looked at.
    Marker,
}

impl Sealed for EI15 {

}

impl EINum for EI15 {
    const NUM: u8 = 15;

    const OFFSET: u8 = 1;

    const MASK: u16 = 32768;

    const FILTEN: u8 = 31;

    const SENSELSB: u8 = 28;

    const SENSEMSB: u8 = 30;

    proof fn layout() {
        assert(32768u16 == 1u16 << 15u16) by (bit_vector);
    }
}

/// Token type for the non-maskable line.
pub enum EINMI {
    /// The type is a marker; its value is never looked at.
    Marker,
}

impl Sealed for EINMI {

}

//==============================================================================
// Registers
//==============================================================================
/// The registers of line `E` that no other line shares.
struct Registers<E: EINum> {
    ei_num: PhantomData<E>,
}

/// The registers of the non-maskable line.
struct NmiRegisters {
    ei_nmi: PhantomData<NoneT>,
}

impl NmiRegisters {
    fn new() -> Self {
        NmiRegisters { ei_nmi: PhantomData }
    }

    /// Switches the filter of the line on or off.
    fn set_filter_mode(&self, usefilter: bool, bus: &mut Bus)
        ensures
            final(bus)@ == old(bus)@.push(Op::Eic(EicOp::NmiFilter { flag: usefilter })),
    {
        bus.push(Op::Eic(EicOp::NmiFilter { flag: usefilter }));
    }

    /// Switches the asynchronous detection of the line on or off.
    fn set_async_mode(&self, useasync: bool, bus: &mut Bus)
        ensures
            final(bus)@ == old(bus)@.push(Op::Eic(EicOp::NmiAsync { flag: useasync })),
    {
        bus.push(Op::Eic(EicOp::NmiAsync { flag: useasync }));
    }

    /// Clears the interrupt.
    fn clear_interrupt_status(&self, bus: &mut Bus)
        ensures
            final(bus)@ == old(bus)@.push(Op::Eic(EicOp::NmiFlagClear)),
    {
        bus.push(Op::Eic(EicOp::NmiFlagClear));
    }
}

impl<E: EINum> Registers<E> {
    fn new() -> Self {
        Registers { ei_num: PhantomData }
    }

    /// Whether the line is high in the pin state `state`.
    fn pin_state(&self, state: u16) -> (r: bool)
        ensures
            r == ((state & E::MASK) != 0),
    {
        (state & E::MASK) != 0
    }

    /// Enables the interrupt of the line.
    fn enable_interrupt(&self, bus: &mut Bus)
        ensures
            final(bus)@ == old(bus)@.push(Op::Eic(EicOp::IntenSet(E::MASK as u32))),
    {
        bus.push(Op::Eic(EicOp::IntenSet(E::MASK as u32)));
    }

    /// Disables the interrupt of the line.
    fn disable_interrupt(&self, bus: &mut Bus)
        ensures
            final(bus)@ == old(bus)@.push(Op::Eic(EicOp::IntenClr(E::MASK as u32))),
    {
        bus.push(Op::Eic(EicOp::IntenClr(E::MASK as u32)));
    }

    /// Whether the line has triggered, given the flags `state`.
    fn get_interrupt_status(&self, state: u16) -> (r: bool)
        ensures
            r == ((state & E::MASK) != 0),
    {
        (state & E::MASK) != 0
    }

    /// Clears the flag of the line.
    fn clear_interrupt_status(&self, bus: &mut Bus)
        ensures
            final(bus)@ == old(bus)@.push(Op::Eic(EicOp::IntFlagClear(E::MASK as u32))),
    {
        bus.push(Op::Eic(EicOp::IntFlagClear(E::MASK as u32)));
    }
}

//==============================================================================
// Token
//==============================================================================
/// The token of line `E`. A line is made from its token, so no two pins
/// share a line.
pub struct Token<E: EINum> {
    regs: Registers<E>,
}

impl<E: EINum> Token<E> {
    fn new() -> Self {
        Token { regs: Registers::new() }
    }

    /// Whether the line is high in the pin state `state`.
    pub fn pin_state(&self, state: u16) -> (r: bool)
        ensures
            r == ((state & E::MASK) != 0),
    {
        self.regs.pin_state(state)
    }

    /// Enables the interrupt of the line.
    pub fn enable_interrupt(&self, bus: &mut Bus)
        ensures
            final(bus)@ == old(bus)@.push(Op::Eic(EicOp::IntenSet(E::MASK as u32))),
    {
        self.regs.enable_interrupt(bus);
    }

    /// Disables the interrupt of the line.
    pub fn disable_interrupt(&self, bus: &mut Bus)
        ensures
            final(bus)@ == old(bus)@.push(Op::Eic(EicOp::IntenClr(E::MASK as u32))),
    {
        self.regs.disable_interrupt(bus);
    }

    /// Whether the line has triggered, given the flags `state`.
    pub fn get_interrupt_status(&self, state: u16) -> (r: bool)
        ensures
            r == ((state & E::MASK) != 0),
    {
        self.regs.get_interrupt_status(state)
    }

    /// Clears the flag of the line.
    pub fn clear_interrupt_status(&self, bus: &mut Bus)
        ensures
            final(bus)@ == old(bus)@.push(Op::Eic(EicOp::IntFlagClear(E::MASK as u32))),
    {
        self.regs.clear_interrupt_status(bus);
    }
}

/// The token of the non-maskable line.
pub struct NmiToken {
    regs: NmiRegisters,
}

impl NmiToken {
    fn new() -> Self {
        NmiToken { regs: NmiRegisters::new() }
    }

    /// Switches the filter of the line on or off.
    pub fn set_filter_mode(&self, usefilter: bool, bus: &mut Bus)
        ensures
            final(bus)@ == old(bus)@.push(Op::Eic(EicOp::NmiFilter { flag: usefilter })),
    {
        self.regs.set_filter_mode(usefilter, bus);
    }

    /// Switches the asynchronous detection of the line on or off.
    pub fn set_async_mode(&self, useasync: bool, bus: &mut Bus)
        ensures
            final(bus)@ == old(bus)@.push(Op::Eic(EicOp::NmiAsync { flag: useasync })),
    {
        self.regs.set_async_mode(useasync, bus);
    }

    /// Clears the interrupt.
    pub fn clear_interrupt_status(&self, bus: &mut Bus)
        ensures
            final(bus)@ == old(bus)@.push(Op::Eic(EicOp::NmiFlagClear)),
    {
        self.regs.clear_interrupt_status(bus);
    }
}

/// Tokens for each line.
pub struct Tokens {
    /// Token for line 0.
    pub ext_int_00: Token<EI00>,
    /// Token for line 1.
    pub ext_int_01: Token<EI01>,
    /// Token for line 2.
    pub ext_int_02: Token<EI02>,
    /// Token for line 3.
    pub ext_int_03: Token<EI03>,
    /// Token for line 4.
    pub ext_int_04: Token<EI04>,
    /// Token for line 5.
    pub ext_int_05: Token<EI05>,
    /// Token for line 6.
    pub ext_int_06: Token<EI06>,
    /// Token for line 7.
    pub ext_int_07: Token<EI07>,
    /// Token for line 8.
    pub ext_int_08: Token<EI08>,
    /// Token for line 9.
    pub ext_int_09: Token<EI09>,
    /// Token for line 10.
    pub ext_int_10: Token<EI10>,
    /// Token for line 11.
    pub ext_int_11: Token<EI11>,
    /// Token for line 12.
    pub ext_int_12: Token<EI12>,
    /// Token for line 13.
    pub ext_int_13: Token<EI13>,
    /// Token for line 14.
    pub ext_int_14: Token<EI14>,
    /// Token for line 15.
    pub ext_int_15: Token<EI15>,
    /// Token for the non-maskable line.
    pub ext_int_nmi: NmiToken,
}

impl Tokens {
    /// The tokens of all lines.
    pub(crate) fn new() -> Self {
        Tokens {
            ext_int_00: Token::new(),
            ext_int_01: Token::new(),
            ext_int_02: Token::new(),
            ext_int_03: Token::new(),
            ext_int_04: Token::new(),
            ext_int_05: Token::new(),
            ext_int_06: Token::new(),
            ext_int_07: Token::new(),
            ext_int_08: Token::new(),
            ext_int_09: Token::new(),
            ext_int_10: Token::new(),
            ext_int_11: Token::new(),
            ext_int_12: Token::new(),
            ext_int_13: Token::new(),
            ext_int_14: Token::new(),
            ext_int_15: Token::new(),
            ext_int_nmi: NmiToken::new(),
        }
    }
}

//==============================================================================
// Register representations
//==============================================================================
/// The mask of the bits `lsb` to `msb` of a word.
pub open spec fn field_mask(msb: usize, lsb: usize) -> u32 {
    ((0xFFFF_FFFFu32 << ((31 - msb) as u32)) >> ((31 - msb + lsb) as u32)) << (lsb as u32)
}

/// The bits `lsb` to `msb` of `word`, as a number.
pub open spec fn get_field(word: u32, msb: usize, lsb: usize) -> u8 {
    ((word & field_mask(msb, lsb)) >> (lsb as u32)) as u8
}

/// `word` with the bits `lsb` to `msb` replaced by the low bits of
/// `value`.
pub open spec fn set_field(word: u32, msb: usize, lsb: usize, value: u8) -> u32 {
    (word & !field_mask(msb, lsb)) | (((value as u32) << (lsb as u32)) & field_mask(msb, lsb))
}

/// `BitRange::<u8>::bit_range` of bitfield, on a `u32`: the bits `lsb` to
/// `msb` of the word, shifted down. The field must lie in the word and be
/// at most eight bits wide, or the shifts in it overflow.
#[verifier::external_body]
fn u32_bit_range(word: &u32, msb: usize, lsb: usize) -> (r: u8)
    requires
        lsb <= msb < 32,
        msb - lsb < 8,
    ensures
        r == get_field(*word, msb, lsb),
{
    BitRange::<u8>::bit_range(word, msb, lsb)
}

/// `BitRange::<u8>::set_bit_range` of bitfield, on a `u32`: the bits `lsb`
/// to `msb` of the word are replaced by the low bits of `value`, the others
/// stay. The field must lie in the word, or the shifts in it overflow.
#[verifier::external_body]
fn u32_set_bit_range(word: &mut u32, msb: usize, lsb: usize, value: u8)
    requires
        lsb <= msb < 32,
    ensures
        *final(word) == set_field(*old(word), msb, lsb, value),
{
    BitRange::<u8>::set_bit_range(word, msb, lsb, value)
}

/// `Bit::bit` of bitfield, on a `u32`: whether bit `bit` of the word is
/// set.
#[verifier::external_body]
fn u32_bit(word: &u32, bit: usize) -> (r: bool)
    requires
        bit < 32,
    ensures
        r == (get_field(*word, bit, bit) != 0),
{
    Bit::bit(word, bit)
}

/// `Bit::set_bit` of bitfield, on a `u32`: bit `bit` of the word is
/// replaced by `value`, the others stay.
#[verifier::external_body]
fn u32_set_bit(word: &mut u32, bit: usize, value: bool)
    requires
        bit < 32,
    ensures
        *final(word) == set_field(*old(word), bit, bit, if value {
            1u8
        } else {
            0u8
        }),
{
    Bit::set_bit(word, bit, value)
}

/// A field that was set reads back as the low bits of what was written, and
/// the bits outside it are as before.
pub proof fn lemma_set_field(word: u32, msb: usize, lsb: usize, value: u8)
    requires
        lsb <= msb < 32,
        msb - lsb < 8,
    ensures
        get_field(set_field(word, msb, lsb, value), msb, lsb) as u32 == (value as u32) & (field_mask(
            msb,
            lsb,
        ) >> (lsb as u32)),
        set_field(word, msb, lsb, value) & !field_mask(msb, lsb) == word & !field_mask(msb, lsb),
{
    let m = msb as u32;
    let l = lsb as u32;
    let v = value as u32;
    let mask = field_mask(msb, lsb);
    assert(mask == ((0xFFFF_FFFFu32 << ((31 - m) as u32)) >> ((31 - m + l) as u32)) << l);
    let new = (word & !mask) | ((v << l) & mask);
    assert(((new & mask) >> l) == v & (mask >> l) && (new & !mask) == (word & !mask)
        && ((new & mask) >> l) < 256) by (bit_vector)
        requires
            l <= m < 32,
            m - l < 8,
            v < 256,
            mask == ((0xFFFF_FFFFu32 << ((31 - m) as u32)) >> ((31 - m + l) as u32)) << l,
            new == (word & !mask) | ((v << l) & mask),
    ;
}

/// One of the two configuration registers, which hold the sense and the
/// filter flag of eight lines each.
#[derive(Clone, Copy, Debug, PartialEq, Eq)]
pub struct EIConfigReg(pub u32);

impl EIConfigReg {
    /// The bits `lsb` to `msb` of the register.
    pub fn bit_range(&self, msb: usize, lsb: usize) -> (r: u8)
        requires
            lsb <= msb < 32,
            msb - lsb < 8,
        ensures
            r == get_field(self.0, msb, lsb),
    {
        u32_bit_range(&self.0, msb, lsb)
    }

    /// Replaces the bits `lsb` to `msb` of the register by the low bits of
    /// `value`.
    pub fn set_bit_range(&mut self, msb: usize, lsb: usize, value: u8)
        requires
            lsb <= msb < 32,
        ensures
            final(self).0 == set_field(old(self).0, msb, lsb, value),
    {
        let mut word = self.0;
        u32_set_bit_range(&mut word, msb, lsb, value);
        self.0 = word;
    }

    /// Bit `bit` of the register.
    pub fn bit(&self, bit: usize) -> (r: bool)
        requires
            bit < 32,
        ensures
            r == (get_field(self.0, bit, bit) != 0),
    {
        u32_bit(&self.0, bit)
    }

    /// Replaces bit `bit` of the register by `value`.
    pub fn set_bit(&mut self, bit: usize, value: bool)
        requires
            bit < 32,
        ensures
            final(self).0 == set_field(old(self).0, bit, bit, if value {
                1u8
            } else {
                0u8
            }),
    {
        let mut word = self.0;
        u32_set_bit(&mut word, bit, value);
        self.0 = word;
    }

    /// The sense of the register's line 0.
    pub fn get_sense0(&self) -> (r: u8)
        ensures
            r == get_field(self.0, 2, 0),
    {
        self.bit_range(2, 0)
    }

    /// Replaces the sense of the register's line 0.
    pub fn set_sense0(&mut self, value: u8)
        ensures
            final(self).0 == set_field(old(self).0, 2, 0, value),
    {
        self.set_bit_range(2, 0, value)
    }

    /// The filter flag of the register's line 0.
    pub fn get_filten0(&self) -> (r: u8)
        ensures
            r == get_field(self.0, 3, 3),
    {
        self.bit_range(3, 3)
    }

    /// Replaces the filter flag of the register's line 0.
    pub fn set_filten0(&mut self, value: u8)
        ensures
            final(self).0 == set_field(old(self).0, 3, 3, value),
    {
        self.set_bit_range(3, 3, value)
    }

    /// The sense of the register's line 1.
    pub fn get_sense1(&self) -> (r: u8)
        ensures
            r == get_field(self.0, 6, 4),
    {
        self.bit_range(6, 4)
    }

    /// Replaces the sense of the register's line 1.
    pub fn set_sense1(&mut self, value: u8)
        ensures
            final(self).0 == set_field(old(self).0, 6, 4, value),
    {
        self.set_bit_range(6, 4, value)
    }

    /// The filter flag of the register's line 1.
    pub fn get_filten1(&self) -> (r: u8)
        ensures
            r == get_field(self.0, 7, 7),
    {
        self.bit_range(7, 7)
    }

    /// Replaces the filter flag of the register's line 1.
    pub fn set_filten1(&mut self, value: u8)
        ensures
            final(self).0 == set_field(old(self).0, 7, 7, value),
    {
        self.set_bit_range(7, 7, value)
    }

    /// The sense of the register's line 2.
    pub fn get_sense2(&self) -> (r: u8)
        ensures
            r == get_field(self.0, 10, 8),
    {
        self.bit_range(10, 8)
    }

    /// Replaces the sense of the register's line 2.
    pub fn set_sense2(&mut self, value: u8)
        ensures
            final(self).0 == set_field(old(self).0, 10, 8, value),
    {
        self.set_bit_range(10, 8, value)
    }

    /// The filter flag of the register's line 2.
    pub fn get_filten2(&self) -> (r: u8)
        ensures
            r == get_field(self.0, 11, 11),
    {
        self.bit_range(11, 11)
    }

    /// Replaces the filter flag of the register's line 2.
    pub fn set_filten2(&mut self, value: u8)
        ensures
            final(self).0 == set_field(old(self).0, 11, 11, value),
    {
        self.set_bit_range(11, 11, value)
    }

    /// The sense of the register's line 3.
    pub fn get_sense3(&self) -> (r: u8)
        ensures
            r == get_field(self.0, 14, 12),
    {
        self.bit_range(14, 12)
    }

    /// Replaces the sense of the register's line 3.
    pub fn set_sense3(&mut self, value: u8)
        ensures
            final(self).0 == set_field(old(self).0, 14, 12, value),
    {
        self.set_bit_range(14, 12, value)
    }

    /// The filter flag of the register's line 3.
    pub fn get_filten3(&self) -> (r: u8)
        ensures
            r == get_field(self.0, 15, 15),
    {
        self.bit_range(15, 15)
    }

    /// Replaces the filter flag of the register's line 3.
    pub fn set_filten3(&mut self, value: u8)
        ensures
            final(self).0 == set_field(old(self).0, 15, 15, value),
    {
        self.set_bit_range(15, 15, value)
    }

    /// The sense of the register's line 4.
    pub fn get_sense4(&self) -> (r: u8)
        ensures
            r == get_field(self.0, 18, 16),
    {
        self.bit_range(18, 16)
    }

    /// Replaces the sense of the register's line 4.
    pub fn set_sense4(&mut self, value: u8)
        ensures
            final(self).0 == set_field(old(self).0, 18, 16, value),
    {
        self.set_bit_range(18, 16, value)
    }

    /// The filter flag of the register's line 4.
    pub fn get_filten4(&self) -> (r: u8)
        ensures
            r == get_field(self.0, 19, 19),
    {
        self.bit_range(19, 19)
    }

    /// Replaces the filter flag of the register's line 4.
    pub fn set_filten4(&mut self, value: u8)
        ensures
            final(self).0 == set_field(old(self).0, 19, 19, value),
    {
        self.set_bit_range(19, 19, value)
    }

    /// The sense of the register's line 5.
    pub fn get_sense5(&self) -> (r: u8)
        ensures
            r == get_field(self.0, 22, 20),
    {
        self.bit_range(22, 20)
    }

    /// Replaces the sense of the register's line 5.
    pub fn set_sense5(&mut self, value: u8)
        ensures
            final(self).0 == set_field(old(self).0, 22, 20, value),
    {
        self.set_bit_range(22, 20, value)
    }

    /// The filter flag of the register's line 5.
    pub fn get_filten5(&self) -> (r: u8)
        ensures
            r == get_field(self.0, 23, 23),
    {
        self.bit_range(23, 23)
    }

    /// Replaces the filter flag of the register's line 5.
    pub fn set_filten5(&mut self, value: u8)
        ensures
            final(self).0 == set_field(old(self).0, 23, 23, value),
    {
        self.set_bit_range(23, 23, value)
    }

    /// The sense of the register's line 6.
    pub fn get_sense6(&self) -> (r: u8)
        ensures
            r == get_field(self.0, 26, 24),
    {
        self.bit_range(26, 24)
    }

    /// Replaces the sense of the register's line 6.
    pub fn set_sense6(&mut self, value: u8)
        ensures
            final(self).0 == set_field(old(self).0, 26, 24, value),
    {
        self.set_bit_range(26, 24, value)
    }

    /// The filter flag of the register's line 6.
    pub fn get_filten6(&self) -> (r: u8)
        ensures
            r == get_field(self.0, 27, 27),
    {
        self.bit_range(27, 27)
    }

    /// Replaces the filter flag of the register's line 6.
    pub fn set_filten6(&mut self, value: u8)
        ensures
            final(self).0 == set_field(old(self).0, 27, 27, value),
    {
        self.set_bit_range(27, 27, value)
    }

    /// The sense of the register's line 7.
    pub fn get_sense7(&self) -> (r: u8)
        ensures
            r == get_field(self.0, 30, 28),
    {
        self.bit_range(30, 28)
    }

    /// Replaces the sense of the register's line 7.
    pub fn set_sense7(&mut self, value: u8)
        ensures
            final(self).0 == set_field(old(self).0, 30, 28, value),
    {
        self.set_bit_range(30, 28, value)
    }

    /// The filter flag of the register's line 7.
    pub fn get_filten7(&self) -> (r: u8)
        ensures
            r == get_field(self.0, 31, 31),
    {
        self.bit_range(31, 31)
    }

    /// Replaces the filter flag of the register's line 7.
    pub fn set_filten7(&mut self, value: u8)
        ensures
            final(self).0 == set_field(old(self).0, 31, 31, value),
    {
        self.set_bit_range(31, 31, value)
    }
}

//==============================================================================
// GetEINum
//==============================================================================
/// The line of a pin.
pub trait GetEINum: PinId {
    /// The line.
    type EINum: EINum;
}

impl GetEINum for PA14 {
    type EINum = EI14;
}

impl GetEINum for PA15 {
    type EINum = EI15;
}

impl GetEINum for PB22 {
    type EINum = EI06;
}

impl GetEINum for PB23 {
    type EINum = EI07;
}

/// The pins of the non-maskable line.
pub trait NmiEI: PinId {

}

impl NmiEI for PA08 {

}

//==============================================================================
// Constants
//==============================================================================
/// Line `n` has the number `n`; the rest of its constants follow by
/// [`EINum::layout`].
pub proof fn lemma_line_numbers()
    ensures
        EI00::NUM == 0 && EI01::NUM == 1 && EI02::NUM == 2 && EI03::NUM == 3,
        EI04::NUM == 4 && EI05::NUM == 5 && EI06::NUM == 6 && EI07::NUM == 7,
        EI08::NUM == 8 && EI09::NUM == 9 && EI10::NUM == 10 && EI11::NUM == 11,
        EI12::NUM == 12 && EI13::NUM == 13 && EI14::NUM == 14 && EI15::NUM == 15,
{
}

} // verus!
