use clock_tree::bus::{Bus, Op};
use clock_tree::clock::gclk::{Div, GclkConfig, GclkOp, GclkSourceEnum, Gen2};
use clock_tree::clock::pclk::{Dfll48, Pclk, PclkOp};
use clock_tree::clock::sources::dfll::{ClosedLoop, Dfll, DfllConfig, DfllOp, DfllSync, OpenLoop};
use clock_tree::clock::sources::dpll::{
    DpllConfig, DpllOp, DpllSrc, DpllSync, DpllToken, Pll0, Pll1, INPUT_MAX_HZ, INPUT_MIN_HZ,
};
use clock_tree::clock::sources::osculp32k::OscUlp32k;
use clock_tree::clock::sources::xosc::{
    CfdPresc, CrystalCurrent, Osc0, Osc1, StartUp, XOscConfig, XoscOp,
};
use clock_tree::clock::{set_rtc_clock, Clocks, Osc32kOp, RtcClock, RtcSel};
use clock_tree::gpio::{GpioOp, Pin, Reset, PA14, PA15, PB22};
use clock_tree::pac::{GCLK, MCLK, NVMCTRL, OSC32KCTRL, OSCCTRL};
use clock_tree::time::Hertz;
use clock_tree::typelevel::counted::Counted;
use clock_tree::typelevel::{One, Zero};

fn clocks(bus: &mut Bus) -> Clocks {
    let mut nvmctrl = NVMCTRL::take();
    let clocks = Clocks::new(
        OSCCTRL::take(),
        OSC32KCTRL::take(),
        GCLK::take(),
        MCLK::take(),
        &mut nvmctrl,
        bus,
    );
    bus.take();
    clocks
}

/// A channel for loop 0 that carries `hz`, made from an oscillator, a
/// generator and the channel's token.
fn pll0_channel(clocks: Clocks, hz: u32, bus: &mut Bus) -> (DpllToken<Pll0>, Pclk<Pll0, Gen2>) {
    let xosc = XOscConfig::<Osc0>::from_clock(
        clocks.sources.xosc0,
        Pin::<PA14, Reset>::new(),
        Hertz(hz),
        bus,
    )
    .enable(bus);
    let (config, _xosc) = GclkConfig::new(clocks.gclks.tokens.gclk2, xosc, bus);
    let gclk2 = config.enable(bus);
    let (pclk, gclk2) = Pclk::enable(clocks.pclks.dpll0, gclk2, bus);
    assert_eq!(gclk2.count_usize(), 1);
    (clocks.sources.dpll0, pclk)
}

#[test]
fn channel_counts_on_its_generator() {
    let mut bus = Bus::new();
    let clocks = clocks(&mut bus);
    let (config, _dfll) =
        GclkConfig::new(clocks.gclks.tokens.gclk2, clocks.sources.dfll, &mut bus);
    let gclk2 = config.div(Div::Div(24), &mut bus).enable(&mut bus);
    bus.take();
    let (pclk, gclk2) = Pclk::enable(clocks.pclks.dpll0, gclk2, &mut bus);
    assert_eq!(pclk.freq(), Hertz(2_000_000));
    assert_eq!(gclk2.count_usize(), 1);
    let (_token, gclk2) = pclk.disable(gclk2, &mut bus);
    assert_eq!(gclk2.count_usize(), 0);
    assert_eq!(
        bus.ops().as_slice(),
        &[
            Op::Pclk(PclkOp::Enable { channel: 1, gen: 2 }),
            Op::Pclk(PclkOp::Sync { channel: 1, flag: true }),
            Op::Pclk(PclkOp::Disable { channel: 1 }),
            Op::Pclk(PclkOp::Sync { channel: 1, flag: false }),
        ]
    );
}

#[test]
fn dpll_rejects_an_input_outside_its_window() {
    assert!(!DpllConfig::<Pll0, Osc0>::accepts_input(Hertz(4_000_000)));
    assert!(!DpllConfig::<Pll0, Osc0>::accepts_input(Hertz(31_999)));
    assert!(!DpllConfig::<Pll0, Osc0>::accepts_input(Hertz(3_200_001)));
    assert!(DpllConfig::<Pll0, Osc0>::accepts_input(Hertz(32_000)));
    assert!(DpllConfig::<Pll0, Osc0>::accepts_input(Hertz(3_200_000)));
    assert!(DpllConfig::<Pll0, Osc0>::accepts_input(Hertz(32_768)));
    assert_eq!(INPUT_MIN_HZ, 32_000);
    assert_eq!(INPUT_MAX_HZ, 3_200_000);
}

#[test]
fn dpll_gives_back_a_reference_outside_its_window() {
    let mut bus = Bus::new();
    let clocks = clocks(&mut bus);
    let (token, pclk) = pll0_channel(clocks, 4_000_000, &mut bus);
    bus.take();
    let (token, pclk) = match DpllConfig::try_from_pclk(token, pclk, &mut bus) {
        Ok(_) => panic!("4 MHz is above the window"),
        Err(back) => back,
    };
    assert_eq!(pclk.freq(), Hertz(4_000_000));
    assert_eq!(bus.len(), 0);
    let _ = token;
    let clocks = self::clocks(&mut bus);
    let xosc = XOscConfig::<Osc0>::from_clock(
        clocks.sources.xosc0,
        Pin::<PA14, Reset>::new(),
        Hertz(16_000),
        &mut bus,
    )
    .enable(&mut bus);
    bus.take();
    let (token, xosc) =
        match DpllConfig::<Pll0, Osc0>::try_from_xosc(clocks.sources.dpll0, xosc, &mut bus) {
            Ok(_) => panic!("16 kHz is below the window"),
            Err(back) => back,
        };
    assert_eq!(xosc.count_usize(), 0);
    assert_eq!(bus.len(), 0);
    let (_token, xosc) = xosc.disable(&mut bus).free();
    let xosc = XOscConfig::<Osc0>::from_clock(_token, xosc, Hertz(1_000_000), &mut bus)
        .enable(&mut bus);
    let (config, xosc) = DpllConfig::<Pll0, Osc0>::try_from_xosc(token, xosc, &mut bus)
        .ok()
        .expect("1 MHz is in the window");
    assert_eq!(xosc.count_usize(), 1);
    assert_eq!(config.freq(), Hertz(2_000_000));
}

#[test]
fn dpll_rejects_an_output_outside_its_window() {
    let mut bus = Bus::new();
    let clocks = clocks(&mut bus);
    let (token, pclk) = pll0_channel(clocks, 2_000_000, &mut bus);
    let config = DpllConfig::try_from_pclk(token, pclk, &mut bus).ok().expect("in the window");
    let config = config.set_loop_div(39, 0, &mut bus);
    assert_eq!(config.freq(), Hertz(80_000_000));
    assert!(!config.can_enable());
    bus.take();
    let config = match config.try_enable(&mut bus) {
        Ok(_) => panic!("80 MHz is below the window"),
        Err(config) => config,
    };
    assert_eq!(bus.len(), 0);
    assert_eq!(config.freq(), Hertz(80_000_000));
    let running = config.set_loop_div(59, 0, &mut bus).try_enable(&mut bus).ok().expect("120 MHz");
    assert_eq!(running.get().freq(), Hertz(120_000_000));
    let config = running.disable(&mut bus);
    let config = config.set_loop_div(47, 0, &mut bus);
    assert_eq!(config.freq(), Hertz(96_000_000));
    assert!(config.can_enable());
    let config = config.set_loop_div(99, 0, &mut bus);
    assert_eq!(config.freq(), Hertz(200_000_000));
    assert!(config.can_enable());
    let config = config.set_loop_div(99, 1, &mut bus);
    assert_eq!(config.freq(), Hertz(200_062_500));
    assert!(!config.can_enable());
    let config = config.set_loop_div(46, 31, &mut bus);
    assert_eq!(config.freq(), Hertz(95_937_500));
    assert!(!config.can_enable());
    let config = config.set_loop_div(47, 0, &mut bus);
    assert!(config.can_enable());
}

#[test]
fn dpll_frequency_formula() {
    let mut bus = Bus::new();
    let clocks = clocks(&mut bus);
    let (token, pclk) = pll0_channel(clocks, 3_000_000, &mut bus);
    bus.take();
    let config = DpllConfig::from_pclk(token, pclk, &mut bus);
    assert_eq!(config.freq(), Hertz(6_000_000));
    let config = config.set_source_div(3, &mut bus);
    assert_eq!(config.freq(), Hertz(2_000_000));
    let config = config.set_loop_div(59, 16, &mut bus);
    assert_eq!(config.freq(), Hertz(60_500_000));
    assert_eq!(config.reference_freq(), Hertz(3_000_000));
    assert!(config.source_div_fits(1));
    assert!(config.source_div_fits(0x7FF));
    assert!(!config.source_div_fits(0x800));
    assert!(!config.source_div_fits(0));
    assert!(config.loop_div_fits(4_000, 31));
    assert!(!config.loop_div_fits(4_000, 32));
    assert!(config.loop_div_fits(0x1000, 0));
    assert!(!config.loop_div_fits(0x2000, 0));
    assert!(!config.loop_div_fits(0x2001, 0));
    assert!(!config.loop_div_fits(65_535, 31));
    assert!(!config.loop_div_fits(0, 0));
    let config = config.set_lock_bypass(true, &mut bus).set_wake_up_fast(false, &mut bus);
    let config = config.set_loop_div(99, 0, &mut bus);
    let dpll = config.enable(&mut bus);
    dpll.get().wait_until_ready(&mut bus);
    dpll.get().wait_until_locked(&mut bus);
    assert_eq!(dpll.get().freq(), Hertz(100_000_000));
    assert_eq!(
        bus.ops().as_slice(),
        &[
            Op::Dpll(DpllOp::RefClk { pll: 0, src: DpllSrc::GCLK }),
            Op::Dpll(DpllOp::Div { pll: 0, div: 3 }),
            Op::Dpll(DpllOp::Ratio { pll: 0, ldr: 58, ldrfrac: 16 }),
            Op::Dpll(DpllOp::Sync { pll: 0, wait: DpllSync::Ratio }),
            Op::Dpll(DpllOp::LockBypass { pll: 0, flag: true }),
            Op::Dpll(DpllOp::WakeUpFast { pll: 0, flag: false }),
            Op::Dpll(DpllOp::Ratio { pll: 0, ldr: 98, ldrfrac: 0 }),
            Op::Dpll(DpllOp::Sync { pll: 0, wait: DpllSync::Ratio }),
            Op::Dpll(DpllOp::Enable { pll: 0, flag: true }),
            Op::Dpll(DpllOp::Sync { pll: 0, wait: DpllSync::Enable }),
            Op::Dpll(DpllOp::WaitReady { pll: 0 }),
            Op::Dpll(DpllOp::WaitLocked { pll: 0 }),
        ]
    );
    let config = dpll.disable(&mut bus);
    let (_token, pclk) = config.free_pclk();
    assert_eq!(pclk.freq(), Hertz(3_000_000));
}

#[test]
fn dpll_from_an_oscillator_feeds_a_generator() {
    let mut bus = Bus::new();
    let clocks = clocks(&mut bus);
    let xosc = XOscConfig::<Osc1>::from_clock(
        clocks.sources.xosc1,
        Pin::<PB22, Reset>::new(),
        Hertz(1_000_000),
        &mut bus,
    )
    .enable(&mut bus);
    bus.take();
    let (config, xosc) = DpllConfig::<Pll1, Osc1>::from_xosc(clocks.sources.dpll1, xosc, &mut bus);
    assert_eq!(xosc.count_usize(), 1);
    let dpll = config.set_loop_div(119, 0, &mut bus).enable(&mut bus);
    assert_eq!(dpll.get().freq(), Hertz(120_000_000));
    let (config, dpll) = GclkConfig::new(clocks.gclks.tokens.gclk2, dpll, &mut bus);
    assert_eq!(dpll.count_usize(), 1);
    assert_eq!(config.div(Div::Div(2), &mut bus).freq(), Hertz(60_000_000));
    assert_eq!(bus.ops()[0], Op::Dpll(DpllOp::RefClk { pll: 1, src: DpllSrc::XOSC1 }));
    assert_eq!(
        bus.ops()[5],
        Op::Gclk(GclkOp::Source { gen: 2, src: GclkSourceEnum::DPLL1 })
    );
}

#[test]
fn dfll_open_loop_runs_at_its_nominal_frequency() {
    let mut bus = Bus::new();
    let clocks = clocks(&mut bus);
    let xosc = XOscConfig::<Osc0>::from_clock(
        clocks.sources.xosc0,
        Pin::<PA14, Reset>::new(),
        Hertz(8_000_000),
        &mut bus,
    )
    .enable(&mut bus);
    let (_gclk0, dfll, _xosc) = clocks.gclks.gclk0.swap(clocks.sources.dfll, xosc, &mut bus);
    let mut config = dfll.disable();
    config.set_standby_sleep_mode(true);
    config.set_on_demand_mode(true);
    assert_eq!(config.freq(), Hertz(48_000_000));
    let token = config.free();
    bus.take();
    let dfll: Counted<Dfll<OpenLoop>, Zero> = DfllConfig::in_open_mode(token).enable(&mut bus);
    assert_eq!(dfll.get().freq(), Hertz(48_000_000));
    assert_eq!(
        bus.ops().as_slice(),
        &[
            Op::Dfll(DfllOp::Mode { closed: false }),
            Op::Dfll(DfllOp::Sync(DfllSync::Enable)),
            Op::Dfll(DfllOp::Enable),
            Op::Dfll(DfllOp::Sync(DfllSync::Enable)),
        ]
    );
}

#[test]
fn dfll_closed_loop_multiplies_its_reference() {
    let mut bus = Bus::new();
    let clocks = clocks(&mut bus);
    let xosc = XOscConfig::<Osc0>::from_clock(
        clocks.sources.xosc0,
        Pin::<PA14, Reset>::new(),
        Hertz(32_768),
        &mut bus,
    )
    .enable(&mut bus);
    let (config, _xosc) = GclkConfig::new(clocks.gclks.tokens.gclk2, xosc, &mut bus);
    let gclk2 = config.enable(&mut bus);
    let (reference, _gclk2): (Pclk<Dfll48, Gen2>, _) =
        Pclk::enable(clocks.pclks.dfll48, gclk2, &mut bus);
    assert_eq!(reference.freq(), Hertz(32_768));
    bus.take();
    let (gclk0, dfll) = clocks.gclks.gclk0.change_mode(
        clocks.sources.dfll,
        |open: Counted<Dfll<OpenLoop>, Zero>, bus: &mut Bus| {
            let token = open.disable().free();
            DfllConfig::in_closed_mode(token, reference, 1_465, 1, 8).enable(bus)
        },
        &mut bus,
    );
    let dfll: Counted<Dfll<ClosedLoop<Gen2>>, One> = dfll;
    assert_eq!(dfll.get().freq(), Hertz(32_768 * 1_465));
    assert_eq!(dfll.get().freq(), Hertz(48_005_120));
    assert!(dfll.get().freq().0.abs_diff(48_004_120) <= 1_000);
    assert_eq!(gclk0.get().freq(), Hertz(48_005_120));
    assert_eq!(
        bus.ops().as_slice(),
        &[
            Op::Dfll(DfllOp::FineStep(8)),
            Op::Dfll(DfllOp::Sync(DfllSync::Mul)),
            Op::Dfll(DfllOp::CoarseStep(1)),
            Op::Dfll(DfllOp::Sync(DfllSync::Mul)),
            Op::Dfll(DfllOp::Mul(1_465)),
            Op::Dfll(DfllOp::Sync(DfllSync::Mul)),
            Op::Dfll(DfllOp::Mode { closed: true }),
            Op::Dfll(DfllOp::Sync(DfllSync::Enable)),
            Op::Gclk(GclkOp::Source { gen: 0, src: GclkSourceEnum::DFLL }),
            Op::Gclk(GclkOp::Sync { mask: 1 }),
        ]
    );
    bus.take();
    let (gclk0, dfll, reference) = gclk0.change_mode(
        dfll,
        |closed: Counted<Dfll<ClosedLoop<Gen2>>, Zero>, bus: &mut Bus| {
            let (token, reference) = closed.disable().free();
            (DfllConfig::in_open_mode(token).enable(bus), reference)
        },
        &mut bus,
    );
    assert_eq!(reference.freq(), Hertz(32_768));
    assert_eq!(dfll.get().freq(), Hertz(48_000_000));
    assert_eq!(dfll.count_usize(), 1);
    assert_eq!(gclk0.get().freq(), Hertz(48_000_000));
    assert_eq!(bus.len(), 6);
    assert_eq!(bus.ops()[0], Op::Dfll(DfllOp::Mode { closed: false }));
}

#[test]
fn dfll_closed_loop_settings() {
    let mut bus = Bus::new();
    let clocks = clocks(&mut bus);
    let xosc = XOscConfig::<Osc0>::from_clock(
        clocks.sources.xosc0,
        Pin::<PA14, Reset>::new(),
        Hertz(1_000_000),
        &mut bus,
    )
    .enable(&mut bus);
    let (config, xosc) = GclkConfig::new(clocks.gclks.tokens.gclk2, xosc, &mut bus);
    let gclk2 = config.enable(&mut bus);
    let (reference, _gclk2) = Pclk::enable(clocks.pclks.dfll48, gclk2, &mut bus);
    let (_gclk0, dfll, _xosc) = clocks.gclks.gclk0.swap(clocks.sources.dfll, xosc, &mut bus);
    let token = dfll.disable().free();
    let mut config = DfllConfig::in_closed_mode(token, reference, 10, 2, 3);
    assert_eq!(config.freq(), Hertz(10_000_000));
    config.set_multiplication_factor(48);
    config.set_coarse_maximum_step(4);
    config.set_fine_maximum_step(5);
    assert_eq!(config.freq(), Hertz(48_000_000));
    bus.take();
    let dfll = config.enable(&mut bus);
    assert_eq!(bus.ops()[0], Op::Dfll(DfllOp::FineStep(5)));
    assert_eq!(bus.ops()[2], Op::Dfll(DfllOp::CoarseStep(4)));
    assert_eq!(bus.ops()[4], Op::Dfll(DfllOp::Mul(48)));
    assert_eq!(bus.ops()[6], Op::Dfll(DfllOp::Mode { closed: true }));
    let (_token, reference) = dfll.disable().free();
    assert_eq!(reference.freq(), Hertz(1_000_000));
}

#[test]
fn xosc_from_a_crystal() {
    let mut bus = Bus::new();
    let clocks = clocks(&mut bus);
    let config = XOscConfig::from_crystal(
        clocks.sources.xosc0,
        Pin::<PA14, Reset>::new(),
        Pin::<PA15, Reset>::new(),
        Hertz(16_000_000),
        &mut bus,
    );
    assert_eq!(config.freq(), Hertz(16_000_000));
    let xosc = config
        .set_start_up(StartUp::CYCLE2048, &mut bus)
        .set_on_demand(false, &mut bus)
        .set_run_standby(true, &mut bus)
        .set_clock_failure_detector_prescaler(CfdPresc::DIV4, &mut bus)
        .set_crystal_current(CrystalCurrent::LowFreq, &mut bus)
        .set_clock_switch(true, &mut bus)
        .set_low_buf_gain(true, &mut bus)
        .enable(&mut bus);
    xosc.get().wait_ready(&mut bus);
    assert_eq!(xosc.get().freq(), Hertz(16_000_000));
    assert_eq!(
        bus.ops().as_slice(),
        &[
            Op::Gpio(GpioOp::FloatingDisabled { group: 0, num: 14 }),
            Op::Gpio(GpioOp::FloatingDisabled { group: 0, num: 15 }),
            Op::Xosc(XoscOp::Crystal { osc: 0, flag: true }),
            Op::Xosc(XoscOp::StartUp { osc: 0, start_up: StartUp::CYCLE2048 }),
            Op::Xosc(XoscOp::OnDemand { osc: 0, flag: false }),
            Op::Xosc(XoscOp::RunStandby { osc: 0, flag: true }),
            Op::Xosc(XoscOp::CfdPresc { osc: 0, prescale: CfdPresc::DIV4 }),
            Op::Xosc(XoscOp::Current { osc: 0, imult: 4, iptat: 3 }),
            Op::Xosc(XoscOp::ClockSwitch { osc: 0, flag: true }),
            Op::Xosc(XoscOp::LowBufGain { osc: 0, flag: true }),
            Op::Xosc(XoscOp::Enable { osc: 0, flag: true }),
            Op::Xosc(XoscOp::WaitReady { mask: 1 }),
        ]
    );
    bus.take();
    let (_token, _xin, _xout) = xosc.disable(&mut bus).free();
    assert_eq!(bus.ops().as_slice(), &[Op::Xosc(XoscOp::Enable { osc: 0, flag: false })]);
}

#[test]
fn xosc_from_a_clock_signal() {
    let mut bus = Bus::new();
    let clocks = clocks(&mut bus);
    let config = XOscConfig::<Osc1>::from_clock(
        clocks.sources.xosc1,
        Pin::<PB22, Reset>::new(),
        Hertz(10_000_000),
        &mut bus,
    );
    let xosc = config.enable(&mut bus);
    xosc.get().wait_ready(&mut bus);
    assert_eq!(
        bus.ops().as_slice(),
        &[
            Op::Gpio(GpioOp::FloatingDisabled { group: 1, num: 22 }),
            Op::Xosc(XoscOp::Crystal { osc: 1, flag: false }),
            Op::Xosc(XoscOp::Enable { osc: 1, flag: true }),
            Op::Xosc(XoscOp::WaitReady { mask: 2 }),
        ]
    );
    let (_token, _xin) = xosc.disable(&mut bus).free();
}

#[test]
fn crystal_current_table() {
    assert_eq!((CrystalCurrent::BaseFreq.imult(), CrystalCurrent::BaseFreq.iptat()), (3, 2));
    assert_eq!((CrystalCurrent::LowFreq.imult(), CrystalCurrent::LowFreq.iptat()), (4, 3));
    assert_eq!((CrystalCurrent::MedFreq.imult(), CrystalCurrent::MedFreq.iptat()), (5, 3));
    assert_eq!((CrystalCurrent::HighFreq.imult(), CrystalCurrent::HighFreq.iptat()), (6, 3));
}

#[test]
fn rtc_clock_selection() {
    let mut bus = Bus::new();
    let clocks = clocks(&mut bus);
    let mut ulp: Counted<OscUlp32k, Zero> = clocks.sources.osculp32k;
    assert_eq!(ulp.get_mut().enable_1k(), RtcSel::ULP1K);
    assert_eq!(ulp.get_mut().enable_32k(), RtcSel::ULP32K);
    set_rtc_clock(ulp.get_mut(), true, &mut bus);
    set_rtc_clock(ulp.get_mut(), false, &mut bus);
    assert_eq!(
        bus.ops().as_slice(),
        &[
            Op::Osc32k(Osc32kOp::RtcSelect(RtcSel::ULP32K)),
            Op::Osc32k(Osc32kOp::RtcSelect(RtcSel::ULP1K)),
        ]
    );
}

#[test]
fn dpll_counts_the_fractional_part_of_the_ratio() {
    let mut bus = Bus::new();
    let clocks = clocks(&mut bus);
    let (token, pclk) = pll0_channel(clocks, 2_000_000, &mut bus);
    bus.take();
    let config = DpllConfig::from_pclk(token, pclk, &mut bus);
    assert_eq!(config.freq(), Hertz(4_000_000));
    let config = config.set_loop_div(49, 0, &mut bus);
    assert_eq!(config.freq(), Hertz(100_000_000));
    let config = config.set_loop_div(49, 16, &mut bus);
    assert_eq!(config.freq(), Hertz(101_000_000));
    let config = config.set_loop_div(49, 31, &mut bus);
    assert_eq!(config.freq(), Hertz(101_937_500));
    let config = config.set_loop_div(49, 1, &mut bus);
    assert_eq!(config.freq(), Hertz(100_062_500));
    let config = config.set_source_div(3, &mut bus);
    assert_eq!(config.freq(), Hertz(666_666 * (32 * 50 + 1) / 32));
    assert_eq!(config.freq(), Hertz(33_354_133));
    assert_eq!(
        bus.ops().as_slice(),
        &[
            Op::Dpll(DpllOp::RefClk { pll: 0, src: DpllSrc::GCLK }),
            Op::Dpll(DpllOp::Ratio { pll: 0, ldr: 48, ldrfrac: 0 }),
            Op::Dpll(DpllOp::Sync { pll: 0, wait: DpllSync::Ratio }),
            Op::Dpll(DpllOp::Ratio { pll: 0, ldr: 48, ldrfrac: 16 }),
            Op::Dpll(DpllOp::Sync { pll: 0, wait: DpllSync::Ratio }),
            Op::Dpll(DpllOp::Ratio { pll: 0, ldr: 48, ldrfrac: 31 }),
            Op::Dpll(DpllOp::Sync { pll: 0, wait: DpllSync::Ratio }),
            Op::Dpll(DpllOp::Ratio { pll: 0, ldr: 48, ldrfrac: 1 }),
            Op::Dpll(DpllOp::Sync { pll: 0, wait: DpllSync::Ratio }),
            Op::Dpll(DpllOp::Div { pll: 0, div: 3 }),
        ]
    );
}
