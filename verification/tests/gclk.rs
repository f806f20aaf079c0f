use clock_tree::bus::{Bus, Op};
use clock_tree::clock::gclk::{
    Div, DivSel, Gclk, GclkConfig, GclkOp, GclkSourceEnum, Gen0, Gen1, Gen11, Gen2, Gen3,
};
use clock_tree::clock::sources::dfll::{marker, Dfll, OpenLoop};
use clock_tree::clock::sources::xosc::{Osc0, XOscConfig};
use clock_tree::clock::Clocks;
use clock_tree::gpio::{Pin, Reset, PA14};
use clock_tree::nvm::NvmOp;
use clock_tree::pac::{GCLK, MCLK, NVMCTRL, OSC32KCTRL, OSCCTRL};
use clock_tree::time::Hertz;
use clock_tree::typelevel::counted::Counted;
use clock_tree::typelevel::{One, Succ, Zero};

fn clocks(bus: &mut Bus) -> Clocks {
    let mut nvmctrl = NVMCTRL::take();
    let clocks = Clocks::new(
        OSCCTRL::take(),
        OSC32KCTRL::take(),
        GCLK::take(),
        MCLK::take(),
        &mut nvmctrl,
        bus,
    );
    clocks
}

fn sync(gen: usize) -> Op {
    Op::Gclk(GclkOp::Sync { mask: 1 << gen })
}

#[test]
fn reset_state_of_the_tree() {
    let mut bus = Bus::new();
    let mut clocks = clocks(&mut bus);
    assert_eq!(bus.ops().as_slice(), &[Op::Nvm(NvmOp::AutoWaitStates)]);
    assert_eq!(clocks.sources.dfll.get().freq(), Hertz(48_000_000));
    assert_eq!(clocks.sources.dfll.count_usize(), 1);
    assert_eq!(clocks.gclks.gclk0.get().freq(), Hertz(48_000_000));
    assert_eq!(clocks.gclks.gclk0.count_usize(), 1);
    assert!(clocks.pac().is_some());
    assert!(clocks.pac().is_none());
}

#[test]
fn generator_divides_its_source() {
    let mut bus = Bus::new();
    let clocks = clocks(&mut bus);
    bus.take();
    let (config, dfll) = GclkConfig::new(clocks.gclks.tokens.gclk2, clocks.sources.dfll, &mut bus);
    assert_eq!(dfll.count_usize(), 2);
    assert_eq!(config.freq(), Hertz(48_000_000));
    let config = config.div(Div::Div(4), &mut bus);
    assert_eq!(config.freq(), Hertz(12_000_000));
    let gclk2: Counted<Gclk<Gen2, marker::Dfll<OpenLoop>>, Zero> = config.enable(&mut bus);
    assert_eq!(gclk2.get().freq(), Hertz(12_000_000));
    assert_eq!(gclk2.count_usize(), 0);
    assert_eq!(
        bus.ops().as_slice(),
        &[
            Op::Gclk(GclkOp::Source { gen: 2, src: GclkSourceEnum::DFLL }),
            sync(2),
            Op::Gclk(GclkOp::Divider { gen: 2, divsel: DivSel::Div1, div: 4 }),
            sync(2),
            Op::Gclk(GclkOp::Enable { gen: 2, flag: true }),
            sync(2),
        ]
    );
}

#[test]
fn plain_divider_of_every_width() {
    let mut bus = Bus::new();
    let clocks = clocks(&mut bus);
    let (config, dfll) = GclkConfig::new(clocks.gclks.tokens.gclk1, clocks.sources.dfll, &mut bus);
    let config = config.div(Div::Div(48_000), &mut bus);
    assert_eq!(config.freq(), Hertz(1_000));
    let (config3, _dfll) = GclkConfig::new(clocks.gclks.tokens.gclk3, dfll, &mut bus);
    assert_eq!(config3.div(Div::Div(255), &mut bus).freq(), Hertz(48_000_000 / 255));
}

#[test]
fn zero_divider_does_not_divide() {
    let mut bus = Bus::new();
    let clocks = clocks(&mut bus);
    bus.take();
    let (config, _dfll) =
        GclkConfig::new(clocks.gclks.tokens.gclk11, clocks.sources.dfll, &mut bus);
    let config = config.div(Div::Div(0), &mut bus);
    assert_eq!(config.freq(), Hertz(48_000_000));
    assert_eq!(Div::<Gen11>::Div(0).as_u32(), 1);
    assert_eq!(
        bus.ops()[2],
        Op::Gclk(GclkOp::Divider { gen: 11, divsel: DivSel::Div1, div: 0 })
    );
}

#[test]
fn boosted_divider_is_a_power_of_two() {
    let mut bus = Bus::new();
    let clocks = clocks(&mut bus);
    bus.take();
    let (config, dfll) = GclkConfig::new(clocks.gclks.tokens.gclk3, clocks.sources.dfll, &mut bus);
    let config = config.div(Div::Max, &mut bus);
    assert_eq!(config.freq(), Hertz(48_000_000 / 512));
    assert_eq!(
        bus.ops()[2],
        Op::Gclk(GclkOp::Divider { gen: 3, divsel: DivSel::Div2, div: 8 })
    );
    let (config1, _dfll) = GclkConfig::new(clocks.gclks.tokens.gclk1, dfll, &mut bus);
    let config1 = config1.div(Div::Max, &mut bus);
    assert_eq!(config1.freq(), Hertz(48_000_000 / 131_072));
    assert_eq!(Div::<Gen1>::Max.encode(), (DivSel::Div2, 16));
    assert_eq!(Div::<Gen3>::Max.encode(), (DivSel::Div2, 8));
    assert_eq!(Div::<Gen3>::Max.as_u32(), 1 << (1 + 8));
    assert_eq!(Div::<Gen1>::Max.as_u32(), 1 << (1 + 16));
}

#[test]
fn generator_1_takes_sixteen_bits() {
    assert_eq!(Div::<Gen1>::Div(65_535).as_u32(), 65_535);
    assert_eq!(Div::<Gen1>::Div(65_535).encode(), (DivSel::Div1, 65_535));
    assert_eq!(Div::<Gen3>::Div(u8::MAX).as_u32(), 255);
    assert_eq!(Div::<Gen3>::Div(u8::MAX).encode(), (DivSel::Div1, 255));
    assert_eq!(Div::<Gen1>::Max.as_u32(), 131_072);
    assert_eq!(Div::<Gen3>::Max.as_u32(), 512);
    assert_eq!(Div::<Gen0>::Max.as_u32(), 512);
    assert_eq!(Div::<Gen2>::Div(7).as_u32(), 7);
}

#[test]
fn swap_reports_the_new_source() {
    let mut bus = Bus::new();
    let clocks = clocks(&mut bus);
    let xosc = XOscConfig::<Osc0>::from_clock(
        clocks.sources.xosc0,
        Pin::<PA14, Reset>::new(),
        Hertz(8_000_000),
        &mut bus,
    )
    .enable(&mut bus);
    let (config, dfll) = GclkConfig::new(clocks.gclks.tokens.gclk2, clocks.sources.dfll, &mut bus);
    let config = config.div(Div::Div(3), &mut bus);
    assert_eq!(config.freq(), Hertz(16_000_000));
    bus.take();
    let (config, dfll, xosc) = config.swap(dfll, xosc, &mut bus);
    assert_eq!(config.freq(), Hertz(8_000_000 / 3));
    assert_ne!(config.freq(), Hertz(48_000_000 / 3));
    assert_ne!(config.freq(), dfll.get().freq());
    assert_eq!(dfll.count_usize(), 1);
    assert_eq!(xosc.count_usize(), 1);
    assert_eq!(
        bus.ops().as_slice(),
        &[Op::Gclk(GclkOp::Source { gen: 2, src: GclkSourceEnum::XOSC0 }), sync(2)]
    );
}

#[test]
fn swap_of_the_running_generator_0() {
    let mut bus = Bus::new();
    let clocks = clocks(&mut bus);
    let xosc = XOscConfig::<Osc0>::from_clock(
        clocks.sources.xosc0,
        Pin::<PA14, Reset>::new(),
        Hertz(12_000_000),
        &mut bus,
    )
    .enable(&mut bus);
    bus.take();
    let (gclk0, dfll, xosc) = clocks.gclks.gclk0.swap(clocks.sources.dfll, xosc, &mut bus);
    let dfll: Counted<Dfll<OpenLoop>, Zero> = dfll;
    assert_eq!(gclk0.get().freq(), Hertz(12_000_000));
    assert_eq!(gclk0.count_usize(), 1);
    assert_eq!(dfll.count_usize(), 0);
    assert_eq!(xosc.count_usize(), 1);
    assert_eq!(
        bus.ops().as_slice(),
        &[Op::Gclk(GclkOp::Source { gen: 0, src: GclkSourceEnum::XOSC0 }), sync(0)]
    );
}

#[test]
fn free_and_reattach_give_the_same_configuration() {
    let mut bus = Bus::new();
    let clocks = clocks(&mut bus);
    assert_eq!(clocks.gclks.tokens.gclk2.last_factor(), 1);
    let (config, dfll) = GclkConfig::new(clocks.gclks.tokens.gclk2, clocks.sources.dfll, &mut bus);
    assert_eq!(config.freq(), Hertz(48_000_000));
    let config = config.div(Div::Div(4), &mut bus);
    assert_eq!(config.freq(), Hertz(12_000_000));
    let (token, dfll) = config.free(dfll);
    assert_eq!(dfll.count_usize(), 1);
    assert_eq!(token.last_factor(), 4);
    bus.take();
    let (config, dfll) = GclkConfig::new(token, dfll, &mut bus);
    assert_eq!(dfll.count_usize(), 2);
    assert_eq!(config.freq(), Hertz(12_000_000));
    assert_eq!(
        bus.ops().as_slice(),
        &[Op::Gclk(GclkOp::Source { gen: 2, src: GclkSourceEnum::DFLL }), sync(2)]
    );
    let config = config.div(Div::Max, &mut bus);
    let (token, dfll) = config.free(dfll);
    assert_eq!(token.last_factor(), 512);
    let (config, _dfll) = GclkConfig::new(token, dfll, &mut bus);
    assert_eq!(config.freq(), Hertz(93_750));
}

#[test]
fn a_disabled_generator_keeps_its_divider() {
    let mut bus = Bus::new();
    let clocks = clocks(&mut bus);
    let (config, dfll) = GclkConfig::new(clocks.gclks.tokens.gclk3, clocks.sources.dfll, &mut bus);
    let gclk = config.div(Div::Div(6), &mut bus).enable(&mut bus);
    let config = gclk.disable(&mut bus);
    assert_eq!(config.freq(), Hertz(8_000_000));
    let (token, dfll) = config.free(dfll);
    assert_eq!(token.last_factor(), 6);
    let (config, _dfll) = GclkConfig::new(token, dfll, &mut bus);
    assert_eq!(config.freq(), Hertz(8_000_000));
    assert_eq!(config.div(Div::Div(0), &mut bus).freq(), Hertz(48_000_000));
}

#[test]
fn disable_returns_the_configuration() {
    let mut bus = Bus::new();
    let clocks = clocks(&mut bus);
    let (config, _dfll) =
        GclkConfig::new(clocks.gclks.tokens.gclk2, clocks.sources.dfll, &mut bus);
    let gclk = config.div(Div::Div(6), &mut bus).improve_duty_cycle(true, &mut bus).enable(&mut bus);
    bus.take();
    let config = gclk.disable(&mut bus);
    assert_eq!(config.freq(), Hertz(8_000_000));
    assert_eq!(
        bus.ops().as_slice(),
        &[Op::Gclk(GclkOp::Enable { gen: 2, flag: false }), sync(2)]
    );
}

#[test]
fn duty_cycle_and_output_pad() {
    let mut bus = Bus::new();
    let clocks = clocks(&mut bus);
    let (config, _dfll) =
        GclkConfig::new(clocks.gclks.tokens.gclk3, clocks.sources.dfll, &mut bus);
    bus.take();
    let gclk = config.improve_duty_cycle(true, &mut bus).enable(&mut bus);
    let gclk = gclk.enable_gclk_out(true, &mut bus);
    let gclk = gclk.disable_gclk_out(&mut bus);
    assert_eq!(gclk.get().freq(), Hertz(48_000_000));
    assert_eq!(
        bus.ops().as_slice(),
        &[
            Op::Gclk(GclkOp::DutyCycle { gen: 3, flag: true }),
            sync(3),
            Op::Gclk(GclkOp::Enable { gen: 3, flag: true }),
            sync(3),
            Op::Gclk(GclkOp::OutputOn { gen: 3, pol: true }),
            sync(3),
            Op::Gclk(GclkOp::OutputOff { gen: 3 }),
            sync(3),
        ]
    );
}

#[test]
fn generator_1_feeds_other_generators() {
    let mut bus = Bus::new();
    let clocks = clocks(&mut bus);
    let (config1, _dfll) =
        GclkConfig::new(clocks.gclks.tokens.gclk1, clocks.sources.dfll, &mut bus);
    let gclk1 = config1.div(Div::Div(1_000), &mut bus).enable(&mut bus);
    bus.take();
    let (config5, gclk1) = GclkConfig::new(clocks.gclks.tokens.gclk5, gclk1, &mut bus);
    let gclk1: Counted<Gclk<Gen1, marker::Dfll<OpenLoop>>, One> = gclk1;
    assert_eq!(gclk1.count_usize(), 1);
    assert_eq!(config5.div(Div::Div(3), &mut bus).freq(), Hertz(16_000));
    assert_eq!(
        bus.ops()[0],
        Op::Gclk(GclkOp::Source { gen: 5, src: GclkSourceEnum::GCLKGEN1 })
    );
}

#[test]
fn counts_follow_increments_and_decrements() {
    let mut bus = Bus::new();
    let clocks = clocks(&mut bus);
    let dfll: Counted<Dfll<OpenLoop>, One> = clocks.sources.dfll;
    let (c2, dfll) = GclkConfig::new(clocks.gclks.tokens.gclk2, dfll, &mut bus);
    let (c3, dfll) = GclkConfig::new(clocks.gclks.tokens.gclk3, dfll, &mut bus);
    let (c4, dfll) = GclkConfig::new(clocks.gclks.tokens.gclk4, dfll, &mut bus);
    let dfll: Counted<Dfll<OpenLoop>, Succ<Succ<Succ<One>>>> = dfll;
    assert_eq!(dfll.count_usize(), 4);
    let (_t3, dfll) = c3.free(dfll);
    let (_t2, dfll) = c2.free(dfll);
    assert_eq!(dfll.count_usize(), 2);
    let (c5, dfll) = GclkConfig::new(clocks.gclks.tokens.gclk5, dfll, &mut bus);
    assert_eq!(dfll.count_usize(), 3);
    let (_t4, dfll) = c4.free(dfll);
    let (_t5, dfll) = c5.free(dfll);
    let dfll: Counted<Dfll<OpenLoop>, One> = dfll;
    assert_eq!(dfll.count_usize(), 1);
}
