use clock_tree::bus::{Bus, Op};
use clock_tree::clock::gclk::GclkConfig;
use clock_tree::clock::pclk::Pclk;
use clock_tree::clock::Clocks;
use clock_tree::eic::eicontroller::EIController;
use clock_tree::eic::v1::{init_with_gclk, init_with_ulp32k, EicPeripheral, PM};
use clock_tree::eic::{
    DebouncerSettings, EIConfigReg, EicOp, Sense, SenseHigh, SenseRise, CKSEL_A, EI00, EI03,
    EI07, EI08, EI15, PRESCALER_A, STATES_A, TICKON_A,
};
use clock_tree::gpio::{Pin, Reset, PA08, PA14};
use clock_tree::pac::{GCLK, MCLK, NVMCTRL, OSC32KCTRL, OSCCTRL};

fn clocks(bus: &mut Bus) -> Clocks {
    let mut nvmctrl = NVMCTRL::take();
    let clocks = Clocks::new(
        OSCCTRL::take(),
        OSC32KCTRL::take(),
        GCLK::take(),
        MCLK::take(),
        &mut nvmctrl,
        bus,
    );
    bus.take();
    clocks
}

#[test]
fn config_register_fields() {
    let mut reg = EIConfigReg(0);
    reg.set_sense0(5);
    assert_eq!(reg.0, 0x5);
    reg.set_filten0(1);
    assert_eq!(reg.0, 0xD);
    reg.set_sense7(3);
    assert_eq!(reg.0, 0x3000_000D);
    reg.set_filten7(1);
    assert_eq!(reg.0, 0xB000_000D);
    assert_eq!(reg.get_sense0(), 5);
    assert_eq!(reg.get_filten0(), 1);
    assert_eq!(reg.get_sense7(), 3);
    assert_eq!(reg.get_filten7(), 1);
    assert_eq!(reg.get_sense3(), 0);
    reg.set_sense0(0);
    assert_eq!(reg.0, 0xB000_0008);
    assert_eq!(EIConfigReg(0x0000_4000).get_sense3(), 4);
    assert_eq!(EIConfigReg(0xFFFF_FFFF).get_sense5(), 7);
    assert_eq!(EIConfigReg(0xFFFF_FFFF).get_filten5(), 1);
}

#[test]
fn config_register_ranges() {
    let mut reg = EIConfigReg(0xFFFF_0000);
    assert_eq!(reg.bit_range(19, 16), 0xF);
    assert_eq!(reg.bit_range(17, 10), 0xC0);
    assert!(reg.bit(16));
    assert!(!reg.bit(15));
    reg.set_bit(15, true);
    reg.set_bit(31, false);
    assert_eq!(reg.0, 0x7FFF_8000);
    reg.set_bit_range(11, 4, 0xA5);
    assert_eq!(reg.0, 0x7FFF_8A50);
    reg.set_bit_range(6, 4, 0xFF);
    assert_eq!(reg.0, 0x7FFF_8A70);
}

#[test]
fn sense_values() {
    assert_eq!(Sense::Off.bits(), 0);
    assert_eq!(Sense::Rise.bits(), 1);
    assert_eq!(Sense::Fall.bits(), 2);
    assert_eq!(Sense::Both.bits(), 3);
    assert_eq!(Sense::High.bits(), 4);
    assert_eq!(Sense::Low.bits(), 5);
}

#[test]
fn debouncer_settings() {
    let mut settings = DebouncerSettings::default();
    assert_eq!(
        settings,
        DebouncerSettings {
            tickon: TICKON_A::CLK_LFREQ,
            prescaler0: PRESCALER_A::DIV2,
            states0: STATES_A::LFREQ3,
            prescaler1: PRESCALER_A::DIV2,
            states1: STATES_A::LFREQ3,
        }
    );
    settings.set_tickon(TICKON_A::CLK_GCLK_EIC);
    settings.set_prescaler0(PRESCALER_A::DIV8);
    settings.set_states0(STATES_A::LFREQ7);
    settings.set_prescaler1(PRESCALER_A::DIV256);
    settings.set_states1(STATES_A::LFREQ7);
    assert_eq!(
        settings,
        DebouncerSettings {
            tickon: TICKON_A::CLK_GCLK_EIC,
            prescaler0: PRESCALER_A::DIV8,
            states0: STATES_A::LFREQ7,
            prescaler1: PRESCALER_A::DIV256,
            states1: STATES_A::LFREQ7,
        }
    );
}

#[test]
fn controller_without_a_clock() {
    let mut bus = Bus::new();
    let (eic, tokens) = EIController::new_only_async(EicPeripheral::take(), &mut bus);
    assert_eq!(
        bus.take(),
        vec![Op::Eic(EicOp::SwRst), Op::Eic(EicOp::WaitSwRst), Op::Eic(EicOp::Asynch(0xFFFF))]
    );
    assert_eq!(eic.count_usize(), 0);
    let reg = eic.set_sense_mode::<EI03>(Sense::Both, EIConfigReg(0x0000_0070), &mut bus);
    assert_eq!(reg, EIConfigReg(0x0000_3070));
    let reg = eic.set_sense_mode::<EI08>(Sense::Low, EIConfigReg(0xFFFF_FFFF), &mut bus);
    assert_eq!(reg, EIConfigReg(0xFFFF_FFFD));
    let reg = eic.set_sense_mode::<EI15>(Sense::Rise, EIConfigReg(0), &mut bus);
    assert_eq!(reg, EIConfigReg(0x1000_0000));
    eic.set_sense_mode_nmi(Sense::High, &mut bus);
    eic.set_event_output::<EI07>(true, 0x1, &mut bus);
    eic.set_event_output::<EI00>(false, 0xFF, &mut bus);
    assert_eq!(
        bus.take(),
        vec![
            Op::Eic(EicOp::Config { index: 0, value: 0x0000_3070 }),
            Op::Eic(EicOp::Config { index: 1, value: 0xFFFF_FFFD }),
            Op::Eic(EicOp::Config { index: 1, value: 0x1000_0000 }),
            Op::Eic(EicOp::NmiSense(4)),
            Op::Eic(EicOp::EventControl(0x81)),
            Op::Eic(EicOp::EventControl(0xFE)),
        ]
    );
    let (eic, line) =
        eic.new_async_only(tokens_line14(tokens), Pin::<PA14, Reset>::new(), 0x0003, &mut bus);
    assert_eq!(eic.count_usize(), 1);
    assert_eq!(bus.take(), vec![Op::Eic(EicOp::Asynch(0x4003))]);
    line.enable_interrupt(&mut bus);
    line.clear_interrupt_status(&mut bus);
    line.enable_event_output(&eic, 0, &mut bus);
    line.disable_event_output(&eic, 0xFFFF, &mut bus);
    assert!(line.get_interrupt_status(0x4000));
    let line = line.set_sense_mode::<_, SenseHigh, _>(&eic, EIConfigReg(0), &mut bus);
    assert_eq!(
        bus.take(),
        vec![
            Op::Eic(EicOp::IntenSet(0x4000)),
            Op::Eic(EicOp::IntFlagClear(0x4000)),
            Op::Eic(EicOp::EventControl(0x4000)),
            Op::Eic(EicOp::EventControl(0xBFFF)),
            Op::Eic(EicOp::Config { index: 1, value: 0x0400_0000 }),
        ]
    );
    let eic = eic.finalize(&mut bus);
    let eic = eic.disable(&mut bus);
    assert_eq!(
        bus.take(),
        vec![
            Op::Eic(EicOp::Enable { flag: true }),
            Op::Eic(EicOp::WaitEnable),
            Op::Eic(EicOp::Enable { flag: false }),
            Op::Eic(EicOp::WaitEnable),
        ]
    );
    let (eic, token, _pin) = eic.disable_ext_int(line);
    assert_eq!(eic.count_usize(), 0);
    assert!(token.pin_state(1 << 14));
    assert!(!token.pin_state(!(1 << 14)));
    assert!(token.get_interrupt_status(0xFFFF));
    token.enable_interrupt(&mut bus);
    token.disable_interrupt(&mut bus);
    token.clear_interrupt_status(&mut bus);
    assert_eq!(
        bus.take(),
        vec![
            Op::Eic(EicOp::IntenSet(1 << 14)),
            Op::Eic(EicOp::IntenClr(1 << 14)),
            Op::Eic(EicOp::IntFlagClear(1 << 14)),
        ]
    );
    let eic = eic.swrst(&mut bus);
    assert_eq!(bus.len(), 2);
    let _ = eic.count_usize();
}

fn tokens_line14(tokens: clock_tree::eic::Tokens) -> clock_tree::eic::Token<clock_tree::eic::EI14> {
    let nmi = &tokens.ext_int_nmi;
    let mut bus = Bus::new();
    nmi.set_filter_mode(true, &mut bus);
    nmi.set_async_mode(false, &mut bus);
    nmi.clear_interrupt_status(&mut bus);
    assert_eq!(
        bus.take(),
        vec![
            Op::Eic(EicOp::NmiFilter { flag: true }),
            Op::Eic(EicOp::NmiAsync { flag: false }),
            Op::Eic(EicOp::NmiFlagClear),
        ]
    );
    tokens.ext_int_14
}

#[test]
fn controller_on_its_channel() {
    let mut bus = Bus::new();
    let clocks = clocks(&mut bus);
    let (config, _dfll) =
        GclkConfig::new(clocks.gclks.tokens.gclk2, clocks.sources.dfll, &mut bus);
    let gclk2 = config.enable(&mut bus);
    let (pclk, _gclk2) = Pclk::enable(clocks.pclks.eic, gclk2, &mut bus);
    bus.take();
    let (eic, tokens) = EIController::from_pclk(EicPeripheral::take(), pclk, &mut bus);
    assert_eq!(
        bus.take(),
        vec![
            Op::Eic(EicOp::SwRst),
            Op::Eic(EicOp::WaitSwRst),
            Op::Eic(EicOp::ClockSelect(CKSEL_A::CLK_GCLK)),
        ]
    );
    eic.enable_debouncing::<EI03>(0x0001, &mut bus);
    eic.disable_debouncing::<EI00>(0x0009, &mut bus);
    eic.set_debouncer_settings(&DebouncerSettings::default(), &mut bus);
    let reg = eic.enable_filtering::<EI03>(EIConfigReg(0), &mut bus);
    assert_eq!(reg, EIConfigReg(0x0000_8000));
    let reg = eic.disable_filtering::<EI15>(EIConfigReg(0xFFFF_FFFF), &mut bus);
    assert_eq!(reg, EIConfigReg(0x7FFF_FFFF));
    eic.enable_async::<EI08>(0, &mut bus);
    eic.disable_async::<EI08>(0xFFFF, &mut bus);
    assert_eq!(
        bus.take(),
        vec![
            Op::Eic(EicOp::DebounceEn(0x0009)),
            Op::Eic(EicOp::DebounceEn(0x0008)),
            Op::Eic(EicOp::DPrescaler(DebouncerSettings::default())),
            Op::Eic(EicOp::Config { index: 0, value: 0x0000_8000 }),
            Op::Eic(EicOp::Config { index: 1, value: 0x7FFF_FFFF }),
            Op::Eic(EicOp::Asynch(0x100)),
            Op::Eic(EicOp::Asynch(0xFEFF)),
        ]
    );
    let (eic, line) = eic.new_sync(tokens_line14(tokens), Pin::<PA14, Reset>::new());
    assert_eq!(eic.count_usize(), 1);
    let line = line.set_sense_mode::<_, SenseRise, _>(&eic, EIConfigReg(0), &mut bus);
    let line = line.enable_filtering(&eic, EIConfigReg(0x0100_0000), &mut bus);
    let line = line.disable_filtering(&eic, EIConfigReg(0x0900_0000), &mut bus);
    let line = line.enable_filtering_async(&eic, EIConfigReg(0x0100_0000), 0, &mut bus);
    let line = line.disable_filtering(&eic, EIConfigReg(0x0900_0000), 0x4000, &mut bus);
    let line = line.enable_async(&eic, 0x1, &mut bus);
    let line = line.disable_async(&eic, 0x4001, &mut bus);
    let line = line.enable_debouncing(&eic, 0x0001, &mut bus);
    assert!(line.pin_state(0x4000));
    let line = line.disable_debouncing(&eic, 0x4001, &mut bus);
    let line = line.enable_debouncing_async(&eic, 0, 0, &mut bus);
    assert!(!line.pin_state(0x0001));
    let line = line.disable_debouncing(&eic, 0x4000, 0x4000, &mut bus);
    assert_eq!(
        bus.take(),
        vec![
            Op::Eic(EicOp::Config { index: 1, value: 0x0100_0000 }),
            Op::Eic(EicOp::Config { index: 1, value: 0x0900_0000 }),
            Op::Eic(EicOp::Config { index: 1, value: 0x0100_0000 }),
            Op::Eic(EicOp::Config { index: 1, value: 0x0900_0000 }),
            Op::Eic(EicOp::Asynch(0x4000)),
            Op::Eic(EicOp::Config { index: 1, value: 0x0100_0000 }),
            Op::Eic(EicOp::Asynch(0)),
            Op::Eic(EicOp::Asynch(0x4001)),
            Op::Eic(EicOp::Asynch(0x0001)),
            Op::Eic(EicOp::DebounceEn(0x4001)),
            Op::Eic(EicOp::DebounceEn(0x0001)),
            Op::Eic(EicOp::DebounceEn(0x4000)),
            Op::Eic(EicOp::Asynch(0x4000)),
            Op::Eic(EicOp::DebounceEn(0)),
            Op::Eic(EicOp::Asynch(0)),
        ]
    );
    let (eic, _token, _pin) = eic.disable_ext_int(line);
    let tokens = EIController::new_only_async(EicPeripheral::take(), &mut bus).1;
    let (_peripheral, pclk) = eic.destroy(tokens);
    assert_eq!(pclk.freq(), clock_tree::time::Hertz(48_000_000));
}

#[test]
fn controller_on_the_low_power_oscillator() {
    let mut bus = Bus::new();
    let clocks = clocks(&mut bus);
    let (eic, tokens, ulp) =
        EIController::from_osculp(EicPeripheral::take(), clocks.sources.osculp32k, &mut bus);
    assert_eq!(ulp.count_usize(), 1);
    assert_eq!(bus.ops()[2], Op::Eic(EicOp::ClockSelect(CKSEL_A::CLK_ULP32K)));
    let (_peripheral, ulp) = eic.destroy(tokens, ulp);
    assert_eq!(ulp.count_usize(), 0);
}

#[test]
fn controller_as_a_whole() {
    let mut bus = Bus::new();
    let clocks = clocks(&mut bus);
    let (config, _dfll) =
        GclkConfig::new(clocks.gclks.tokens.gclk2, clocks.sources.dfll, &mut bus);
    let gclk2 = config.enable(&mut bus);
    let (pclk, _gclk2) = Pclk::enable(clocks.pclks.eic, gclk2, &mut bus);
    bus.take();
    let mut pm = PM::take();
    let mut eic = init_with_gclk(&mut pm, &pclk, EicPeripheral::take(), &mut bus);
    assert_eq!(
        bus.take(),
        vec![Op::Eic(EicOp::BusClockOn), Op::Eic(EicOp::SwRst), Op::Eic(EicOp::WaitSwRst)]
    );
    eic.button_debounce_pins(&[0, 3, 15, 3], &mut bus);
    assert_eq!(
        bus.take(),
        vec![
            Op::Eic(EicOp::DPrescaler(DebouncerSettings {
                tickon: TICKON_A::CLK_LFREQ,
                prescaler0: PRESCALER_A::DIV16,
                states0: STATES_A::LFREQ7,
                prescaler1: PRESCALER_A::DIV16,
                states1: STATES_A::LFREQ7,
            })),
            Op::Eic(EicOp::DebounceEn(0x8009)),
        ]
    );
    eic.button_debounce_pins(&[], &mut bus);
    assert_eq!(bus.take()[1], Op::Eic(EicOp::DebounceEn(0)));
    let _eic = eic.finalize(&mut bus);
    assert_eq!(
        bus.take(),
        vec![Op::Eic(EicOp::Enable { flag: true }), Op::Eic(EicOp::WaitEnable)]
    );
    let mut mclk = MCLK::take();
    let _eic = init_with_ulp32k(&mut mclk, &pclk, EicPeripheral::take(), &mut bus);
    assert_eq!(bus.ops()[3], Op::Eic(EicOp::ClockSelect(CKSEL_A::CLK_ULP32K)));
}

#[test]
fn non_maskable_line() {
    let mut bus = Bus::new();
    let (eic, tokens) = EIController::new_only_async(EicPeripheral::take(), &mut bus);
    bus.take();
    let (eic, nmi) =
        eic.new_async_only_nmi(tokens.ext_int_nmi, Pin::<PA08, Reset>::new(), &mut bus);
    assert_eq!(eic.count_usize(), 1);
    let nmi = nmi.set_sense_mode::<_, SenseHigh, _>(&eic, &mut bus);
    nmi.clear_interrupt_status(&mut bus);
    assert_eq!(
        bus.take(),
        vec![
            Op::Eic(EicOp::NmiAsync { flag: true }),
            Op::Eic(EicOp::NmiSense(4)),
            Op::Eic(EicOp::NmiFlagClear),
        ]
    );
    let (eic, _token, _pin) = eic.disable_ext_int_nmi(nmi);
    assert_eq!(eic.count_usize(), 0);
}

#[test]
fn non_maskable_line_with_a_clock() {
    let mut bus = Bus::new();
    let clocks = clocks(&mut bus);
    let (eic, tokens, _ulp) =
        EIController::from_osculp(EicPeripheral::take(), clocks.sources.osculp32k, &mut bus);
    bus.take();
    let (eic, nmi) = eic.new_sync_nmi(tokens.ext_int_nmi, Pin::<PA08, Reset>::new());
    let nmi = nmi.enable_async(&mut bus);
    let nmi = nmi.enable_filtering(&eic, &mut bus);
    let nmi = nmi.disable_filtering(&mut bus);
    assert_eq!(
        bus.take(),
        vec![
            Op::Eic(EicOp::NmiAsync { flag: true }),
            Op::Eic(EicOp::NmiFilter { flag: true }),
            Op::Eic(EicOp::NmiAsync { flag: false }),
            Op::Eic(EicOp::NmiFilter { flag: false }),
        ]
    );
    let (eic, _token, _pin) = eic.disable_ext_int_nmi(nmi);
    assert_eq!(eic.count_usize(), 0);
}
