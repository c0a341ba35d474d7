use py32_hal::rcc::lifecycle::{disable, enable_and_reset, PeripheralClocks, RccInfo};
use py32_hal::rcc::{
    all_equal, calc_pclk, compute_clocks, flash_latency, frequency, get_equal, hse_freq_range,
    AHBPrescaler, APBPrescaler, ChipFamily, ClockRegistry, ClockError, Config, Hse, HseFreqRange, HseMode,
    HsiFs, Hsidiv, KernelClock, Pll, PllMul, PllSource, Sysclk,
};

fn pll_config(hsi: HsiFs, mul: PllMul) -> Config {
    Config {
        hsi: Some(hsi),
        hsidiv: Hsidiv::DIV1,
        hse: None,
        sys: Sysclk::PLL,
        pll: Some(Pll { src: PllSource::HSI, mul }),
        ahb_pre: AHBPrescaler::DIV1,
        apb1_pre: APBPrescaler::DIV1,
    }
}

#[test]
fn hsi_24mhz_tripled_resolves_to_72mhz() {
    let clocks = compute_clocks(&pll_config(HsiFs::HSI_24MHZ, PllMul::MUL3), ChipFamily::Py32F072).unwrap();
    assert_eq!(clocks.sys, Some(72_000_000));
    assert_eq!(clocks.hclk1, Some(72_000_000));
    assert_eq!(clocks.pclk1, Some(72_000_000));
    assert_eq!(clocks.pclk1_tim, Some(72_000_000));
    assert_eq!(clocks.pll, Some(72_000_000));
    assert_eq!(clocks.hsi, Some(24_000_000));
    assert_eq!(clocks.lse, None);
}

#[test]
fn tripled_pll_is_rejected_on_a_48mhz_device() {
    let r = compute_clocks(&pll_config(HsiFs::HSI_24MHZ, PllMul::MUL3), ChipFamily::Py32F030);
    assert_eq!(r, Err(ClockError::PllUnsupported));
}

#[test]
fn doubled_pll_reaches_48mhz_on_f030() {
    let clocks = compute_clocks(&pll_config(HsiFs::HSI_24MHZ, PllMul::MUL2), ChipFamily::Py32F030).unwrap();
    assert_eq!(clocks.sys, Some(48_000_000));
}

#[test]
fn default_config_runs_from_8mhz_hsi() {
    let config = Config::default();
    let clocks = compute_clocks(&config, ChipFamily::Py32F072).unwrap();
    assert_eq!(clocks.sys, Some(8_000_000));
    assert_eq!(clocks.pll, None);
    let top = py32_hal::Config::default();
    assert_eq!(top.rcc, config);
}

#[test]
fn prescalers_divide_and_double_timer_clock() {
    let config = Config {
        hsi: Some(HsiFs::HSI_16MHZ),
        hsidiv: Hsidiv::DIV2,
        hse: None,
        sys: Sysclk::HSI,
        pll: None,
        ahb_pre: AHBPrescaler::DIV2,
        apb1_pre: APBPrescaler::DIV4,
    };
    let clocks = compute_clocks(&config, ChipFamily::Py32F072).unwrap();
    assert_eq!(clocks.sys, Some(8_000_000));
    assert_eq!(clocks.hclk1, Some(4_000_000));
    assert_eq!(clocks.pclk1, Some(1_000_000));
    assert_eq!(clocks.pclk1_tim, Some(2_000_000));
}

#[test]
fn hse_sysclk_and_errors() {
    let mut config = Config {
        hsi: None,
        hsidiv: Hsidiv::DIV1,
        hse: Some(Hse { freq: 8_000_000, mode: HseMode::Oscillator }),
        sys: Sysclk::HSE,
        pll: None,
        ahb_pre: AHBPrescaler::DIV1,
        apb1_pre: APBPrescaler::DIV1,
    };
    assert_eq!(compute_clocks(&config, ChipFamily::Py32F072).unwrap().sys, Some(8_000_000));
    config.hse = Some(Hse { freq: 2_000_000, mode: HseMode::Oscillator });
    assert_eq!(compute_clocks(&config, ChipFamily::Py32F072), Err(ClockError::HseOutOfRange));
    config.hse = Some(Hse { freq: 2_000_000, mode: HseMode::Bypass });
    assert_eq!(compute_clocks(&config, ChipFamily::Py32F072).unwrap().sys, Some(2_000_000));
    config.sys = Sysclk::HSI;
    assert_eq!(compute_clocks(&config, ChipFamily::Py32F072), Err(ClockError::SourceNotConfigured));
}

#[test]
fn each_clock_error_has_an_input() {
    let r = compute_clocks(&pll_config(HsiFs::HSI_8MHZ, PllMul::MUL2), ChipFamily::Py32F072);
    assert_eq!(r, Err(ClockError::PllInputOutOfRange));
    let r = compute_clocks(&Config::default(), ChipFamily::Py32F002B);
    assert_eq!(r, Err(ClockError::HsiUnsupported));
    let r = compute_clocks(&pll_config(HsiFs::HSI_24MHZ, PllMul::MUL2), ChipFamily::Py32F002B);
    assert_eq!(r, Err(ClockError::PllUnsupported));
    let mut c = pll_config(HsiFs::HSI_24MHZ, PllMul::MUL2);
    c.pll = Some(Pll { src: PllSource::HSE, mul: PllMul::MUL2 });
    assert_eq!(compute_clocks(&c, ChipFamily::Py32F072), Err(ClockError::SourceNotConfigured));
    let hse32 = Config {
        hsi: Some(HsiFs::HSI_24MHZ),
        hsidiv: Hsidiv::DIV1,
        hse: Some(Hse { freq: 32_000_000, mode: HseMode::Oscillator }),
        sys: Sysclk::HSE,
        pll: None,
        ahb_pre: AHBPrescaler::DIV1,
        apb1_pre: APBPrescaler::DIV1,
    };
    assert_eq!(compute_clocks(&hse32, ChipFamily::Py32F002B), Err(ClockError::SysclkTooHigh));
    assert_eq!(compute_clocks(&hse32, ChipFamily::Py32F030).unwrap().sys, Some(32_000_000));
}

#[test]
fn pclk_split() {
    assert_eq!(calc_pclk(48_000_000, APBPrescaler::DIV1), (48_000_000, 48_000_000));
    assert_eq!(calc_pclk(48_000_000, APBPrescaler::DIV2), (24_000_000, 48_000_000));
    assert_eq!(calc_pclk(48_000_000, APBPrescaler::DIV16), (3_000_000, 6_000_000));
}

#[test]
fn latency_steps() {
    assert_eq!(flash_latency(24_000_000, ChipFamily::Py32F072), 0);
    assert_eq!(flash_latency(24_000_001, ChipFamily::Py32F072), 1);
    assert_eq!(flash_latency(48_000_000, ChipFamily::Py32F072), 1);
    assert_eq!(flash_latency(72_000_000, ChipFamily::Py32F072), 2);
    assert_eq!(flash_latency(72_000_000, ChipFamily::Py32F030), 1);
}

#[test]
fn hse_ranges() {
    assert_eq!(hse_freq_range(8_000_000), HseFreqRange::Range1);
    assert_eq!(hse_freq_range(16_000_000), HseFreqRange::Range2);
    assert_eq!(hse_freq_range(24_000_000), HseFreqRange::Range3);
}

#[test]
fn equal_items() {
    assert!(all_equal(&[]));
    assert!(all_equal(&[3, 3, 3]));
    assert!(!all_equal(&[3, 4, 3]));
    assert_eq!(get_equal(&[]), Ok(None));
    assert_eq!(get_equal(&[7, 7]), Ok(Some(7)));
    assert_eq!(get_equal(&[7, 8]), Err(()));
}

#[test]
fn kernel_clock_frequency() {
    let clocks = compute_clocks(&pll_config(HsiFs::HSI_24MHZ, PllMul::MUL2), ChipFamily::Py32F072).unwrap();
    assert_eq!(frequency(&clocks, KernelClock::Pll), 48_000_000);
    assert_eq!(frequency(&clocks, KernelClock::Hsi), 24_000_000);
    assert_eq!(frequency(&clocks, KernelClock::Pclk1Tim), 48_000_000);
    assert_eq!(clocks.get(KernelClock::Lse), None);
    assert_eq!(clocks.get(KernelClock::Sys), Some(48_000_000));
}

fn shared(idx: u8) -> RccInfo {
    RccInfo::new(Some((3, 5)), (12, 9), Some(idx))
}

#[test]
fn disable_of_never_enabled_peripheral_keeps_shared_bit() {
    let mut clocks = PeripheralClocks::new(2, vec![0; 16]);
    let q = shared(0);
    let p = RccInfo::new(None, (12, 9), Some(1));
    assert!(enable_and_reset(&mut clocks, &q));
    assert!(clocks.is_enabled(&q));
    assert!(!disable(&mut clocks, &p));
    assert!(clocks.is_enabled(&q));
    assert_eq!(clocks.refcount(1), 0);
    assert_eq!(clocks.refcount(0), 1);
}

#[test]
fn n_enables_then_n_disables_restore_bit() {
    let mut clocks = PeripheralClocks::new(1, vec![0; 16]);
    let p = shared(0);
    assert!(enable_and_reset(&mut clocks, &p));
    assert!(clocks.is_enabled(&p));
    assert!(!enable_and_reset(&mut clocks, &p));
    assert!(!enable_and_reset(&mut clocks, &p));
    assert_eq!(clocks.refcount(0), 3);
    assert_eq!(clocks.register(12), 1 << 9);
    assert_eq!(clocks.register(3), 0);
    assert!(!disable(&mut clocks, &p));
    assert!(!disable(&mut clocks, &p));
    assert!(clocks.is_enabled(&p));
    assert!(disable(&mut clocks, &p));
    assert!(!clocks.is_enabled(&p));
    assert_eq!(clocks.register(12), 0);
    assert_eq!(clocks.refcount(0), 0);
}

#[test]
fn exclusive_bit_always_toggles() {
    let mut clocks = PeripheralClocks::new(0, vec![0x10; 16]);
    let p = RccInfo::new(Some((3, 1)), (4, 2), None);
    assert!(enable_and_reset(&mut clocks, &p));
    assert_eq!(clocks.register(4), 0x14);
    assert_eq!(clocks.register(3), 0x10);
    assert!(disable(&mut clocks, &p));
    assert_eq!(clocks.register(4), 0x10);
}

#[test]
fn registry_is_written_once() {
    let mut registry = ClockRegistry::new();
    assert_eq!(registry.get_freqs(), None);
    let first = compute_clocks(&Config::default(), ChipFamily::Py32F072).unwrap();
    let second = compute_clocks(&pll_config(HsiFs::HSI_24MHZ, PllMul::MUL3), ChipFamily::Py32F072).unwrap();
    assert!(registry.set_freqs(first));
    assert!(!registry.set_freqs(second));
    assert_eq!(registry.get_freqs(), Some(first));
}

#[test]
fn f002b_external_oscillator_is_range_checked() {
    let config = Config {
        hsi: Some(HsiFs::HSI_24MHZ),
        hsidiv: Hsidiv::DIV1,
        hse: Some(Hse { freq: 40_000_000, mode: HseMode::Bypass }),
        sys: Sysclk::HSI,
        pll: None,
        ahb_pre: AHBPrescaler::DIV1,
        apb1_pre: APBPrescaler::DIV1,
    };
    assert_eq!(compute_clocks(&config, ChipFamily::Py32F002B), Err(ClockError::HseOutOfRange));
}
