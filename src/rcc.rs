//! Reset and clock control: resolution of a declarative clock configuration
//! into the frequency table of every bus domain.
use vstd::prelude::*;

pub mod lifecycle;

verus! {

/// Internal high-speed oscillator frequency selection.
#[allow(non_camel_case_types)]
#[derive(Clone, Copy, Debug, PartialEq, Eq, Structural)]
pub enum HsiFs {
    HSI_4MHZ,
    HSI_8MHZ,
    HSI_16MHZ,
    HSI_22_12MHZ,
    HSI_24MHZ,
}

/// Divider between the internal oscillator and the system clock.
#[allow(non_camel_case_types)]
#[derive(Clone, Copy, Debug, PartialEq, Eq, Structural)]
pub enum Hsidiv {
    DIV1,
    DIV2,
    DIV4,
    DIV8,
    DIV16,
    DIV32,
    DIV64,
    DIV128,
}

/// AHB bus prescaler.
#[allow(non_camel_case_types)]
#[derive(Clone, Copy, Debug, PartialEq, Eq, Structural)]
pub enum AHBPrescaler {
    DIV1,
    DIV2,
    DIV4,
    DIV8,
    DIV16,
    DIV64,
    DIV128,
    DIV256,
    DIV512,
}

/// APB bus prescaler.
#[allow(non_camel_case_types)]
#[derive(Clone, Copy, Debug, PartialEq, Eq, Structural)]
pub enum APBPrescaler {
    DIV1,
    DIV2,
    DIV4,
    DIV8,
    DIV16,
}

/// System clock source selector.
#[derive(Clone, Copy, Debug, PartialEq, Eq, Structural)]
pub enum Sysclk {
    HSI,
    HSE,
    PLL,
}

/// How the external oscillator is driven.
#[derive(Clone, Copy, Debug, PartialEq, Eq, Structural)]
pub enum HseMode {
    /// crystal/ceramic oscillator (HSEBYP=0)
    Oscillator,
    /// external analog clock (low swing) (HSEBYP=1)
    Bypass,
}

/// External high-speed oscillator.
#[derive(Clone, Copy, Debug, PartialEq, Eq, Structural)]
pub struct Hse {
    /// Frequency in hertz.
    pub freq: u32,
    pub mode: HseMode,
}

/// Internal high-speed oscillator description.
#[derive(Clone, Copy, Debug, PartialEq, Eq, Structural)]
pub struct Hsi {
    /// Frequency in hertz.
    pub freq: u32,
    pub mode: HseMode,
}

/// PLL reference clock.
#[derive(Clone, Copy, Debug, PartialEq, Eq, Structural)]
pub enum PllSource {
    HSE,
    HSI,
}

/// PLL multiplication factor.
#[allow(non_camel_case_types)]
#[derive(Clone, Copy, Debug, PartialEq, Eq, Structural)]
pub enum PllMul {
    MUL2,
    MUL3,
}

/// PLL configuration.
#[derive(Clone, Copy, Debug, PartialEq, Eq, Structural)]
pub struct Pll {
    pub src: PllSource,
    pub mul: PllMul,
}

/// The device families whose clock trees differ.
#[derive(Clone, Copy, Debug, PartialEq, Eq, Structural)]
pub enum ChipFamily {
    /// Internal oscillator fixed at 24 MHz, no PLL, at most 24 MHz.
    Py32F002B,
    /// PLL that always doubles its input, at most 48 MHz.
    Py32F030,
    /// PLL that doubles or triples its input, at most 72 MHz.
    Py32F072,
}

/// Clock configuration.
#[derive(Clone, Copy, Debug, PartialEq, Eq, Structural)]
pub struct Config {
    pub hsi: Option<HsiFs>,
    pub hsidiv: Hsidiv,
    pub hse: Option<Hse>,
    pub sys: Sysclk,
    pub pll: Option<Pll>,
    pub ahb_pre: AHBPrescaler,
    pub apb1_pre: APBPrescaler,
}

/// Why a clock configuration cannot be applied.
#[derive(Clone, Copy, Debug, PartialEq, Eq, Structural)]
pub enum ClockError {
    /// The internal oscillator frequency does not exist on this family.
    HsiUnsupported,
    /// The external oscillator frequency lies outside the range of its mode,
    /// on every family.
    HseOutOfRange,
    /// The PLL (or this multiplier) does not exist on this family.
    PllUnsupported,
    /// The PLL input frequency lies outside 16..=24 MHz.
    PllInputOutOfRange,
    /// A source referenced by the configuration is not configured.
    SourceNotConfigured,
    /// The system clock would exceed the family's maximum.
    SysclkTooHigh,
}

/// Resolved frequencies of every clock domain, in hertz.
#[derive(Clone, Copy, Debug, PartialEq, Eq, Structural)]
pub struct Clocks {
    pub hclk1: Option<u32>,
    pub pclk1: Option<u32>,
    pub pclk1_tim: Option<u32>,
    pub sys: Option<u32>,
    pub hsi: Option<u32>,
    pub lse: Option<u32>,
    pub pll: Option<u32>,
}

/// The clock domains that a peripheral kernel clock can be taken from.
#[derive(Clone, Copy, Debug, PartialEq, Eq, Structural)]
pub enum KernelClock {
    Hclk1,
    Pclk1,
    Pclk1Tim,
    Sys,
    Hsi,
    Lse,
    Pll,
}

/// Range setting of the external oscillator's drive.
#[derive(Clone, Copy, Debug, PartialEq, Eq, Structural)]
pub enum HseFreqRange {
    /// Up to 8 MHz.
    Range1,
    /// Up to 16 MHz.
    Range2,
    /// Above 16 MHz.
    Range3,
}

/// A peripheral whose clock is gated and whose kernel clock is one domain.
pub trait RccPeripheral {
    /// Where the enable and reset bits of the peripheral lie.
    fn rcc_info() -> crate::rcc::lifecycle::RccInfo;

    /// The domain that clocks the peripheral.
    fn kernel_clock() -> KernelClock;
}

pub const HSE_OSC_MIN: u32 = 4_000_000;
pub const HSE_BYP_MIN: u32 = 1_000_000;
pub const HSE_MAX: u32 = 32_000_000;
pub const PLL_IN_MIN: u32 = 16_000_000;
pub const PLL_IN_MAX: u32 = 24_000_000;

pub open spec fn hsi_hz(fs: HsiFs) -> u32 {
    match fs {
        HsiFs::HSI_4MHZ => 4_000_000,
        HsiFs::HSI_8MHZ => 8_000_000,
        HsiFs::HSI_16MHZ => 16_000_000,
        HsiFs::HSI_22_12MHZ => 22_120_000,
        HsiFs::HSI_24MHZ => 24_000_000,
    }
}

impl HsiFs {
    /// Frequency of this selection in hertz.
    pub fn hertz(self) -> (r: u32)
        ensures
            r == hsi_hz(self),
    {
        match self {
            HsiFs::HSI_4MHZ => 4_000_000,
            HsiFs::HSI_8MHZ => 8_000_000,
            HsiFs::HSI_16MHZ => 16_000_000,
            HsiFs::HSI_22_12MHZ => 22_120_000,
            HsiFs::HSI_24MHZ => 24_000_000,
        }
    }
}

impl Hsidiv {
    pub open spec fn spec_divisor(self) -> u32 {
        match self {
            Hsidiv::DIV1 => 1,
            Hsidiv::DIV2 => 2,
            Hsidiv::DIV4 => 4,
            Hsidiv::DIV8 => 8,
            Hsidiv::DIV16 => 16,
            Hsidiv::DIV32 => 32,
            Hsidiv::DIV64 => 64,
            Hsidiv::DIV128 => 128,
        }
    }

    pub fn divisor(self) -> (r: u32)
        ensures
            r == self.spec_divisor(),
            r > 0,
    {
        match self {
            Hsidiv::DIV1 => 1,
            Hsidiv::DIV2 => 2,
            Hsidiv::DIV4 => 4,
            Hsidiv::DIV8 => 8,
            Hsidiv::DIV16 => 16,
            Hsidiv::DIV32 => 32,
            Hsidiv::DIV64 => 64,
            Hsidiv::DIV128 => 128,
        }
    }
}

impl AHBPrescaler {
    pub open spec fn spec_divisor(self) -> u32 {
        match self {
            AHBPrescaler::DIV1 => 1,
            AHBPrescaler::DIV2 => 2,
            AHBPrescaler::DIV4 => 4,
            AHBPrescaler::DIV8 => 8,
            AHBPrescaler::DIV16 => 16,
            AHBPrescaler::DIV64 => 64,
            AHBPrescaler::DIV128 => 128,
            AHBPrescaler::DIV256 => 256,
            AHBPrescaler::DIV512 => 512,
        }
    }

    pub fn divisor(self) -> (r: u32)
        ensures
            r == self.spec_divisor(),
            r > 0,
    {
        match self {
            AHBPrescaler::DIV1 => 1,
            AHBPrescaler::DIV2 => 2,
            AHBPrescaler::DIV4 => 4,
            AHBPrescaler::DIV8 => 8,
            AHBPrescaler::DIV16 => 16,
            AHBPrescaler::DIV64 => 64,
            AHBPrescaler::DIV128 => 128,
            AHBPrescaler::DIV256 => 256,
            AHBPrescaler::DIV512 => 512,
        }
    }
}

impl APBPrescaler {
    pub open spec fn spec_divisor(self) -> u32 {
        match self {
            APBPrescaler::DIV1 => 1,
            APBPrescaler::DIV2 => 2,
            APBPrescaler::DIV4 => 4,
            APBPrescaler::DIV8 => 8,
            APBPrescaler::DIV16 => 16,
        }
    }

    pub fn divisor(self) -> (r: u32)
        ensures
            r == self.spec_divisor(),
            r > 0,
    {
        match self {
            APBPrescaler::DIV1 => 1,
            APBPrescaler::DIV2 => 2,
            APBPrescaler::DIV4 => 4,
            APBPrescaler::DIV8 => 8,
            APBPrescaler::DIV16 => 16,
        }
    }
}

impl PllMul {
    pub open spec fn spec_factor(self) -> u32 {
        match self {
            PllMul::MUL2 => 2,
            PllMul::MUL3 => 3,
        }
    }

    pub fn factor(self) -> (r: u32)
        ensures
            r == self.spec_factor(),
    {
        match self {
            PllMul::MUL2 => 2,
            PllMul::MUL3 => 3,
        }
    }
}

impl ChipFamily {
    /// Highest system clock the family is documented to run at.
    pub open spec fn spec_max_sysclk(self) -> u32 {
        match self {
            ChipFamily::Py32F002B => 24_000_000,
            ChipFamily::Py32F030 => 48_000_000,
            ChipFamily::Py32F072 => 72_000_000,
        }
    }

    pub fn max_sysclk(self) -> (r: u32)
        ensures
            r == self.spec_max_sysclk(),
    {
        match self {
            ChipFamily::Py32F002B => 24_000_000,
            ChipFamily::Py32F030 => 48_000_000,
            ChipFamily::Py32F072 => 72_000_000,
        }
    }

    pub open spec fn spec_supports_hsi(self, fs: HsiFs) -> bool {
        match self {
            ChipFamily::Py32F002B => fs == HsiFs::HSI_24MHZ,
            _ => true,
        }
    }

    pub open spec fn spec_supports_pll(self, mul: PllMul) -> bool {
        match self {
            ChipFamily::Py32F002B => false,
            ChipFamily::Py32F030 => mul == PllMul::MUL2,
            ChipFamily::Py32F072 => true,
        }
    }
}

impl Default for Config {
    fn default() -> (r: Self)
        ensures
            r == (Config {
                hsi: Some(HsiFs::HSI_8MHZ),
                hsidiv: Hsidiv::DIV1,
                hse: None,
                sys: Sysclk::HSI,
                pll: None,
                ahb_pre: AHBPrescaler::DIV1,
                apb1_pre: APBPrescaler::DIV1,
            }),
    {
        Config {
            hsi: Some(HsiFs::HSI_8MHZ),
            hsidiv: Hsidiv::DIV1,
            hse: None,
            sys: Sysclk::HSI,
            pll: None,
            ahb_pre: AHBPrescaler::DIV1,
            apb1_pre: APBPrescaler::DIV1,
        }
    }
}

/// The internal oscillator frequency, if configured and available.
pub open spec fn spec_hsi_value(config: Config, chip: ChipFamily) -> Result<Option<u32>, ClockError> {
    match config.hsi {
        None => Ok(None),
        Some(fs) => if chip.spec_supports_hsi(fs) {
            Ok(Some(hsi_hz(fs)))
        } else {
            Err(ClockError::HsiUnsupported)
        },
    }
}

pub open spec fn hse_in_range(hse: Hse) -> bool {
    match hse.mode {
        HseMode::Bypass => HSE_BYP_MIN <= hse.freq <= HSE_MAX,
        HseMode::Oscillator => HSE_OSC_MIN <= hse.freq <= HSE_MAX,
    }
}

/// The external oscillator frequency, if configured and within range.
pub open spec fn spec_hse_value(config: Config) -> Result<Option<u32>, ClockError> {
    match config.hse {
        None => Ok(None),
        Some(hse) => if hse_in_range(hse) {
            Ok(Some(hse.freq))
        } else {
            Err(ClockError::HseOutOfRange)
        },
    }
}

/// The PLL output frequency, given the resolved oscillators.
pub open spec fn spec_pll_value(
    config: Config,
    chip: ChipFamily,
    hsi: Option<u32>,
    hse: Option<u32>,
) -> Result<Option<u32>, ClockError> {
    match config.pll {
        None => Ok(None),
        Some(pll) => {
            let src = match pll.src {
                PllSource::HSE => hse,
                PllSource::HSI => hsi,
            };
            if !chip.spec_supports_pll(pll.mul) {
                Err(ClockError::PllUnsupported)
            } else if src is None {
                Err(ClockError::SourceNotConfigured)
            } else if !(PLL_IN_MIN <= src->0 <= PLL_IN_MAX) {
                Err(ClockError::PllInputOutOfRange)
            } else {
                Ok(Some((src->0 * pll.mul.spec_factor()) as u32))
            }
        },
    }
}

/// The system clock frequency, given the resolved sources.
pub open spec fn spec_sys_value(
    config: Config,
    hsi: Option<u32>,
    hse: Option<u32>,
    pll: Option<u32>,
) -> Result<u32, ClockError> {
    let src = match config.sys {
        Sysclk::HSI => match hsi {
            Some(f) => Some((f / config.hsidiv.spec_divisor()) as u32),
            None => None,
        },
        Sysclk::HSE => hse,
        Sysclk::PLL => pll,
    };
    match src {
        Some(f) => Ok(f),
        None => Err(ClockError::SourceNotConfigured),
    }
}

/// Bus clock and timer clock of an APB domain fed by `hclk`.
pub open spec fn spec_pclk(hclk: u32, ppre: APBPrescaler) -> (u32, u32) {
    let pclk = (hclk / ppre.spec_divisor()) as u32;
    if ppre == APBPrescaler::DIV1 {
        (pclk, pclk)
    } else {
        (pclk, (2 * pclk) as u32)
    }
}

/// The frequency table that `config` resolves to on `chip`, or why it does not.
pub open spec fn spec_clocks(config: Config, chip: ChipFamily) -> Result<Clocks, ClockError> {
    match spec_hsi_value(config, chip) {
        Err(e) => Err(e),
        Ok(hsi) => match spec_hse_value(config) {
            Err(e) => Err(e),
            Ok(hse) => match spec_pll_value(config, chip, hsi, hse) {
                Err(e) => Err(e),
                Ok(pll) => match spec_sys_value(config, hsi, hse, pll) {
                    Err(e) => Err(e),
                    Ok(sys) => if sys > chip.spec_max_sysclk() {
                        Err(ClockError::SysclkTooHigh)
                    } else {
                        let hclk1 = (sys / config.ahb_pre.spec_divisor()) as u32;
                        let (pclk1, pclk1_tim) = spec_pclk(hclk1, config.apb1_pre);
                        Ok(
                            Clocks {
                                hclk1: Some(hclk1),
                                pclk1: Some(pclk1),
                                pclk1_tim: Some(pclk1_tim),
                                sys: Some(sys),
                                hsi,
                                lse: None,
                                pll,
                            },
                        )
                    },
                },
            },
        },
    }
}

/// Flash wait states needed at core clock `hclk`.
pub open spec fn spec_flash_latency(hclk: u32, chip: ChipFamily) -> u8 {
    if hclk <= 24_000_000 {
        0
    } else if hclk <= 48_000_000 || chip != ChipFamily::Py32F072 {
        1
    } else {
        2
    }
}

/// Splits the APB clock off `hclk`: `(pclk, pclk_tim)`, where the timer
/// clock runs at twice the bus clock whenever the bus is divided.
pub fn calc_pclk(hclk: u32, ppre: APBPrescaler) -> (r: (u32, u32))
    ensures
        r == spec_pclk(hclk, ppre),
        ppre == APBPrescaler::DIV1 ==> r.0 == hclk && r.1 == hclk,
{
    let pclk = hclk / ppre.divisor();
    let pclk_tim = if hclk == pclk {
        pclk
    } else {
        assert(ppre != APBPrescaler::DIV1);
        assert(pclk * 2 <= hclk) by (nonlinear_arith)
            requires
                pclk == hclk / ppre.spec_divisor(),
                ppre.spec_divisor() >= 2,
        ;
        pclk * 2
    };
    proof {
        if ppre != APBPrescaler::DIV1 && hclk == pclk {
            assert(hclk == 0) by (nonlinear_arith)
                requires
                    pclk == hclk / ppre.spec_divisor(),
                    ppre.spec_divisor() >= 2,
                    hclk == pclk,
            ;
        }
    }
    (pclk, pclk_tim)
}

/// The flash wait states never decrease as the core clock rises.
pub proof fn lemma_flash_latency_monotonic(slow: u32, fast: u32, chip: ChipFamily)
    requires
        slow <= fast,
    ensures
        spec_flash_latency(slow, chip) <= spec_flash_latency(fast, chip),
{
}

/// Drive range of the external oscillator for frequency `freq`.
pub fn hse_freq_range(freq: u32) -> (r: HseFreqRange)
    ensures
        freq <= 8_000_000 ==> r == HseFreqRange::Range1,
        8_000_000 < freq <= 16_000_000 ==> r == HseFreqRange::Range2,
        16_000_000 < freq ==> r == HseFreqRange::Range3,
{
    if freq <= 8_000_000 {
        HseFreqRange::Range1
    } else if freq <= 16_000_000 {
        HseFreqRange::Range2
    } else {
        HseFreqRange::Range3
    }
}

/// Flash wait states for core clock `hclk`: a step function that never
/// decreases as the clock rises.
pub fn flash_latency(hclk: u32, chip: ChipFamily) -> (r: u8)
    ensures
        r == spec_flash_latency(hclk, chip),
{
    if hclk <= 24_000_000 {
        0
    } else if hclk <= 48_000_000 {
        1
    } else {
        match chip {
            ChipFamily::Py32F072 => 2,
            _ => 1,
        }
    }
}

/// Resolves `config` on `chip` into the frequency of every clock domain.
///
/// Fails where a frequency is out of the accepted oscillator or PLL range,
/// where a referenced source is not configured, where the family lacks the
/// selected oscillator setting or PLL, or where the system clock would exceed
/// the family's maximum.
pub fn compute_clocks(config: &Config, chip: ChipFamily) -> (r: Result<Clocks, ClockError>)
    ensures
        r == spec_clocks(*config, chip),
{
    let hsi_value: Option<u32> = match config.hsi {
        None => None,
        Some(fs) => {
            let supported = match chip {
                ChipFamily::Py32F002B => fs == HsiFs::HSI_24MHZ,
                _ => true,
            };
            if !supported {
                return Err(ClockError::HsiUnsupported);
            }
            Some(fs.hertz())
        },
    };
    let hse_value: Option<u32> = match config.hse {
        None => None,
        Some(hse) => {
            let in_range = match hse.mode {
                HseMode::Bypass => HSE_BYP_MIN <= hse.freq && hse.freq <= HSE_MAX,
                HseMode::Oscillator => HSE_OSC_MIN <= hse.freq && hse.freq <= HSE_MAX,
            };
            if !in_range {
                return Err(ClockError::HseOutOfRange);
            }
            Some(hse.freq)
        },
    };
    let pll_value: Option<u32> = match config.pll {
        None => None,
        Some(pll) => {
            let supported = match chip {
                ChipFamily::Py32F002B => false,
                ChipFamily::Py32F030 => pll.mul == PllMul::MUL2,
                ChipFamily::Py32F072 => true,
            };
            if !supported {
                return Err(ClockError::PllUnsupported);
            }
            let src = match pll.src {
                PllSource::HSE => hse_value,
                PllSource::HSI => hsi_value,
            };
            match src {
                None => {
                    return Err(ClockError::SourceNotConfigured);
                },
                Some(f) => {
                    if !(PLL_IN_MIN <= f && f <= PLL_IN_MAX) {
                        return Err(ClockError::PllInputOutOfRange);
                    }
                    Some(f * pll.mul.factor())
                },
            }
        },
    };
    let sys_src: Option<u32> = match config.sys {
        Sysclk::HSI => match hsi_value {
            Some(f) => Some(f / config.hsidiv.divisor()),
            None => None,
        },
        Sysclk::HSE => hse_value,
        Sysclk::PLL => pll_value,
    };
    let sys = match sys_src {
        Some(f) => f,
        None => {
            return Err(ClockError::SourceNotConfigured);
        },
    };
    if sys > chip.max_sysclk() {
        return Err(ClockError::SysclkTooHigh);
    }
    let hclk1 = sys / config.ahb_pre.divisor();
    let (pclk1, pclk1_tim) = calc_pclk(hclk1, config.apb1_pre);
    Ok(
        Clocks {
            hclk1: Some(hclk1),
            pclk1: Some(pclk1),
            pclk1_tim: Some(pclk1_tim),
            sys: Some(sys),
            hsi: hsi_value,
            lse: None,
            pll: pll_value,
        },
    )
}

impl Clocks {
    pub open spec fn spec_get(self, clock: KernelClock) -> Option<u32> {
        match clock {
            KernelClock::Hclk1 => self.hclk1,
            KernelClock::Pclk1 => self.pclk1,
            KernelClock::Pclk1Tim => self.pclk1_tim,
            KernelClock::Sys => self.sys,
            KernelClock::Hsi => self.hsi,
            KernelClock::Lse => self.lse,
            KernelClock::Pll => self.pll,
        }
    }

    /// The frequency of `clock`, if it runs.
    pub fn get(&self, clock: KernelClock) -> (r: Option<u32>)
        ensures
            r == self.spec_get(clock),
    {
        match clock {
            KernelClock::Hclk1 => self.hclk1,
            KernelClock::Pclk1 => self.pclk1,
            KernelClock::Pclk1Tim => self.pclk1_tim,
            KernelClock::Sys => self.sys,
            KernelClock::Hsi => self.hsi,
            KernelClock::Lse => self.lse,
            KernelClock::Pll => self.pll,
        }
    }
}

/// The frequency of the kernel clock `clock`, which must be running.
pub fn frequency(clocks: &Clocks, clock: KernelClock) -> (r: u32)
    requires
        clocks.spec_get(clock) is Some,
    ensures
        Some(r) == clocks.spec_get(clock),
{
    match clocks.get(clock) {
        Some(v) => v,
        None => 0,
    }
}

/// Whether every item of `items` is the same.
pub fn all_equal(items: &[u32]) -> (r: bool)
    ensures
        r == (forall|i: int| 0 <= i < items@.len() ==> #[trigger] items@[i] == items@[0]),
{
    if items.len() == 0 {
        return true;
    }
    let x = items[0];
    let mut i: usize = 1;
    while i < items.len()
        invariant
            1 <= i <= items@.len(),
            x == items@[0],
            forall|j: int| 0 <= j < i ==> items@[j] == x,
        decreases items@.len() - i,
    {
        if items[i] != x {
            return false;
        }
        i = i + 1;
    }
    true
}

/// The one value that every item of `items` holds: `None` when there are
/// no items, `Err` when two items differ.
pub fn get_equal(items: &[u32]) -> (r: Result<Option<u32>, ()>)
    ensures
        items@.len() == 0 ==> r == Ok::<Option<u32>, ()>(None),
        items@.len() > 0 ==> (r is Ok <==> (forall|i: int|
            0 <= i < items@.len() ==> #[trigger] items@[i] == items@[0])),
        r is Ok && items@.len() > 0 ==> r == Ok::<Option<u32>, ()>(Some(items@[0])),
{
    if items.len() == 0 {
        return Ok(None);
    }
    if !all_equal(items) {
        return Err(());
    }
    Ok(Some(items[0]))
}

/// The frequency table, written once at startup and read-only afterwards.
pub struct ClockRegistry {
    freqs: Option<Clocks>,
}

impl View for ClockRegistry {
    type V = Option<Clocks>;

    closed spec fn view(&self) -> Option<Clocks> {
        self.freqs
    }
}

impl ClockRegistry {
    /// A registry that holds no table yet.
    pub fn new() -> (r: Self)
        ensures
            r@ is None,
    {
        ClockRegistry { freqs: None }
    }

    /// Publishes `freqs`. Only the first call takes effect; a later one
    /// returns `false` and leaves the published table as it was.
    pub fn set_freqs(&mut self, freqs: Clocks) -> (r: bool)
        ensures
            r == (old(self)@ is None),
            r ==> final(self)@ == Some(freqs),
            !r ==> final(self)@ == old(self)@,
    {
        if self.freqs.is_some() {
            return false;
        }
        self.freqs = Some(freqs);
        true
    }

    /// The published table, if any.
    pub fn get_freqs(&self) -> (r: Option<Clocks>)
        ensures
            r == self@,
    {
        self.freqs
    }
}

} // verus!
