//! Analog to digital converter: prescaler choice, resolution limits, the
//! register slot that holds a channel's sample time, and the settings a
//! converter is left with by each operation.
use vstd::prelude::*;

verus! {

/// Highest ADC clock, in hertz.
pub const MAX_ADC_CLOCK: u32 = 16_000_000;

/// Highest ADC clock during calibration, in megahertz.
pub const ADC_CLOCK_MHZ: u32 = 72;

/// ADC clock cycles to wait before a calibration.
pub const PRECALIBRATION_CYCLES: u32 = 2;

/// Channel of the internal voltage reference.
pub const VREFINT_CHANNEL: u8 = 17;

/// Channel of the temperature sensor.
pub const TEMPERATURE_CHANNEL: u8 = 16;

/// Conversion resolution.
#[allow(non_camel_case_types)]
#[derive(Clone, Copy, Debug, PartialEq, Eq, Structural)]
pub enum Resolution {
    BITS12,
    BITS10,
    BITS8,
    BITS6,
}

/// Sampling time, in ADC clock cycles.
#[allow(non_camel_case_types)]
#[derive(Clone, Copy, Debug, PartialEq, Eq, Structural)]
pub enum SampleTime {
    CYCLES3_5,
    CYCLES5_5,
    CYCLES7_5,
    CYCLES13_5,
    CYCLES28_5,
    CYCLES41_5,
    CYCLES71_5,
    CYCLES239_5,
}

/// Division of the bus clock that clocks the converter.
#[derive(Clone, Copy, Debug, PartialEq, Eq, Structural)]
pub enum Prescaler {
    Div2,
    Div4,
    Div6,
    Div8,
}

/// The largest reading at resolution `res`: `2**n - 1`.
pub open spec fn spec_max_count(res: Resolution) -> u32 {
    match res {
        Resolution::BITS12 => 4095,
        Resolution::BITS10 => 1023,
        Resolution::BITS8 => 255,
        Resolution::BITS6 => 63,
    }
}

/// Get the maximum reading value for this resolution.
pub fn resolution_to_max_count(res: Resolution) -> (r: u32)
    ensures
        r == spec_max_count(res),
{
    match res {
        Resolution::BITS12 => 4095,
        Resolution::BITS10 => 1023,
        Resolution::BITS8 => 255,
        Resolution::BITS6 => 63,
    }
}

/// The smallest prescaler that keeps the ADC clock fed by `freq` hertz at
/// most `MAX_ADC_CLOCK` (rounding the ratio down).
pub open spec fn spec_prescaler(freq: u32) -> Prescaler {
    let raw = freq / MAX_ADC_CLOCK;
    if raw <= 1 {
        Prescaler::Div2
    } else if raw <= 3 {
        Prescaler::Div4
    } else if raw <= 5 {
        Prescaler::Div6
    } else {
        Prescaler::Div8
    }
}

impl Prescaler {
    /// The prescaler for a bus clock of `freq` hertz, which must not be so
    /// fast that even the largest division is too little.
    pub fn from_pclk(freq: u32) -> (r: Self)
        requires
            freq / MAX_ADC_CLOCK <= 7,
        ensures
            r == spec_prescaler(freq),
    {
        let raw_div = freq / MAX_ADC_CLOCK;
        if raw_div <= 1 {
            Prescaler::Div2
        } else if raw_div <= 3 {
            Prescaler::Div4
        } else if raw_div <= 5 {
            Prescaler::Div6
        } else {
            Prescaler::Div8
        }
    }

    /// Field value of this prescaler in the clock control register.
    pub fn adcdiv(&self) -> (r: u8)
        ensures
            *self == Prescaler::Div2 ==> r == 0,
            *self == Prescaler::Div4 ==> r == 1,
            *self == Prescaler::Div6 ==> r == 2,
            *self == Prescaler::Div8 ==> r == 3,
    {
        match self {
            Prescaler::Div2 => 0,
            Prescaler::Div4 => 1,
            Prescaler::Div6 => 2,
            Prescaler::Div8 => 3,
        }
    }
}

/// A channel that can be converted.
pub trait AdcChannel {
    /// The channel number.
    fn channel(&self) -> u8;
}

/// Internal voltage reference channel.
pub struct VrefInt;

impl VrefInt {
    /// Time needed for internal voltage reference to stabilize
    pub fn start_time_us() -> (r: u32)
        ensures
            r == 10,
    {
        10
    }
}

impl AdcChannel for VrefInt {
    fn channel(&self) -> u8 {
        VREFINT_CHANNEL
    }
}

/// Internal temperature sensor channel.
pub struct Temperature;

impl Temperature {
    /// Time needed for temperature sensor readings to stabilize
    pub fn start_time_us() -> (r: u32)
        ensures
            r == 10,
    {
        10
    }
}

impl AdcChannel for Temperature {
    fn channel(&self) -> u8 {
        TEMPERATURE_CHANNEL
    }
}

/// A channel known by its number only.
pub struct AnyAdcChannel {
    pub channel: u8,
}

impl AdcChannel for AnyAdcChannel {
    fn channel(&self) -> u8 {
        self.channel
    }
}

/// Sample-time registers.
#[derive(Clone, Copy, Debug, PartialEq, Eq, Structural)]
pub enum SmprRegister {
    /// Channels 20 and up.
    Smpr1,
    /// Channels 10 to 19.
    Smpr2,
    /// Channels 0 to 9.
    Smpr3,
}

/// Where the sample time of one channel is written.
#[derive(Clone, Copy, Debug, PartialEq, Eq, Structural)]
pub struct SampleTimeSlot {
    pub register: SmprRegister,
    /// Index of the field within the register.
    pub field: u8,
    pub sample_time: SampleTime,
}

/// Everything a single conversion is set up with.
#[derive(Clone, Copy, Debug, PartialEq, Eq, Structural)]
pub struct ConversionSetup {
    /// Channel placed first in the regular sequence.
    pub channel: u8,
    pub slot: SampleTimeSlot,
}

pub open spec fn spec_slot(ch: u8, sample_time: SampleTime) -> SampleTimeSlot {
    if ch <= 9 {
        SampleTimeSlot { register: SmprRegister::Smpr3, field: ch, sample_time }
    } else if ch <= 19 {
        SampleTimeSlot { register: SmprRegister::Smpr2, field: (ch - 10) as u8, sample_time }
    } else {
        SampleTimeSlot { register: SmprRegister::Smpr1, field: (ch - 20) as u8, sample_time }
    }
}

/// Register field value of a sample time.
pub open spec fn spec_sample_time_bits(t: SampleTime) -> u32 {
    match t {
        SampleTime::CYCLES3_5 => 0,
        SampleTime::CYCLES5_5 => 1,
        SampleTime::CYCLES7_5 => 2,
        SampleTime::CYCLES13_5 => 3,
        SampleTime::CYCLES28_5 => 4,
        SampleTime::CYCLES41_5 => 5,
        SampleTime::CYCLES71_5 => 6,
        SampleTime::CYCLES239_5 => 7,
    }
}

impl SampleTime {
    /// Register field value of this sample time.
    pub fn bits(self) -> (r: u32)
        ensures
            r == spec_sample_time_bits(self),
    {
        match self {
            SampleTime::CYCLES3_5 => 0,
            SampleTime::CYCLES5_5 => 1,
            SampleTime::CYCLES7_5 => 2,
            SampleTime::CYCLES13_5 => 3,
            SampleTime::CYCLES28_5 => 4,
            SampleTime::CYCLES41_5 => 5,
            SampleTime::CYCLES71_5 => 6,
            SampleTime::CYCLES239_5 => 7,
        }
    }
}

impl SampleTimeSlot {
    /// The sample-time register word `reg` with this slot's three-bit field
    /// set to its sample time and every other bit kept.
    pub fn apply(&self, reg: u32) -> (r: u32)
        requires
            self.field <= 9,
        ensures
            r == (reg & !(7u32 << (3 * self.field as u32))) | (spec_sample_time_bits(
                self.sample_time,
            ) << (3 * self.field as u32)),
    {
        let shift = 3 * self.field as u32;
        (reg & !(7u32 << shift)) | (self.sample_time.bits() << shift)
    }
}

/// CPU cycles in `us` microseconds at a system clock of `sys_hz` hertz.
pub fn delay_cycles(sys_hz: u32, us: u32) -> (r: u64)
    ensures
        r == (sys_hz as int * us as int) / 1_000_000,
{
    let freq = sys_hz as u64;
    let us = us as u64;
    assert(freq * us <= u32::MAX as int * u32::MAX as int) by (nonlinear_arith)
        requires
            freq <= u32::MAX,
            us <= u32::MAX,
    ;
    freq * us / 1_000_000
}

/// Settings of a converter.
#[derive(Clone, Copy, Debug, PartialEq, Eq, Structural)]
pub struct Adc {
    pub sample_time: SampleTime,
    pub resolution: Resolution,
    pub prescaler: Prescaler,
    /// Whether the temperature sensor and voltage reference are on.
    pub tsvrefe: bool,
}

impl Adc {
    /// A converter clocked from a bus of `pclk` hertz, at the shortest
    /// sample time and full resolution, internal channels off.
    pub fn new(pclk: u32) -> (r: Self)
        requires
            pclk / MAX_ADC_CLOCK <= 7,
        ensures
            r == (Adc {
                sample_time: SampleTime::CYCLES3_5,
                resolution: Resolution::BITS12,
                prescaler: spec_prescaler(pclk),
                tsvrefe: false,
            }),
    {
        Adc::new_with_prediv(Prescaler::from_pclk(pclk))
    }

    /// A converter clocked through `adc_div`.
    pub fn new_with_prediv(adc_div: Prescaler) -> (r: Self)
        ensures
            r == (Adc {
                sample_time: SampleTime::CYCLES3_5,
                resolution: Resolution::BITS12,
                prescaler: adc_div,
                tsvrefe: false,
            }),
    {
        Adc {
            sample_time: SampleTime::CYCLES3_5,
            resolution: Resolution::BITS12,
            prescaler: adc_div,
            tsvrefe: false,
        }
    }

    pub fn set_sample_time(&mut self, sample_time: SampleTime)
        ensures
            *final(self) == (Adc { sample_time, ..*old(self) }),
    {
        self.sample_time = sample_time;
    }

    pub fn set_resolution(&mut self, resolution: Resolution)
        ensures
            *final(self) == (Adc { resolution, ..*old(self) }),
    {
        self.resolution = resolution;
    }

    /// Turns on the internal voltage reference.
    pub fn enable_vrefint(&mut self) -> (r: VrefInt)
        ensures
            *final(self) == (Adc { tsvrefe: true, ..*old(self) }),
    {
        self.tsvrefe = true;
        VrefInt
    }

    /// Turns on the temperature sensor.
    pub fn enable_temperature(&mut self) -> (r: Temperature)
        ensures
            *final(self) == (Adc { tsvrefe: true, ..*old(self) }),
    {
        self.tsvrefe = true;
        Temperature
    }

    /// Where the sample time of channel `ch` is written.
    pub fn set_channel_sample_time(ch: u8, sample_time: SampleTime) -> (r: SampleTimeSlot)
        requires
            ch < 30,
        ensures
            r == spec_slot(ch, sample_time),
            r.field <= 9,
    {
        if ch <= 9 {
            SampleTimeSlot { register: SmprRegister::Smpr3, field: ch, sample_time }
        } else if ch <= 19 {
            SampleTimeSlot { register: SmprRegister::Smpr2, field: ch - 10, sample_time }
        } else {
            SampleTimeSlot { register: SmprRegister::Smpr1, field: ch - 20, sample_time }
        }
    }

    /// The setup of a single conversion of channel `channel` at the
    /// converter's sample time.
    pub fn blocking_read(&self, channel: u8) -> (r: ConversionSetup)
        requires
            channel < 30,
        ensures
            r == (ConversionSetup { channel, slot: spec_slot(channel, self.sample_time) }),
    {
        ConversionSetup { channel, slot: Adc::set_channel_sample_time(channel, self.sample_time) }
    }

    /// Microseconds to wait before a calibration at a system clock of
    /// `sys_hz` hertz: two cycles of the fastest ADC clock, in CPU cycles.
    pub fn calibration_delay_us(sys_hz: u32) -> (r: u32)
        requires
            sys_hz >= 1_000_000,
        ensures
            r == (PRECALIBRATION_CYCLES * ADC_CLOCK_MHZ) as int / (sys_hz as int / 1_000_000),
    {
        let cpu_clock_mhz = sys_hz / 1_000_000;
        (PRECALIBRATION_CYCLES * ADC_CLOCK_MHZ) / cpu_clock_mhz
    }
}

} // verus!
