use py32_hal::adc::{
    resolution_to_max_count, Adc, AdcChannel, AnyAdcChannel, ConversionSetup, Prescaler,
    Resolution, SampleTime, SampleTimeSlot, SmprRegister, Temperature, VrefInt,
};

#[test]
fn max_counts() {
    assert_eq!(resolution_to_max_count(Resolution::BITS12), 4095);
    assert_eq!(resolution_to_max_count(Resolution::BITS10), 1023);
    assert_eq!(resolution_to_max_count(Resolution::BITS8), 255);
    assert_eq!(resolution_to_max_count(Resolution::BITS6), 63);
}

#[test]
fn prescaler_from_bus_clock() {
    assert_eq!(Prescaler::from_pclk(16_000_000), Prescaler::Div2);
    assert_eq!(Prescaler::from_pclk(48_000_000), Prescaler::Div4);
    assert_eq!(Prescaler::from_pclk(72_000_000), Prescaler::Div6);
    assert_eq!(Prescaler::from_pclk(100_000_000), Prescaler::Div8);
    assert_eq!(Prescaler::Div6.adcdiv(), 2);
}

#[test]
fn converter_settings() {
    let mut adc = Adc::new(72_000_000);
    assert_eq!(adc.prescaler, Prescaler::Div6);
    adc.set_sample_time(SampleTime::CYCLES71_5);
    adc.set_resolution(Resolution::BITS8);
    let t = adc.enable_temperature();
    assert!(adc.tsvrefe);
    assert_eq!(t.channel(), 16);
    assert_eq!(VrefInt.channel(), 17);
    assert_eq!(AnyAdcChannel { channel: 4 }.channel(), 4);
    assert_eq!(
        adc.blocking_read(12),
        ConversionSetup {
            channel: 12,
            slot: SampleTimeSlot { register: SmprRegister::Smpr2, field: 2, sample_time: SampleTime::CYCLES71_5 },
        }
    );
    assert_eq!(Adc::set_channel_sample_time(3, SampleTime::CYCLES3_5).register, SmprRegister::Smpr3);
    assert_eq!(VrefInt::start_time_us(), 10);
    assert_eq!(Temperature::start_time_us(), 10);
    assert_eq!(Adc::calibration_delay_us(8_000_000), 18);
    assert_eq!(Adc::calibration_delay_us(72_000_000), 2);
}

#[test]
fn busy_wait_cycles() {
    assert_eq!(py32_hal::adc::delay_cycles(8_000_000, 10), 80);
    assert_eq!(py32_hal::adc::delay_cycles(72_000_000, 1), 72);
    assert_eq!(py32_hal::adc::delay_cycles(u32::MAX, u32::MAX), 18_446_744_065_119);
}

#[test]
fn high_channels_use_smpr1_and_words_keep_other_fields() {
    let slot = Adc::set_channel_sample_time(29, SampleTime::CYCLES239_5);
    assert_eq!(slot, SampleTimeSlot { register: SmprRegister::Smpr1, field: 9, sample_time: SampleTime::CYCLES239_5 });
    assert_eq!(slot.apply(0), 7 << 27);
    let low = Adc::set_channel_sample_time(1, SampleTime::CYCLES5_5);
    assert_eq!(low.apply(0xFFFF_FFFF), 0xFFFF_FFFF & !(7 << 3) | (1 << 3));
    assert_eq!(SampleTime::CYCLES28_5.bits(), 4);
}
