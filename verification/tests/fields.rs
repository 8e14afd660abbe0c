use ads1263::register::bitfield::BitField;
use ads1263::register::inpmux::{NegativeInpmux, PositiveInpmux};
use ads1263::register::interface::{ChecksumByte, SerialInterfaceTimeout, StatusByte};
use ads1263::register::mode0::{
    ADCConversionRunMode, ConversionDelay, IDACRotation, InputChop, RefMuxPolarity,
};
use ads1263::register::mode1::{
    DigitalFilter, SensorBiasADC, SensorBiasMagnitude, SensorBiasPolarity,
};
use ads1263::register::mode2::{DataRate, PGABypasMode, PGAGain};
use ads1263::register::refmux::{ReferenceNegativeInput, ReferencePositiveInput};
use ads1263::register::register::Register;

fn check<B: BitField + std::fmt::Debug>(
    field: B,
    start: u8,
    end: u8,
    register: Register,
    mask: u8,
    value: u8,
) {
    assert_eq!(field.start(), start, "{:?}", field);
    assert_eq!(field.end(), end, "{:?}", field);
    assert_eq!(field.len(), end - start + 1, "{:?}", field);
    assert_eq!(field.register(), register, "{:?}", field);
    assert_eq!(field.mask(), mask, "{:?}", field);
    assert_eq!(field.value(), value, "{:?}", field);
    let through_into: u8 = field.into();
    assert_eq!(through_into, value, "{:?}", field);
    for current in 0..=255u8 {
        let merged = field.merge_into(current);
        assert_eq!(merged & !mask, current & !mask, "{:?} into {:#010b}", field, current);
        assert_eq!(merged & mask, value << start, "{:?} into {:#010b}", field, current);
    }
}

#[test]
fn positive_input_field_is_the_high_nibble() {
    let field = PositiveInpmux::AIN3;
    assert_eq!(field.start(), 4);
    assert_eq!(field.end(), 7);
    assert_eq!(field.len(), 4);
    assert_eq!(field.mask(), 0b1111_0000);
    assert_eq!(field.register(), Register::INPMUX);
    assert_eq!(u8::from(field), 0b0011);
}

#[test]
fn negative_input_field_is_the_low_nibble() {
    let field = NegativeInpmux::FLOAT;
    assert_eq!(field.mask(), 0b0000_1111);
    assert_eq!(field.merge_into(0b1010_0101), 0b1010_1111);
}

#[test]
fn merge_clears_the_field_before_setting_it() {
    assert_eq!(PositiveInpmux::AIN0.merge_into(0xFF), 0x0F);
    assert_eq!(PositiveInpmux::FLOAT.merge_into(0x00), 0xF0);
    assert_eq!(PositiveInpmux::AIN5.merge_into(0b1010_0110), 0b0101_0110);
    assert_eq!(StatusByte::ENABLED.merge_into(0b0000_0001), 0b0000_0101);
    assert_eq!(StatusByte::DISABLED.merge_into(0b0000_1111), 0b0000_1011);
    assert_eq!(ChecksumByte::CRC.merge_into(0b0000_0101), 0b0000_0110);
    assert_eq!(DigitalFilter::FIR.merge_into(0b0001_1111), 0b1001_1111);
    assert_eq!(RefMuxPolarity::REVERSED.merge_into(0), 0b1000_0000);
}

#[test]
fn input_multiplexer_fields() {
    let positive = [
        PositiveInpmux::AIN0,
        PositiveInpmux::AIN1,
        PositiveInpmux::AIN2,
        PositiveInpmux::AIN3,
        PositiveInpmux::AIN4,
        PositiveInpmux::AIN5,
        PositiveInpmux::AIN6,
        PositiveInpmux::AIN7,
        PositiveInpmux::AIN8,
        PositiveInpmux::AIN9,
        PositiveInpmux::AINCOM,
        PositiveInpmux::TEMP,
        PositiveInpmux::ANALOG,
        PositiveInpmux::DIGITAL,
        PositiveInpmux::TDAC,
        PositiveInpmux::FLOAT,
    ];
    for (value, field) in positive.into_iter().enumerate() {
        check(field, 4, 7, Register::INPMUX, 0b1111_0000, value as u8);
    }
    let negative = [
        NegativeInpmux::AIN0,
        NegativeInpmux::AIN1,
        NegativeInpmux::AIN2,
        NegativeInpmux::AIN3,
        NegativeInpmux::AIN4,
        NegativeInpmux::AIN5,
        NegativeInpmux::AIN6,
        NegativeInpmux::AIN7,
        NegativeInpmux::AIN8,
        NegativeInpmux::AIN9,
        NegativeInpmux::AINCOM,
        NegativeInpmux::TEMP,
        NegativeInpmux::ANALOG,
        NegativeInpmux::DIGITAL,
        NegativeInpmux::TDAC,
        NegativeInpmux::FLOAT,
    ];
    for (value, field) in negative.into_iter().enumerate() {
        check(field, 0, 3, Register::INPMUX, 0b0000_1111, value as u8);
    }
}

#[test]
fn interface_fields() {
    check(SerialInterfaceTimeout::DISABLED, 3, 3, Register::INTERFACE, 0b0000_1000, 0);
    check(SerialInterfaceTimeout::ENABLED, 3, 3, Register::INTERFACE, 0b0000_1000, 1);
    check(StatusByte::DISABLED, 2, 2, Register::INTERFACE, 0b0000_0100, 0);
    check(StatusByte::ENABLED, 2, 2, Register::INTERFACE, 0b0000_0100, 1);
    check(ChecksumByte::DISABLED, 0, 1, Register::INTERFACE, 0b0000_0011, 0);
    check(ChecksumByte::CHECKSUM, 0, 1, Register::INTERFACE, 0b0000_0011, 1);
    check(ChecksumByte::CRC, 0, 1, Register::INTERFACE, 0b0000_0011, 2);
}

#[test]
fn mode0_fields() {
    let delays = [
        ConversionDelay::DELAY_0,
        ConversionDelay::DELAY_8700,
        ConversionDelay::DELAY_17000,
        ConversionDelay::DELAY_35000,
        ConversionDelay::DELAY_69000,
        ConversionDelay::DELAY_139000,
        ConversionDelay::DELAY_278000,
        ConversionDelay::DELAY_555000,
        ConversionDelay::DELAY_1_1,
        ConversionDelay::DELAY_2_2,
        ConversionDelay::DELAY_4_4,
        ConversionDelay::DELAY_8_8,
    ];
    for (value, field) in delays.into_iter().enumerate() {
        check(field, 0, 3, Register::MODE0, 0b0000_1111, value as u8);
    }
    check(InputChop::DISABLED, 4, 4, Register::MODE0, 0b0001_0000, 0);
    check(InputChop::ENABLED, 4, 4, Register::MODE0, 0b0001_0000, 1);
    check(IDACRotation::DISABLED, 5, 5, Register::MODE0, 0b0010_0000, 0);
    check(IDACRotation::ENABLED, 5, 5, Register::MODE0, 0b0010_0000, 1);
    check(ADCConversionRunMode::CONTINUOUS, 6, 6, Register::MODE0, 0b0100_0000, 0);
    check(ADCConversionRunMode::PULSE, 6, 6, Register::MODE0, 0b0100_0000, 1);
    check(RefMuxPolarity::NORMAL, 7, 7, Register::MODE0, 0b1000_0000, 0);
    check(RefMuxPolarity::REVERSED, 7, 7, Register::MODE0, 0b1000_0000, 1);
}

#[test]
fn mode1_fields() {
    let filters = [
        DigitalFilter::SINC1,
        DigitalFilter::SINC2,
        DigitalFilter::SINC3,
        DigitalFilter::SINC4,
        DigitalFilter::FIR,
    ];
    for (value, field) in filters.into_iter().enumerate() {
        check(field, 5, 7, Register::MODE1, 0b1110_0000, value as u8);
    }
    check(SensorBiasADC::ADC1, 4, 4, Register::MODE1, 0b0001_0000, 0);
    check(SensorBiasADC::ADC2, 4, 4, Register::MODE1, 0b0001_0000, 1);
    check(SensorBiasPolarity::PULL_UP, 3, 3, Register::MODE1, 0b0000_1000, 0);
    check(SensorBiasPolarity::PULL_DOWN, 3, 3, Register::MODE1, 0b0000_1000, 1);
    let magnitudes = [
        SensorBiasMagnitude::NONE,
        SensorBiasMagnitude::MA05,
        SensorBiasMagnitude::MA2,
        SensorBiasMagnitude::MA10,
        SensorBiasMagnitude::MA50,
        SensorBiasMagnitude::MA200,
        SensorBiasMagnitude::MO10,
    ];
    for (value, field) in magnitudes.into_iter().enumerate() {
        check(field, 0, 2, Register::MODE1, 0b0000_0111, value as u8);
    }
}

#[test]
fn mode2_fields() {
    check(PGABypasMode::ENABLE, 7, 7, Register::MODE2, 0b1000_0000, 0);
    check(PGABypasMode::BYPASS, 7, 7, Register::MODE2, 0b1000_0000, 1);
    let gains = [
        PGAGain::GAIN_1,
        PGAGain::GAIN_2,
        PGAGain::GAIN_4,
        PGAGain::GAIN_8,
        PGAGain::GAIN_16,
        PGAGain::GAIN_32,
    ];
    for (value, field) in gains.into_iter().enumerate() {
        check(field, 4, 6, Register::MODE2, 0b0111_0000, value as u8);
    }
    let rates = [
        DataRate::RATE_2_5,
        DataRate::RATE_5,
        DataRate::RATE_10,
        DataRate::RATE_16_6,
        DataRate::RATE_20,
        DataRate::RATE_50,
        DataRate::RATE_60,
        DataRate::RATE_100,
        DataRate::RATE_400,
        DataRate::RATE_1200,
        DataRate::RATE_2400,
        DataRate::RATE_4800,
        DataRate::RATE_7200,
        DataRate::RATE_14400,
        DataRate::RATE_19200,
        DataRate::RATE_38400,
    ];
    for (value, field) in rates.into_iter().enumerate() {
        check(field, 0, 3, Register::MODE2, 0b0000_1111, value as u8);
    }
}

#[test]
fn reference_multiplexer_fields() {
    let positive = [
        ReferencePositiveInput::INT,
        ReferencePositiveInput::AIN0,
        ReferencePositiveInput::AIN2,
        ReferencePositiveInput::AIN4,
        ReferencePositiveInput::VDD,
    ];
    for (value, field) in positive.into_iter().enumerate() {
        check(field, 3, 5, Register::REFMUX, 0b0011_1000, value as u8);
    }
    let negative = [
        ReferenceNegativeInput::INT,
        ReferenceNegativeInput::AIN1,
        ReferenceNegativeInput::AIN3,
        ReferenceNegativeInput::AIN5,
        ReferenceNegativeInput::VSS,
    ];
    for (value, field) in negative.into_iter().enumerate() {
        check(field, 0, 2, Register::REFMUX, 0b0000_0111, value as u8);
    }
}

#[test]
fn fields_of_one_register_do_not_overlap() {
    assert_eq!(PositiveInpmux::AIN0.mask() & NegativeInpmux::AIN0.mask(), 0);
    let interface = [
        SerialInterfaceTimeout::ENABLED.mask(),
        StatusByte::ENABLED.mask(),
        ChecksumByte::CRC.mask(),
    ];
    let mode0 = [
        ConversionDelay::DELAY_0.mask(),
        InputChop::ENABLED.mask(),
        IDACRotation::ENABLED.mask(),
        ADCConversionRunMode::PULSE.mask(),
        RefMuxPolarity::NORMAL.mask(),
    ];
    let mode1 = [
        DigitalFilter::FIR.mask(),
        SensorBiasADC::ADC1.mask(),
        SensorBiasPolarity::PULL_UP.mask(),
        SensorBiasMagnitude::NONE.mask(),
    ];
    let mode2 = [PGABypasMode::BYPASS.mask(), PGAGain::GAIN_1.mask(), DataRate::RATE_5.mask()];
    let refmux = [ReferencePositiveInput::INT.mask(), ReferenceNegativeInput::INT.mask()];
    for masks in [&interface[..], &mode0[..], &mode1[..], &mode2[..], &refmux[..]] {
        for (i, a) in masks.iter().enumerate() {
            for b in &masks[i + 1..] {
                assert_eq!(a & b, 0);
            }
        }
    }
    assert_eq!(mode0.iter().fold(0u8, |all, m| all | m), 0xFF);
    assert_eq!(mode1.iter().fold(0u8, |all, m| all | m), 0xFF);
    assert_eq!(mode2.iter().fold(0u8, |all, m| all | m), 0xFF);
}
