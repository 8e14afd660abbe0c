//! Mode register 1: digital filter and sensor bias.

use vstd::prelude::*;
use vstd::std_specs::convert::FromSpecImpl;
use crate::register::bitfield::{BitField, lemma_width_fits};
use crate::register::register::Register;

verus! {

/// The digital filter of the first converter.
#[allow(non_camel_case_types)]
#[derive(Clone, Copy, Debug, PartialEq, Eq, Structural)]
pub enum DigitalFilter {
    SINC1,
    SINC2,
    SINC3,
    SINC4,
    FIR,
}

impl DigitalFilter {
    /// The number that selects this option on the device.
    pub open spec fn code(self) -> u8 {
        match self {
            DigitalFilter::SINC1 => 0,
            DigitalFilter::SINC2 => 1,
            DigitalFilter::SINC3 => 2,
            DigitalFilter::SINC4 => 3,
            DigitalFilter::FIR => 4,
        }
    }
}

impl BitField for DigitalFilter {
    open spec fn start_bit(&self) -> u8 {
        5
    }

    open spec fn end_bit(&self) -> u8 {
        7
    }

    open spec fn owner(&self) -> Register {
        Register::MODE1
    }

    open spec fn bits(&self) -> u8 {
        self.code()
    }

    proof fn lemma_fits(&self) {
        lemma_width_fits(self.bits(), self.start_bit(), self.end_bit());
    }

    fn start(&self) -> u8 {
        5
    }

    fn end(&self) -> u8 {
        7
    }

    fn register(&self) -> Register {
        Register::MODE1
    }

    fn value(&self) -> u8 {
        match self {
            DigitalFilter::SINC1 => 0,
            DigitalFilter::SINC2 => 1,
            DigitalFilter::SINC3 => 2,
            DigitalFilter::SINC4 => 3,
            DigitalFilter::FIR => 4,
        }
    }
}

impl From<DigitalFilter> for u8 {
    fn from(a: DigitalFilter) -> (v: u8) {
        match a {
            DigitalFilter::SINC1 => 0,
            DigitalFilter::SINC2 => 1,
            DigitalFilter::SINC3 => 2,
            DigitalFilter::SINC4 => 3,
            DigitalFilter::FIR => 4,
        }
    }
}

impl FromSpecImpl<DigitalFilter> for u8 {
    open spec fn obeys_from_spec() -> bool {
        true
    }

    open spec fn from_spec(a: DigitalFilter) -> u8 {
        a.code()
    }
}

/// The converter that the sensor bias is wired to.
#[allow(non_camel_case_types)]
#[derive(Clone, Copy, Debug, PartialEq, Eq, Structural)]
pub enum SensorBiasADC {
    ADC1,
    ADC2,
}

impl SensorBiasADC {
    /// The number that selects this option on the device.
    pub open spec fn code(self) -> u8 {
        match self {
            SensorBiasADC::ADC1 => 0,
            SensorBiasADC::ADC2 => 1,
        }
    }
}

impl BitField for SensorBiasADC {
    open spec fn start_bit(&self) -> u8 {
        4
    }

    open spec fn end_bit(&self) -> u8 {
        4
    }

    open spec fn owner(&self) -> Register {
        Register::MODE1
    }

    open spec fn bits(&self) -> u8 {
        self.code()
    }

    proof fn lemma_fits(&self) {
        lemma_width_fits(self.bits(), self.start_bit(), self.end_bit());
    }

    fn start(&self) -> u8 {
        4
    }

    fn end(&self) -> u8 {
        4
    }

    fn register(&self) -> Register {
        Register::MODE1
    }

    fn value(&self) -> u8 {
        match self {
            SensorBiasADC::ADC1 => 0,
            SensorBiasADC::ADC2 => 1,
        }
    }
}

impl From<SensorBiasADC> for u8 {
    fn from(a: SensorBiasADC) -> (v: u8) {
        match a {
            SensorBiasADC::ADC1 => 0,
            SensorBiasADC::ADC2 => 1,
        }
    }
}

impl FromSpecImpl<SensorBiasADC> for u8 {
    open spec fn obeys_from_spec() -> bool {
        true
    }

    open spec fn from_spec(a: SensorBiasADC) -> u8 {
        a.code()
    }
}

/// The direction in which the sensor bias pulls.
#[allow(non_camel_case_types)]
#[derive(Clone, Copy, Debug, PartialEq, Eq, Structural)]
pub enum SensorBiasPolarity {
    PULL_UP,
    PULL_DOWN,
}

impl SensorBiasPolarity {
    /// The number that selects this option on the device.
    pub open spec fn code(self) -> u8 {
        match self {
            SensorBiasPolarity::PULL_UP => 0,
            SensorBiasPolarity::PULL_DOWN => 1,
        }
    }
}

impl BitField for SensorBiasPolarity {
    open spec fn start_bit(&self) -> u8 {
        3
    }

    open spec fn end_bit(&self) -> u8 {
        3
    }

    open spec fn owner(&self) -> Register {
        Register::MODE1
    }

    open spec fn bits(&self) -> u8 {
        self.code()
    }

    proof fn lemma_fits(&self) {
        lemma_width_fits(self.bits(), self.start_bit(), self.end_bit());
    }

    fn start(&self) -> u8 {
        3
    }

    fn end(&self) -> u8 {
        3
    }

    fn register(&self) -> Register {
        Register::MODE1
    }

    fn value(&self) -> u8 {
        match self {
            SensorBiasPolarity::PULL_UP => 0,
            SensorBiasPolarity::PULL_DOWN => 1,
        }
    }
}

impl From<SensorBiasPolarity> for u8 {
    fn from(a: SensorBiasPolarity) -> (v: u8) {
        match a {
            SensorBiasPolarity::PULL_UP => 0,
            SensorBiasPolarity::PULL_DOWN => 1,
        }
    }
}

impl FromSpecImpl<SensorBiasPolarity> for u8 {
    open spec fn obeys_from_spec() -> bool {
        true
    }

    open spec fn from_spec(a: SensorBiasPolarity) -> u8 {
        a.code()
    }
}

/// The strength of the sensor bias.
#[allow(non_camel_case_types)]
#[derive(Clone, Copy, Debug, PartialEq, Eq, Structural)]
pub enum SensorBiasMagnitude {
    NONE,
    MA05,
    MA2,
    MA10,
    MA50,
    MA200,
    MO10,
}

impl SensorBiasMagnitude {
    /// The number that selects this option on the device.
    pub open spec fn code(self) -> u8 {
        match self {
            SensorBiasMagnitude::NONE => 0,
            SensorBiasMagnitude::MA05 => 1,
            SensorBiasMagnitude::MA2 => 2,
            SensorBiasMagnitude::MA10 => 3,
            SensorBiasMagnitude::MA50 => 4,
            SensorBiasMagnitude::MA200 => 5,
            SensorBiasMagnitude::MO10 => 6,
        }
    }
}

impl BitField for SensorBiasMagnitude {
    open spec fn start_bit(&self) -> u8 {
        0
    }

    open spec fn end_bit(&self) -> u8 {
        2
    }

    open spec fn owner(&self) -> Register {
        Register::MODE1
    }

    open spec fn bits(&self) -> u8 {
        self.code()
    }

    proof fn lemma_fits(&self) {
        lemma_width_fits(self.bits(), self.start_bit(), self.end_bit());
    }

    fn start(&self) -> u8 {
        0
    }

    fn end(&self) -> u8 {
        2
    }

    fn register(&self) -> Register {
        Register::MODE1
    }

    fn value(&self) -> u8 {
        match self {
            SensorBiasMagnitude::NONE => 0,
            SensorBiasMagnitude::MA05 => 1,
            SensorBiasMagnitude::MA2 => 2,
            SensorBiasMagnitude::MA10 => 3,
            SensorBiasMagnitude::MA50 => 4,
            SensorBiasMagnitude::MA200 => 5,
            SensorBiasMagnitude::MO10 => 6,
        }
    }
}

impl From<SensorBiasMagnitude> for u8 {
    fn from(a: SensorBiasMagnitude) -> (v: u8) {
        match a {
            SensorBiasMagnitude::NONE => 0,
            SensorBiasMagnitude::MA05 => 1,
            SensorBiasMagnitude::MA2 => 2,
            SensorBiasMagnitude::MA10 => 3,
            SensorBiasMagnitude::MA50 => 4,
            SensorBiasMagnitude::MA200 => 5,
            SensorBiasMagnitude::MO10 => 6,
        }
    }
}

impl FromSpecImpl<SensorBiasMagnitude> for u8 {
    open spec fn obeys_from_spec() -> bool {
        true
    }

    open spec fn from_spec(a: SensorBiasMagnitude) -> u8 {
        a.code()
    }
}

} // verus!
