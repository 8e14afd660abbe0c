//! Mode register 2: amplifier and data rate.

use vstd::prelude::*;
use vstd::std_specs::convert::FromSpecImpl;
use crate::register::bitfield::{BitField, lemma_width_fits};
use crate::register::register::Register;

verus! {

/// Whether the programmable-gain amplifier is bypassed.
#[allow(non_camel_case_types)]
#[derive(Clone, Copy, Debug, PartialEq, Eq, Structural)]
pub enum PGABypasMode {
    ENABLE,
    BYPASS,
}

impl PGABypasMode {
    /// The number that selects this option on the device.
    pub open spec fn code(self) -> u8 {
        match self {
            PGABypasMode::ENABLE => 0,
            PGABypasMode::BYPASS => 1,
        }
    }
}

impl BitField for PGABypasMode {
    open spec fn start_bit(&self) -> u8 {
        7
    }

    open spec fn end_bit(&self) -> u8 {
        7
    }

    open spec fn owner(&self) -> Register {
        Register::MODE2
    }

    open spec fn bits(&self) -> u8 {
        self.code()
    }

    proof fn lemma_fits(&self) {
        lemma_width_fits(self.bits(), self.start_bit(), self.end_bit());
    }

    fn start(&self) -> u8 {
        7
    }

    fn end(&self) -> u8 {
        7
    }

    fn register(&self) -> Register {
        Register::MODE2
    }

    fn value(&self) -> u8 {
        match self {
            PGABypasMode::ENABLE => 0,
            PGABypasMode::BYPASS => 1,
        }
    }
}

impl From<PGABypasMode> for u8 {
    fn from(a: PGABypasMode) -> (v: u8) {
        match a {
            PGABypasMode::ENABLE => 0,
            PGABypasMode::BYPASS => 1,
        }
    }
}

impl FromSpecImpl<PGABypasMode> for u8 {
    open spec fn obeys_from_spec() -> bool {
        true
    }

    open spec fn from_spec(a: PGABypasMode) -> u8 {
        a.code()
    }
}

/// The gain of the programmable-gain amplifier.
#[allow(non_camel_case_types)]
#[derive(Clone, Copy, Debug, PartialEq, Eq, Structural)]
pub enum PGAGain {
    GAIN_1,
    GAIN_2,
    GAIN_4,
    GAIN_8,
    GAIN_16,
    GAIN_32,
}

impl PGAGain {
    /// The number that selects this option on the device.
    pub open spec fn code(self) -> u8 {
        match self {
            PGAGain::GAIN_1 => 0,
            PGAGain::GAIN_2 => 1,
            PGAGain::GAIN_4 => 2,
            PGAGain::GAIN_8 => 3,
            PGAGain::GAIN_16 => 4,
            PGAGain::GAIN_32 => 5,
        }
    }
}

impl BitField for PGAGain {
    open spec fn start_bit(&self) -> u8 {
        4
    }

    open spec fn end_bit(&self) -> u8 {
        6
    }

    open spec fn owner(&self) -> Register {
        Register::MODE2
    }

    open spec fn bits(&self) -> u8 {
        self.code()
    }

    proof fn lemma_fits(&self) {
        lemma_width_fits(self.bits(), self.start_bit(), self.end_bit());
    }

    fn start(&self) -> u8 {
        4
    }

    fn end(&self) -> u8 {
        6
    }

    fn register(&self) -> Register {
        Register::MODE2
    }

    fn value(&self) -> u8 {
        match self {
            PGAGain::GAIN_1 => 0,
            PGAGain::GAIN_2 => 1,
            PGAGain::GAIN_4 => 2,
            PGAGain::GAIN_8 => 3,
            PGAGain::GAIN_16 => 4,
            PGAGain::GAIN_32 => 5,
        }
    }
}

impl From<PGAGain> for u8 {
    fn from(a: PGAGain) -> (v: u8) {
        match a {
            PGAGain::GAIN_1 => 0,
            PGAGain::GAIN_2 => 1,
            PGAGain::GAIN_4 => 2,
            PGAGain::GAIN_8 => 3,
            PGAGain::GAIN_16 => 4,
            PGAGain::GAIN_32 => 5,
        }
    }
}

impl FromSpecImpl<PGAGain> for u8 {
    open spec fn obeys_from_spec() -> bool {
        true
    }

    open spec fn from_spec(a: PGAGain) -> u8 {
        a.code()
    }
}

/// The output data rate, in samples per second.
#[allow(non_camel_case_types)]
#[derive(Clone, Copy, Debug, PartialEq, Eq, Structural)]
pub enum DataRate {
    RATE_2_5,
    RATE_5,
    RATE_10,
    RATE_16_6,
    RATE_20,
    RATE_50,
    RATE_60,
    RATE_100,
    RATE_400,
    RATE_1200,
    RATE_2400,
    RATE_4800,
    RATE_7200,
    RATE_14400,
    RATE_19200,
    RATE_38400,
}

impl DataRate {
    /// The number that selects this option on the device.
    pub open spec fn code(self) -> u8 {
        match self {
            DataRate::RATE_2_5 => 0,
            DataRate::RATE_5 => 1,
            DataRate::RATE_10 => 2,
            DataRate::RATE_16_6 => 3,
            DataRate::RATE_20 => 4,
            DataRate::RATE_50 => 5,
            DataRate::RATE_60 => 6,
            DataRate::RATE_100 => 7,
            DataRate::RATE_400 => 8,
            DataRate::RATE_1200 => 9,
            DataRate::RATE_2400 => 10,
            DataRate::RATE_4800 => 11,
            DataRate::RATE_7200 => 12,
            DataRate::RATE_14400 => 13,
            DataRate::RATE_19200 => 14,
            DataRate::RATE_38400 => 15,
        }
    }
}

impl BitField for DataRate {
    open spec fn start_bit(&self) -> u8 {
        0
    }

    open spec fn end_bit(&self) -> u8 {
        3
    }

    open spec fn owner(&self) -> Register {
        Register::MODE2
    }

    open spec fn bits(&self) -> u8 {
        self.code()
    }

    proof fn lemma_fits(&self) {
        lemma_width_fits(self.bits(), self.start_bit(), self.end_bit());
    }

    fn start(&self) -> u8 {
        0
    }

    fn end(&self) -> u8 {
        3
    }

    fn register(&self) -> Register {
        Register::MODE2
    }

    fn value(&self) -> u8 {
        match self {
            DataRate::RATE_2_5 => 0,
            DataRate::RATE_5 => 1,
            DataRate::RATE_10 => 2,
            DataRate::RATE_16_6 => 3,
            DataRate::RATE_20 => 4,
            DataRate::RATE_50 => 5,
            DataRate::RATE_60 => 6,
            DataRate::RATE_100 => 7,
            DataRate::RATE_400 => 8,
            DataRate::RATE_1200 => 9,
            DataRate::RATE_2400 => 10,
            DataRate::RATE_4800 => 11,
            DataRate::RATE_7200 => 12,
            DataRate::RATE_14400 => 13,
            DataRate::RATE_19200 => 14,
            DataRate::RATE_38400 => 15,
        }
    }
}

impl From<DataRate> for u8 {
    fn from(a: DataRate) -> (v: u8) {
        match a {
            DataRate::RATE_2_5 => 0,
            DataRate::RATE_5 => 1,
            DataRate::RATE_10 => 2,
            DataRate::RATE_16_6 => 3,
            DataRate::RATE_20 => 4,
            DataRate::RATE_50 => 5,
            DataRate::RATE_60 => 6,
            DataRate::RATE_100 => 7,
            DataRate::RATE_400 => 8,
            DataRate::RATE_1200 => 9,
            DataRate::RATE_2400 => 10,
            DataRate::RATE_4800 => 11,
            DataRate::RATE_7200 => 12,
            DataRate::RATE_14400 => 13,
            DataRate::RATE_19200 => 14,
            DataRate::RATE_38400 => 15,
        }
    }
}

impl FromSpecImpl<DataRate> for u8 {
    open spec fn obeys_from_spec() -> bool {
        true
    }

    open spec fn from_spec(a: DataRate) -> u8 {
        a.code()
    }
}

} // verus!
