//! Mode register 0: conversion delay, chopping, run mode and reference polarity.

use vstd::prelude::*;
use vstd::std_specs::convert::FromSpecImpl;
use crate::register::bitfield::{BitField, lemma_width_fits};
use crate::register::register::Register;

verus! {

/// The delay between a start and the first conversion.
#[allow(non_camel_case_types)]
#[derive(Clone, Copy, Debug, PartialEq, Eq, Structural)]
pub enum ConversionDelay {
    DELAY_0,
    DELAY_8700,
    DELAY_17000,
    DELAY_35000,
    DELAY_69000,
    DELAY_139000,
    DELAY_278000,
    DELAY_555000,
    DELAY_1_1,
    DELAY_2_2,
    DELAY_4_4,
    DELAY_8_8,
}

impl ConversionDelay {
    /// The number that selects this option on the device.
    pub open spec fn code(self) -> u8 {
        match self {
            ConversionDelay::DELAY_0 => 0,
            ConversionDelay::DELAY_8700 => 1,
            ConversionDelay::DELAY_17000 => 2,
            ConversionDelay::DELAY_35000 => 3,
            ConversionDelay::DELAY_69000 => 4,
            ConversionDelay::DELAY_139000 => 5,
            ConversionDelay::DELAY_278000 => 6,
            ConversionDelay::DELAY_555000 => 7,
            ConversionDelay::DELAY_1_1 => 8,
            ConversionDelay::DELAY_2_2 => 9,
            ConversionDelay::DELAY_4_4 => 10,
            ConversionDelay::DELAY_8_8 => 11,
        }
    }
}

impl BitField for ConversionDelay {
    open spec fn start_bit(&self) -> u8 {
        0
    }

    open spec fn end_bit(&self) -> u8 {
        3
    }

    open spec fn owner(&self) -> Register {
        Register::MODE0
    }

    open spec fn bits(&self) -> u8 {
        self.code()
    }

    proof fn lemma_fits(&self) {
        lemma_width_fits(self.bits(), self.start_bit(), self.end_bit());
    }

    fn start(&self) -> u8 {
        0
    }

    fn end(&self) -> u8 {
        3
    }

    fn register(&self) -> Register {
        Register::MODE0
    }

    fn value(&self) -> u8 {
        match self {
            ConversionDelay::DELAY_0 => 0,
            ConversionDelay::DELAY_8700 => 1,
            ConversionDelay::DELAY_17000 => 2,
            ConversionDelay::DELAY_35000 => 3,
            ConversionDelay::DELAY_69000 => 4,
            ConversionDelay::DELAY_139000 => 5,
            ConversionDelay::DELAY_278000 => 6,
            ConversionDelay::DELAY_555000 => 7,
            ConversionDelay::DELAY_1_1 => 8,
            ConversionDelay::DELAY_2_2 => 9,
            ConversionDelay::DELAY_4_4 => 10,
            ConversionDelay::DELAY_8_8 => 11,
        }
    }
}

impl From<ConversionDelay> for u8 {
    fn from(a: ConversionDelay) -> (v: u8) {
        match a {
            ConversionDelay::DELAY_0 => 0,
            ConversionDelay::DELAY_8700 => 1,
            ConversionDelay::DELAY_17000 => 2,
            ConversionDelay::DELAY_35000 => 3,
            ConversionDelay::DELAY_69000 => 4,
            ConversionDelay::DELAY_139000 => 5,
            ConversionDelay::DELAY_278000 => 6,
            ConversionDelay::DELAY_555000 => 7,
            ConversionDelay::DELAY_1_1 => 8,
            ConversionDelay::DELAY_2_2 => 9,
            ConversionDelay::DELAY_4_4 => 10,
            ConversionDelay::DELAY_8_8 => 11,
        }
    }
}

impl FromSpecImpl<ConversionDelay> for u8 {
    open spec fn obeys_from_spec() -> bool {
        true
    }

    open spec fn from_spec(a: ConversionDelay) -> u8 {
        a.code()
    }
}

/// Whether the inputs are chopped.
#[allow(non_camel_case_types)]
#[derive(Clone, Copy, Debug, PartialEq, Eq, Structural)]
pub enum InputChop {
    DISABLED,
    ENABLED,
}

impl InputChop {
    /// The number that selects this option on the device.
    pub open spec fn code(self) -> u8 {
        match self {
            InputChop::DISABLED => 0,
            InputChop::ENABLED => 1,
        }
    }
}

impl BitField for InputChop {
    open spec fn start_bit(&self) -> u8 {
        4
    }

    open spec fn end_bit(&self) -> u8 {
        4
    }

    open spec fn owner(&self) -> Register {
        Register::MODE0
    }

    open spec fn bits(&self) -> u8 {
        self.code()
    }

    proof fn lemma_fits(&self) {
        lemma_width_fits(self.bits(), self.start_bit(), self.end_bit());
    }

    fn start(&self) -> u8 {
        4
    }

    fn end(&self) -> u8 {
        4
    }

    fn register(&self) -> Register {
        Register::MODE0
    }

    fn value(&self) -> u8 {
        match self {
            InputChop::DISABLED => 0,
            InputChop::ENABLED => 1,
        }
    }
}

impl From<InputChop> for u8 {
    fn from(a: InputChop) -> (v: u8) {
        match a {
            InputChop::DISABLED => 0,
            InputChop::ENABLED => 1,
        }
    }
}

impl FromSpecImpl<InputChop> for u8 {
    open spec fn obeys_from_spec() -> bool {
        true
    }

    open spec fn from_spec(a: InputChop) -> u8 {
        a.code()
    }
}

/// Whether the excitation currents are rotated.
#[allow(non_camel_case_types)]
#[derive(Clone, Copy, Debug, PartialEq, Eq, Structural)]
pub enum IDACRotation {
    DISABLED,
    ENABLED,
}

impl IDACRotation {
    /// The number that selects this option on the device.
    pub open spec fn code(self) -> u8 {
        match self {
            IDACRotation::DISABLED => 0,
            IDACRotation::ENABLED => 1,
        }
    }
}

impl BitField for IDACRotation {
    open spec fn start_bit(&self) -> u8 {
        5
    }

    open spec fn end_bit(&self) -> u8 {
        5
    }

    open spec fn owner(&self) -> Register {
        Register::MODE0
    }

    open spec fn bits(&self) -> u8 {
        self.code()
    }

    proof fn lemma_fits(&self) {
        lemma_width_fits(self.bits(), self.start_bit(), self.end_bit());
    }

    fn start(&self) -> u8 {
        5
    }

    fn end(&self) -> u8 {
        5
    }

    fn register(&self) -> Register {
        Register::MODE0
    }

    fn value(&self) -> u8 {
        match self {
            IDACRotation::DISABLED => 0,
            IDACRotation::ENABLED => 1,
        }
    }
}

impl From<IDACRotation> for u8 {
    fn from(a: IDACRotation) -> (v: u8) {
        match a {
            IDACRotation::DISABLED => 0,
            IDACRotation::ENABLED => 1,
        }
    }
}

impl FromSpecImpl<IDACRotation> for u8 {
    open spec fn obeys_from_spec() -> bool {
        true
    }

    open spec fn from_spec(a: IDACRotation) -> u8 {
        a.code()
    }
}

/// Whether conversions run continuously or one per start.
#[allow(non_camel_case_types)]
#[derive(Clone, Copy, Debug, PartialEq, Eq, Structural)]
pub enum ADCConversionRunMode {
    CONTINUOUS,
    PULSE,
}

impl ADCConversionRunMode {
    /// The number that selects this option on the device.
    pub open spec fn code(self) -> u8 {
        match self {
            ADCConversionRunMode::CONTINUOUS => 0,
            ADCConversionRunMode::PULSE => 1,
        }
    }
}

impl BitField for ADCConversionRunMode {
    open spec fn start_bit(&self) -> u8 {
        6
    }

    open spec fn end_bit(&self) -> u8 {
        6
    }

    open spec fn owner(&self) -> Register {
        Register::MODE0
    }

    open spec fn bits(&self) -> u8 {
        self.code()
    }

    proof fn lemma_fits(&self) {
        lemma_width_fits(self.bits(), self.start_bit(), self.end_bit());
    }

    fn start(&self) -> u8 {
        6
    }

    fn end(&self) -> u8 {
        6
    }

    fn register(&self) -> Register {
        Register::MODE0
    }

    fn value(&self) -> u8 {
        match self {
            ADCConversionRunMode::CONTINUOUS => 0,
            ADCConversionRunMode::PULSE => 1,
        }
    }
}

impl From<ADCConversionRunMode> for u8 {
    fn from(a: ADCConversionRunMode) -> (v: u8) {
        match a {
            ADCConversionRunMode::CONTINUOUS => 0,
            ADCConversionRunMode::PULSE => 1,
        }
    }
}

impl FromSpecImpl<ADCConversionRunMode> for u8 {
    open spec fn obeys_from_spec() -> bool {
        true
    }

    open spec fn from_spec(a: ADCConversionRunMode) -> u8 {
        a.code()
    }
}

/// The polarity of the reference multiplexer.
#[allow(non_camel_case_types)]
#[derive(Clone, Copy, Debug, PartialEq, Eq, Structural)]
pub enum RefMuxPolarity {
    NORMAL,
    REVERSED,
}

impl RefMuxPolarity {
    /// The number that selects this option on the device.
    pub open spec fn code(self) -> u8 {
        match self {
            RefMuxPolarity::NORMAL => 0,
            RefMuxPolarity::REVERSED => 1,
        }
    }
}

impl BitField for RefMuxPolarity {
    open spec fn start_bit(&self) -> u8 {
        7
    }

    open spec fn end_bit(&self) -> u8 {
        7
    }

    open spec fn owner(&self) -> Register {
        Register::MODE0
    }

    open spec fn bits(&self) -> u8 {
        self.code()
    }

    proof fn lemma_fits(&self) {
        lemma_width_fits(self.bits(), self.start_bit(), self.end_bit());
    }

    fn start(&self) -> u8 {
        7
    }

    fn end(&self) -> u8 {
        7
    }

    fn register(&self) -> Register {
        Register::MODE0
    }

    fn value(&self) -> u8 {
        match self {
            RefMuxPolarity::NORMAL => 0,
            RefMuxPolarity::REVERSED => 1,
        }
    }
}

impl From<RefMuxPolarity> for u8 {
    fn from(a: RefMuxPolarity) -> (v: u8) {
        match a {
            RefMuxPolarity::NORMAL => 0,
            RefMuxPolarity::REVERSED => 1,
        }
    }
}

impl FromSpecImpl<RefMuxPolarity> for u8 {
    open spec fn obeys_from_spec() -> bool {
        true
    }

    open spec fn from_spec(a: RefMuxPolarity) -> u8 {
        a.code()
    }
}

} // verus!
