//! Input multiplexer: which pins feed the converter's two inputs.

use vstd::prelude::*;
use vstd::std_specs::convert::FromSpecImpl;
use crate::register::bitfield::{BitField, lemma_width_fits};
use crate::register::register::Register;

verus! {

/// The pin wired to the positive input.
#[allow(non_camel_case_types)]
#[derive(Clone, Copy, Debug, PartialEq, Eq, Structural)]
pub enum PositiveInpmux {
    AIN0,
    AIN1,
    AIN2,
    AIN3,
    AIN4,
    AIN5,
    AIN6,
    AIN7,
    AIN8,
    AIN9,
    AINCOM,
    TEMP,
    ANALOG,
    DIGITAL,
    TDAC,
    FLOAT,
}

impl PositiveInpmux {
    /// The number that selects this option on the device.
    pub open spec fn code(self) -> u8 {
        match self {
            PositiveInpmux::AIN0 => 0,
            PositiveInpmux::AIN1 => 1,
            PositiveInpmux::AIN2 => 2,
            PositiveInpmux::AIN3 => 3,
            PositiveInpmux::AIN4 => 4,
            PositiveInpmux::AIN5 => 5,
            PositiveInpmux::AIN6 => 6,
            PositiveInpmux::AIN7 => 7,
            PositiveInpmux::AIN8 => 8,
            PositiveInpmux::AIN9 => 9,
            PositiveInpmux::AINCOM => 10,
            PositiveInpmux::TEMP => 11,
            PositiveInpmux::ANALOG => 12,
            PositiveInpmux::DIGITAL => 13,
            PositiveInpmux::TDAC => 14,
            PositiveInpmux::FLOAT => 15,
        }
    }
}

impl BitField for PositiveInpmux {
    open spec fn start_bit(&self) -> u8 {
        4
    }

    open spec fn end_bit(&self) -> u8 {
        7
    }

    open spec fn owner(&self) -> Register {
        Register::INPMUX
    }

    open spec fn bits(&self) -> u8 {
        self.code()
    }

    proof fn lemma_fits(&self) {
        lemma_width_fits(self.bits(), self.start_bit(), self.end_bit());
    }

    fn start(&self) -> u8 {
        4
    }

    fn end(&self) -> u8 {
        7
    }

    fn register(&self) -> Register {
        Register::INPMUX
    }

    fn value(&self) -> u8 {
        match self {
            PositiveInpmux::AIN0 => 0,
            PositiveInpmux::AIN1 => 1,
            PositiveInpmux::AIN2 => 2,
            PositiveInpmux::AIN3 => 3,
            PositiveInpmux::AIN4 => 4,
            PositiveInpmux::AIN5 => 5,
            PositiveInpmux::AIN6 => 6,
            PositiveInpmux::AIN7 => 7,
            PositiveInpmux::AIN8 => 8,
            PositiveInpmux::AIN9 => 9,
            PositiveInpmux::AINCOM => 10,
            PositiveInpmux::TEMP => 11,
            PositiveInpmux::ANALOG => 12,
            PositiveInpmux::DIGITAL => 13,
            PositiveInpmux::TDAC => 14,
            PositiveInpmux::FLOAT => 15,
        }
    }
}

impl From<PositiveInpmux> for u8 {
    fn from(a: PositiveInpmux) -> (v: u8) {
        match a {
            PositiveInpmux::AIN0 => 0,
            PositiveInpmux::AIN1 => 1,
            PositiveInpmux::AIN2 => 2,
            PositiveInpmux::AIN3 => 3,
            PositiveInpmux::AIN4 => 4,
            PositiveInpmux::AIN5 => 5,
            PositiveInpmux::AIN6 => 6,
            PositiveInpmux::AIN7 => 7,
            PositiveInpmux::AIN8 => 8,
            PositiveInpmux::AIN9 => 9,
            PositiveInpmux::AINCOM => 10,
            PositiveInpmux::TEMP => 11,
            PositiveInpmux::ANALOG => 12,
            PositiveInpmux::DIGITAL => 13,
            PositiveInpmux::TDAC => 14,
            PositiveInpmux::FLOAT => 15,
        }
    }
}

impl FromSpecImpl<PositiveInpmux> for u8 {
    open spec fn obeys_from_spec() -> bool {
        true
    }

    open spec fn from_spec(a: PositiveInpmux) -> u8 {
        a.code()
    }
}

/// The pin wired to the negative input.
#[allow(non_camel_case_types)]
#[derive(Clone, Copy, Debug, PartialEq, Eq, Structural)]
pub enum NegativeInpmux {
    AIN0,
    AIN1,
    AIN2,
    AIN3,
    AIN4,
    AIN5,
    AIN6,
    AIN7,
    AIN8,
    AIN9,
    AINCOM,
    TEMP,
    ANALOG,
    DIGITAL,
    TDAC,
    FLOAT,
}

impl NegativeInpmux {
    /// The number that selects this option on the device.
    pub open spec fn code(self) -> u8 {
        match self {
            NegativeInpmux::AIN0 => 0,
            NegativeInpmux::AIN1 => 1,
            NegativeInpmux::AIN2 => 2,
            NegativeInpmux::AIN3 => 3,
            NegativeInpmux::AIN4 => 4,
            NegativeInpmux::AIN5 => 5,
            NegativeInpmux::AIN6 => 6,
            NegativeInpmux::AIN7 => 7,
            NegativeInpmux::AIN8 => 8,
            NegativeInpmux::AIN9 => 9,
            NegativeInpmux::AINCOM => 10,
            NegativeInpmux::TEMP => 11,
            NegativeInpmux::ANALOG => 12,
            NegativeInpmux::DIGITAL => 13,
            NegativeInpmux::TDAC => 14,
            NegativeInpmux::FLOAT => 15,
        }
    }
}

impl BitField for NegativeInpmux {
    open spec fn start_bit(&self) -> u8 {
        0
    }

    open spec fn end_bit(&self) -> u8 {
        3
    }

    open spec fn owner(&self) -> Register {
        Register::INPMUX
    }

    open spec fn bits(&self) -> u8 {
        self.code()
    }

    proof fn lemma_fits(&self) {
        lemma_width_fits(self.bits(), self.start_bit(), self.end_bit());
    }

    fn start(&self) -> u8 {
        0
    }

    fn end(&self) -> u8 {
        3
    }

    fn register(&self) -> Register {
        Register::INPMUX
    }

    fn value(&self) -> u8 {
        match self {
            NegativeInpmux::AIN0 => 0,
            NegativeInpmux::AIN1 => 1,
            NegativeInpmux::AIN2 => 2,
            NegativeInpmux::AIN3 => 3,
            NegativeInpmux::AIN4 => 4,
            NegativeInpmux::AIN5 => 5,
            NegativeInpmux::AIN6 => 6,
            NegativeInpmux::AIN7 => 7,
            NegativeInpmux::AIN8 => 8,
            NegativeInpmux::AIN9 => 9,
            NegativeInpmux::AINCOM => 10,
            NegativeInpmux::TEMP => 11,
            NegativeInpmux::ANALOG => 12,
            NegativeInpmux::DIGITAL => 13,
            NegativeInpmux::TDAC => 14,
            NegativeInpmux::FLOAT => 15,
        }
    }
}

impl From<NegativeInpmux> for u8 {
    fn from(a: NegativeInpmux) -> (v: u8) {
        match a {
            NegativeInpmux::AIN0 => 0,
            NegativeInpmux::AIN1 => 1,
            NegativeInpmux::AIN2 => 2,
            NegativeInpmux::AIN3 => 3,
            NegativeInpmux::AIN4 => 4,
            NegativeInpmux::AIN5 => 5,
            NegativeInpmux::AIN6 => 6,
            NegativeInpmux::AIN7 => 7,
            NegativeInpmux::AIN8 => 8,
            NegativeInpmux::AIN9 => 9,
            NegativeInpmux::AINCOM => 10,
            NegativeInpmux::TEMP => 11,
            NegativeInpmux::ANALOG => 12,
            NegativeInpmux::DIGITAL => 13,
            NegativeInpmux::TDAC => 14,
            NegativeInpmux::FLOAT => 15,
        }
    }
}

impl FromSpecImpl<NegativeInpmux> for u8 {
    open spec fn obeys_from_spec() -> bool {
        true
    }

    open spec fn from_spec(a: NegativeInpmux) -> u8 {
        a.code()
    }
}

} // verus!
