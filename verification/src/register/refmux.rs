//! Reference multiplexer: the sources of the reference voltage.

use vstd::prelude::*;
use vstd::std_specs::convert::FromSpecImpl;
use crate::register::bitfield::{BitField, lemma_width_fits};
use crate::register::register::Register;

verus! {

/// The source of the positive reference.
#[allow(non_camel_case_types)]
#[derive(Clone, Copy, Debug, PartialEq, Eq, Structural)]
pub enum ReferencePositiveInput {
    INT,
    AIN0,
    AIN2,
    AIN4,
    VDD,
}

impl ReferencePositiveInput {
    /// The number that selects this option on the device.
    pub open spec fn code(self) -> u8 {
        match self {
            ReferencePositiveInput::INT => 0,
            ReferencePositiveInput::AIN0 => 1,
            ReferencePositiveInput::AIN2 => 2,
            ReferencePositiveInput::AIN4 => 3,
            ReferencePositiveInput::VDD => 4,
        }
    }
}

impl BitField for ReferencePositiveInput {
    open spec fn start_bit(&self) -> u8 {
        3
    }

    open spec fn end_bit(&self) -> u8 {
        5
    }

    open spec fn owner(&self) -> Register {
        Register::REFMUX
    }

    open spec fn bits(&self) -> u8 {
        self.code()
    }

    proof fn lemma_fits(&self) {
        lemma_width_fits(self.bits(), self.start_bit(), self.end_bit());
    }

    fn start(&self) -> u8 {
        3
    }

    fn end(&self) -> u8 {
        5
    }

    fn register(&self) -> Register {
        Register::REFMUX
    }

    fn value(&self) -> u8 {
        match self {
            ReferencePositiveInput::INT => 0,
            ReferencePositiveInput::AIN0 => 1,
            ReferencePositiveInput::AIN2 => 2,
            ReferencePositiveInput::AIN4 => 3,
            ReferencePositiveInput::VDD => 4,
        }
    }
}

impl From<ReferencePositiveInput> for u8 {
    fn from(a: ReferencePositiveInput) -> (v: u8) {
        match a {
            ReferencePositiveInput::INT => 0,
            ReferencePositiveInput::AIN0 => 1,
            ReferencePositiveInput::AIN2 => 2,
            ReferencePositiveInput::AIN4 => 3,
            ReferencePositiveInput::VDD => 4,
        }
    }
}

impl FromSpecImpl<ReferencePositiveInput> for u8 {
    open spec fn obeys_from_spec() -> bool {
        true
    }

    open spec fn from_spec(a: ReferencePositiveInput) -> u8 {
        a.code()
    }
}

/// The source of the negative reference.
#[allow(non_camel_case_types)]
#[derive(Clone, Copy, Debug, PartialEq, Eq, Structural)]
pub enum ReferenceNegativeInput {
    INT,
    AIN1,
    AIN3,
    AIN5,
    VSS,
}

impl ReferenceNegativeInput {
    /// The number that selects this option on the device.
    pub open spec fn code(self) -> u8 {
        match self {
            ReferenceNegativeInput::INT => 0,
            ReferenceNegativeInput::AIN1 => 1,
            ReferenceNegativeInput::AIN3 => 2,
            ReferenceNegativeInput::AIN5 => 3,
            ReferenceNegativeInput::VSS => 4,
        }
    }
}

impl BitField for ReferenceNegativeInput {
    open spec fn start_bit(&self) -> u8 {
        0
    }

    open spec fn end_bit(&self) -> u8 {
        2
    }

    open spec fn owner(&self) -> Register {
        Register::REFMUX
    }

    open spec fn bits(&self) -> u8 {
        self.code()
    }

    proof fn lemma_fits(&self) {
        lemma_width_fits(self.bits(), self.start_bit(), self.end_bit());
    }

    fn start(&self) -> u8 {
        0
    }

    fn end(&self) -> u8 {
        2
    }

    fn register(&self) -> Register {
        Register::REFMUX
    }

    fn value(&self) -> u8 {
        match self {
            ReferenceNegativeInput::INT => 0,
            ReferenceNegativeInput::AIN1 => 1,
            ReferenceNegativeInput::AIN3 => 2,
            ReferenceNegativeInput::AIN5 => 3,
            ReferenceNegativeInput::VSS => 4,
        }
    }
}

impl From<ReferenceNegativeInput> for u8 {
    fn from(a: ReferenceNegativeInput) -> (v: u8) {
        match a {
            ReferenceNegativeInput::INT => 0,
            ReferenceNegativeInput::AIN1 => 1,
            ReferenceNegativeInput::AIN3 => 2,
            ReferenceNegativeInput::AIN5 => 3,
            ReferenceNegativeInput::VSS => 4,
        }
    }
}

impl FromSpecImpl<ReferenceNegativeInput> for u8 {
    open spec fn obeys_from_spec() -> bool {
        true
    }

    open spec fn from_spec(a: ReferenceNegativeInput) -> u8 {
        a.code()
    }
}

} // verus!
