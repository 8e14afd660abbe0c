//! Serial interface: timeout, status byte and integrity byte of a conversion frame.

use vstd::prelude::*;
use vstd::std_specs::convert::FromSpecImpl;
use crate::register::bitfield::{BitField, lemma_width_fits};
use crate::register::register::Register;

verus! {

/// Whether the serial interface times out on a stalled frame.
#[allow(non_camel_case_types)]
#[derive(Clone, Copy, Debug, PartialEq, Eq, Structural)]
pub enum SerialInterfaceTimeout {
    DISABLED,
    ENABLED,
}

impl SerialInterfaceTimeout {
    /// The number that selects this option on the device.
    pub open spec fn code(self) -> u8 {
        match self {
            SerialInterfaceTimeout::DISABLED => 0,
            SerialInterfaceTimeout::ENABLED => 1,
        }
    }
}

impl BitField for SerialInterfaceTimeout {
    open spec fn start_bit(&self) -> u8 {
        3
    }

    open spec fn end_bit(&self) -> u8 {
        3
    }

    open spec fn owner(&self) -> Register {
        Register::INTERFACE
    }

    open spec fn bits(&self) -> u8 {
        self.code()
    }

    proof fn lemma_fits(&self) {
        lemma_width_fits(self.bits(), self.start_bit(), self.end_bit());
    }

    fn start(&self) -> u8 {
        3
    }

    fn end(&self) -> u8 {
        3
    }

    fn register(&self) -> Register {
        Register::INTERFACE
    }

    fn value(&self) -> u8 {
        match self {
            SerialInterfaceTimeout::DISABLED => 0,
            SerialInterfaceTimeout::ENABLED => 1,
        }
    }
}

impl From<SerialInterfaceTimeout> for u8 {
    fn from(a: SerialInterfaceTimeout) -> (v: u8) {
        match a {
            SerialInterfaceTimeout::DISABLED => 0,
            SerialInterfaceTimeout::ENABLED => 1,
        }
    }
}

impl FromSpecImpl<SerialInterfaceTimeout> for u8 {
    open spec fn obeys_from_spec() -> bool {
        true
    }

    open spec fn from_spec(a: SerialInterfaceTimeout) -> u8 {
        a.code()
    }
}

/// Whether a status byte leads each conversion frame.
#[allow(non_camel_case_types)]
#[derive(Clone, Copy, Debug, PartialEq, Eq, Structural)]
pub enum StatusByte {
    DISABLED,
    ENABLED,
}

impl StatusByte {
    /// The number that selects this option on the device.
    pub open spec fn code(self) -> u8 {
        match self {
            StatusByte::DISABLED => 0,
            StatusByte::ENABLED => 1,
        }
    }
}

impl BitField for StatusByte {
    open spec fn start_bit(&self) -> u8 {
        2
    }

    open spec fn end_bit(&self) -> u8 {
        2
    }

    open spec fn owner(&self) -> Register {
        Register::INTERFACE
    }

    open spec fn bits(&self) -> u8 {
        self.code()
    }

    proof fn lemma_fits(&self) {
        lemma_width_fits(self.bits(), self.start_bit(), self.end_bit());
    }

    fn start(&self) -> u8 {
        2
    }

    fn end(&self) -> u8 {
        2
    }

    fn register(&self) -> Register {
        Register::INTERFACE
    }

    fn value(&self) -> u8 {
        match self {
            StatusByte::DISABLED => 0,
            StatusByte::ENABLED => 1,
        }
    }
}

impl From<StatusByte> for u8 {
    fn from(a: StatusByte) -> (v: u8) {
        match a {
            StatusByte::DISABLED => 0,
            StatusByte::ENABLED => 1,
        }
    }
}

impl FromSpecImpl<StatusByte> for u8 {
    open spec fn obeys_from_spec() -> bool {
        true
    }

    open spec fn from_spec(a: StatusByte) -> u8 {
        a.code()
    }
}

/// Which integrity byte, if any, trails each conversion frame.
#[allow(non_camel_case_types)]
#[derive(Clone, Copy, Debug, PartialEq, Eq, Structural)]
pub enum ChecksumByte {
    DISABLED,
    CHECKSUM,
    CRC,
}

impl ChecksumByte {
    /// The number that selects this option on the device.
    pub open spec fn code(self) -> u8 {
        match self {
            ChecksumByte::DISABLED => 0,
            ChecksumByte::CHECKSUM => 1,
            ChecksumByte::CRC => 2,
        }
    }
}

impl BitField for ChecksumByte {
    open spec fn start_bit(&self) -> u8 {
        0
    }

    open spec fn end_bit(&self) -> u8 {
        1
    }

    open spec fn owner(&self) -> Register {
        Register::INTERFACE
    }

    open spec fn bits(&self) -> u8 {
        self.code()
    }

    proof fn lemma_fits(&self) {
        lemma_width_fits(self.bits(), self.start_bit(), self.end_bit());
    }

    fn start(&self) -> u8 {
        0
    }

    fn end(&self) -> u8 {
        1
    }

    fn register(&self) -> Register {
        Register::INTERFACE
    }

    fn value(&self) -> u8 {
        match self {
            ChecksumByte::DISABLED => 0,
            ChecksumByte::CHECKSUM => 1,
            ChecksumByte::CRC => 2,
        }
    }
}

impl From<ChecksumByte> for u8 {
    fn from(a: ChecksumByte) -> (v: u8) {
        match a {
            ChecksumByte::DISABLED => 0,
            ChecksumByte::CHECKSUM => 1,
            ChecksumByte::CRC => 2,
        }
    }
}

impl FromSpecImpl<ChecksumByte> for u8 {
    open spec fn obeys_from_spec() -> bool {
        true
    }

    open spec fn from_spec(a: ChecksumByte) -> u8 {
        a.code()
    }
}

} // verus!
