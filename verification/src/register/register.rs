//! The device's register map.

use vstd::prelude::*;

verus! {

/// One addressable 8-bit register of the device.
#[derive(Clone, Copy, Debug, PartialEq, Eq, Structural)]
pub enum Register {
    ID,
    POWER,
    INTERFACE,
    MODE0,
    MODE1,
    MODE2,
    INPMUX,
    OFCAL0,
    OFCAL1,
    OFCAL2,
    FSCAL0,
    FSCAL1,
    FSCAL2,
    IDACMUX,
    IDACMAG,
    REFMUX,
    TDACP,
    TDACN,
    GPIOCON,
    GPIODIR,
    GPIODAT,
    ADC2CFG,
    ADC2MUX,
    ADC2OFC0,
    ADC2OFC1,
    ADC2FSC0,
    ADC2FSC1,
}

impl Register {
    /// The register's address on the device.
    pub open spec fn addr(self) -> u8 {
        match self {
            Register::ID => 0x00,
            Register::POWER => 0x01,
            Register::INTERFACE => 0x02,
            Register::MODE0 => 0x03,
            Register::MODE1 => 0x04,
            Register::MODE2 => 0x05,
            Register::INPMUX => 0x06,
            Register::OFCAL0 => 0x07,
            Register::OFCAL1 => 0x08,
            Register::OFCAL2 => 0x09,
            Register::FSCAL0 => 0x0A,
            Register::FSCAL1 => 0x0B,
            Register::FSCAL2 => 0x0C,
            Register::IDACMUX => 0x0D,
            Register::IDACMAG => 0x0E,
            Register::REFMUX => 0x0F,
            Register::TDACP => 0x10,
            Register::TDACN => 0x11,
            Register::GPIOCON => 0x12,
            Register::GPIODIR => 0x13,
            Register::GPIODAT => 0x14,
            Register::ADC2CFG => 0x15,
            Register::ADC2MUX => 0x16,
            Register::ADC2OFC0 => 0x17,
            Register::ADC2OFC1 => 0x18,
            Register::ADC2FSC0 => 0x19,
            Register::ADC2FSC1 => 0x1A,
        }
    }

    /// The register's address on the device.
    #[verifier::when_used_as_spec(addr)]
    pub fn address(self) -> (a: u8)
        ensures
            a == self.addr(),
            a <= 0x1A,
    {
        match self {
            Register::ID => 0x00,
            Register::POWER => 0x01,
            Register::INTERFACE => 0x02,
            Register::MODE0 => 0x03,
            Register::MODE1 => 0x04,
            Register::MODE2 => 0x05,
            Register::INPMUX => 0x06,
            Register::OFCAL0 => 0x07,
            Register::OFCAL1 => 0x08,
            Register::OFCAL2 => 0x09,
            Register::FSCAL0 => 0x0A,
            Register::FSCAL1 => 0x0B,
            Register::FSCAL2 => 0x0C,
            Register::IDACMUX => 0x0D,
            Register::IDACMAG => 0x0E,
            Register::REFMUX => 0x0F,
            Register::TDACP => 0x10,
            Register::TDACN => 0x11,
            Register::GPIOCON => 0x12,
            Register::GPIODIR => 0x13,
            Register::GPIODAT => 0x14,
            Register::ADC2CFG => 0x15,
            Register::ADC2MUX => 0x16,
            Register::ADC2OFC0 => 0x17,
            Register::ADC2OFC1 => 0x18,
            Register::ADC2FSC0 => 0x19,
            Register::ADC2FSC1 => 0x1A,
        }
    }
}

} // verus!
