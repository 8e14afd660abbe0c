//! The driver's operations by name.

use vstd::prelude::*;
use crate::access::WriteBitfield;
use crate::bus::{Level, Request, Step};
use crate::calibration::{CalibrateSelfOffset1, LoadCalibrationOffset1};
use crate::command::Command;
use crate::conversion::ReadData;
use crate::ready::{ReadAdc1, WaitReady};
use crate::register::bitfield::BitField;
use crate::register::inpmux::{NegativeInpmux, PositiveInpmux};
use crate::register::register::Register;
use crate::transfer::{RegisterRead, RegisterWrite, SendCommand};
use crate::{Checksum, Error};

verus! {

/// The protocol side of a driver for one device. It knows how the device is
/// wired and begins each operation; whoever owns the bus and the lines
/// performs the requests and resumes the operation with the answers.
#[derive(Clone, Copy, Debug, PartialEq, Eq)]
pub struct ADS1263 {
    ready_wired: bool,
}

impl ADS1263 {
    /// Whether a data-ready line is wired.
    pub closed spec fn ready_wired(&self) -> bool {
        self.ready_wired
    }

    /// The driver for a device with or without a data-ready line.
    pub fn new(ready_wired: bool) -> (driver: ADS1263)
        ensures
            driver.ready_wired() == ready_wired,
    {
        ADS1263 { ready_wired }
    }

    /// Whether a data-ready line is wired.
    pub fn has_ready_line(&self) -> (wired: bool)
        ensures
            wired == self.ready_wired(),
    {
        self.ready_wired
    }

    /// Send a command to the device.
    pub fn send_command<S, P>(&self, command: Command) -> (step: Step<SendCommand<S>, (), S, P>)
        ensures
            step == Step::<SendCommand<S>, (), S, P>::Pending(
                SendCommand::initial(command),
                Request::Select(Level::Low),
            ),
    {
        let (operation, request) = SendCommand::start(command);
        Step::Pending(operation, request)
    }

    /// Read the contents of a register.
    pub fn read_register<S, P>(&self, register: Register) -> (step: Step<RegisterRead<S>, u8, S, P>)
        ensures
            step == Step::<RegisterRead<S>, u8, S, P>::Pending(
                RegisterRead::initial(register),
                Request::Select(Level::Low),
            ),
    {
        let (operation, request) = RegisterRead::start(register);
        Step::Pending(operation, request)
    }

    /// Write the contents of a register.
    pub fn write_register<S, P>(&self, register: Register, val: u8) -> (step: Step<
        RegisterWrite<S>,
        (),
        S,
        P,
    >)
        ensures
            step == Step::<RegisterWrite<S>, (), S, P>::Pending(
                RegisterWrite::initial(register, val),
                Request::Select(Level::Low),
            ),
    {
        let (operation, request) = RegisterWrite::start(register, val);
        Step::Pending(operation, request)
    }

    /// Set one configuration field, leaving the rest of its register as it
    /// is: the register is read, the field is merged in, and the register is
    /// written back.
    pub fn write_bitfield<T: BitField, S, P>(&self, bitfield: T) -> (step: Step<
        WriteBitfield<T, S>,
        (),
        S,
        P,
    >)
        ensures
            step == Step::<WriteBitfield<T, S>, (), S, P>::Pending(
                WriteBitfield::initial(bitfield),
                Request::Select(Level::Low),
            ),
    {
        let (operation, request) = WriteBitfield::start(bitfield);
        Step::Pending(operation, request)
    }

    /// Read the latest conversion: its status byte if enabled, its value, and
    /// its integrity byte if one is configured.
    pub fn read_data1<S, P>(&self) -> (step: Step<
        ReadData<S, P>,
        (Option<u8>, u32, Option<Checksum>),
        S,
        P,
    >)
        ensures
            step == Step::<ReadData<S, P>, (Option<u8>, u32, Option<Checksum>), S, P>::Pending(
                ReadData::initial(),
                Request::Select(Level::Low),
            ),
    {
        let (operation, request) = ReadData::start();
        Step::Pending(operation, request)
    }

    /// Read the voltage difference between two pins. The integrity byte of
    /// the conversion is not checked.
    pub fn read_adc1<S, P>(&self, positive_pin: PositiveInpmux, negative_pin: NegativeInpmux) -> (step:
        Step<ReadAdc1<S, P>, u32, S, P>)
        ensures
            step == Step::<ReadAdc1<S, P>, u32, S, P>::Pending(
                ReadAdc1::initial(positive_pin, negative_pin, self.ready_wired()),
                Request::Select(Level::Low),
            ),
    {
        let (operation, request) = ReadAdc1::start(positive_pin, negative_pin, self.ready_wired);
        Step::Pending(operation, request)
    }

    /// Wait until the data-ready line announces a new conversion. Without
    /// such a line there is nothing to wait on, and the operation has
    /// failed before it asks for anything.
    pub fn wait_for_pin_data_ready<S, P>(&self) -> (step: Step<WaitReady, (), S, P>)
        ensures
            step == if self.ready_wired() {
                Step::<WaitReady, (), S, P>::Pending(WaitReady { polls: 0 }, Request::PollReady)
            } else {
                Step::<WaitReady, (), S, P>::Finished(Err(Error::DRDYPinNotConfigured))
            },
    {
        WaitReady::begin(self.ready_wired)
    }

    /// Measure the device's own offset with both inputs floated, and read
    /// the three offset registers.
    pub fn calibrate_self_offset1<S, P>(&self) -> (step: Step<
        CalibrateSelfOffset1<S>,
        [u8; 3],
        S,
        P,
    >)
        ensures
            step == Step::<CalibrateSelfOffset1<S>, [u8; 3], S, P>::Pending(
                CalibrateSelfOffset1::initial(),
                Request::Select(Level::Low),
            ),
    {
        let (operation, request) = CalibrateSelfOffset1::start();
        Step::Pending(operation, request)
    }

    /// Write a captured offset back to the three offset registers.
    pub fn load_calibration_offset1<S, P>(&self, ofcal: [u8; 3]) -> (step: Step<
        LoadCalibrationOffset1<S>,
        (),
        S,
        P,
    >)
        ensures
            step == Step::<LoadCalibrationOffset1<S>, (), S, P>::Pending(
                LoadCalibrationOffset1::initial(ofcal),
                Request::Select(Level::Low),
            ),
    {
        let (operation, request) = LoadCalibrationOffset1::start(ofcal);
        Step::Pending(operation, request)
    }
}

} // verus!
