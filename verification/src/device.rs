//! A model of the device's register file, as far as the bus shows it. It
//! exists for stating what the driver's transfers do to a device that keeps
//! what is written to it.

use vstd::prelude::*;
use crate::frame::Frame;
use crate::register::register::Register;

verus! {

/// The registers after the device has received a frame. A register write
/// stores its value; no other frame changes a register.
pub open spec fn registers_after(registers: Map<Register, u8>, frame: Frame) -> Map<Register, u8> {
    match frame {
        Frame::WriteRegister(register, value) => registers.insert(register, value),
        _ => registers,
    }
}

/// Whether the bytes are what a device with these registers sends during a
/// frame: as many bytes as it receives and, for a register read, the
/// register's value as the third.
pub open spec fn device_sends(registers: Map<Register, u8>, frame: Frame, rx: Seq<u8>) -> bool {
    &&& rx.len() == frame.wire().len()
    &&& frame matches Frame::ReadRegister(register) ==> rx[2] == registers[register]
}

} // verus!
