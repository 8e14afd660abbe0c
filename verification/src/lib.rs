//! Protocol core of a driver for the ADS1263 delta-sigma converter.
//!
//! The crate holds everything the driver decides: which bytes go out on the
//! bus, when the chip-select line is driven, how a conversion frame is read,
//! how long to wait for new data. It performs no input or output itself. Each
//! operation is a small machine that names the next thing to ask of the
//! hardware and is resumed with the hardware's answer.

use vstd::prelude::*;

pub mod access;
pub mod bus;
pub mod calibration;
pub mod command;
pub mod conversion;
pub mod device;
pub mod driver;
pub mod frame;
pub mod ready;
pub mod register;
pub mod transfer;

verus! {

/// The offset that the device adds to a conversion's checksum.
pub const CHECK_BYTE: u8 = 0x9B;

/// The generator polynomial of a conversion's CRC: x^8 + x^2 + x + 1.
pub const CRC_BYTE: u64 = 0b100000111;

/// The byte clocked out where the device expects no data.
pub const DUMMY: u8 = 0x00;

/// Why an operation failed. `S` is the bus's error, `P` the error of the
/// select and ready lines.
#[derive(Debug, PartialEq, Eq)]
pub enum Error<S, P> {
    /// The bus reported a failed transfer.
    SpiError(S),
    /// The chip-select or data-ready line reported a failure.
    PinError(P),
    /// No new conversion became ready within the retry ceiling.
    DataReadyTimeoutError,
    /// A wait on the data-ready line was asked for, but none is wired.
    DRDYPinNotConfigured,
    /// The device reported the reserved integrity mode.
    InvalidResponseFromDevice,
}

/// The integrity byte that trails a conversion, tagged with how the device
/// computed it.
#[derive(Clone, Copy, Debug, PartialEq, Eq)]
pub enum Checksum {
    Checksum(u8),
    CRC(u8),
}

/// The number that four bytes spell, most significant byte first.
pub open spec fn u32_be(b0: u8, b1: u8, b2: u8, b3: u8) -> int {
    b0 * 0x100_0000 + b1 * 0x1_0000 + b2 * 0x100 + b3
}

/// Reads four bytes as a big-endian number.
pub fn as_u32_be(array: &[u8; 4]) -> (value: u32)
    ensures
        value == u32_be(array[0], array[1], array[2], array[3]),
{
    let b0: u32 = array[0] as u32;
    let b1: u32 = array[1] as u32;
    let b2: u32 = array[2] as u32;
    let b3: u32 = array[3] as u32;
    assert((b0 << 24) + (b1 << 16) + (b2 << 8) + (b3 << 0) < 0x1_0000_0000
        && (b0 << 24) + (b1 << 16) < 0x1_0000_0000
        && (b0 << 24) + (b1 << 16) + (b2 << 8) < 0x1_0000_0000
        && (b0 << 24) + (b1 << 16) + (b2 << 8) + (b3 << 0)
        == b0 * 0x100_0000 + b1 * 0x1_0000 + b2 * 0x100 + b3) by (bit_vector)
        requires
            b0 < 256,
            b1 < 256,
            b2 < 256,
            b3 < 256,
    ;
    (b0 << 24) + (b1 << 16) + (b2 << 8) + (b3 << 0)
}

} // verus!
