//! The bytes of each bus transfer, and how a conversion frame is laid out and
//! read under the device's current interface configuration.

use vstd::prelude::*;
use crate::command::Command;
use crate::register::register::Register;
use crate::{Checksum, Error, DUMMY, as_u32_be, u32_be};

verus! {

/// Which integrity byte trails a conversion frame.
#[derive(Clone, Copy, Debug, PartialEq, Eq, Structural)]
pub enum ChecksumMode {
    /// No trailing byte.
    Off,
    /// A plain 8-bit checksum.
    Checksum,
    /// An 8-bit CRC.
    CRC,
    /// The reserved bit pattern, which the device never reports when it works.
    Invalid,
}

/// What the INTERFACE register says about the shape of a conversion frame.
#[derive(Clone, Copy, Debug, PartialEq, Eq, Structural)]
pub struct InterfaceConfig {
    pub status_byte_enabled: bool,
    pub checksum_mode: ChecksumMode,
}

impl InterfaceConfig {
    /// The configuration that a value of the INTERFACE register stands for:
    /// bit 2 enables the status byte, bits 0 and 1 select the integrity byte.
    pub open spec fn of(interface: u8) -> InterfaceConfig {
        InterfaceConfig {
            status_byte_enabled: interface & 0b100 != 0,
            checksum_mode: if interface & 0b11 == 0 {
                ChecksumMode::Off
            } else if interface & 0b11 == 0b01 {
                ChecksumMode::Checksum
            } else if interface & 0b11 == 0b10 {
                ChecksumMode::CRC
            } else {
                ChecksumMode::Invalid
            },
        }
    }

    /// Reads the configuration out of a value of the INTERFACE register.
    pub fn from_register(interface: u8) -> (config: InterfaceConfig)
        ensures
            config == InterfaceConfig::of(interface),
    {
        let mode: u8 = interface & 0b11;
        InterfaceConfig {
            status_byte_enabled: (interface & 0b100) != 0,
            checksum_mode: if mode == 0 {
                ChecksumMode::Off
            } else if mode == 0b01 {
                ChecksumMode::Checksum
            } else if mode == 0b10 {
                ChecksumMode::CRC
            } else {
                ChecksumMode::Invalid
            },
        }
    }

    /// The number of bytes in a conversion transfer: the opcode, the status
    /// byte if enabled, four data bytes, and the integrity byte unless off.
    pub open spec fn len(self) -> nat {
        (1 + (if self.status_byte_enabled { 1int } else { 0int }) + 4 + (if self.checksum_mode
            != ChecksumMode::Off { 1int } else { 0int })) as nat
    }

    /// The position of the first data byte.
    pub open spec fn data_at(self) -> int {
        if self.status_byte_enabled { 2 } else { 1 }
    }

    /// The number of bytes in a conversion transfer.
    pub fn frame_len(&self) -> (n: usize)
        ensures
            n == self.len(),
            5 <= n <= 7,
    {
        let status: usize = if self.status_byte_enabled { 1 } else { 0 };
        let check: usize = match self.checksum_mode {
            ChecksumMode::Off => 0,
            _ => 1,
        };
        1 + status + 4 + check
    }

    /// The position of the first of the four data bytes.
    pub fn data_index(&self) -> (i: usize)
        ensures
            i == self.data_at(),
            i + 4 <= self.len(),
    {
        if self.status_byte_enabled { 2 } else { 1 }
    }

    /// The position of the trailing integrity byte, if the frame has one.
    pub fn checksum_index(&self) -> (i: Option<usize>)
        ensures
            self.checksum_mode == ChecksumMode::Off <==> i is None,
            i matches Some(at) ==> at == self.data_at() + 4 && at + 1 == self.len(),
    {
        match self.checksum_mode {
            ChecksumMode::Off => None,
            _ => Some(self.data_index() + 4),
        }
    }
}

/// The parts of a conversion frame tile it: the opcode's echo at 0, the status
/// byte (if any) at 1, the data next, the integrity byte (if any) last.
pub proof fn lemma_frame_layout(config: InterfaceConfig)
    ensures
        config.data_at() == 1 + (if config.status_byte_enabled { 1int } else { 0int }),
        config.status_byte_enabled ==> 1 < config.data_at(),
        config.checksum_mode == ChecksumMode::Off ==> config.data_at() + 4 == config.len(),
        config.checksum_mode != ChecksumMode::Off ==> config.data_at() + 5 == config.len(),
        5 <= config.len() <= 7,
{
}

/// The status byte of a received conversion frame, if the frame has one.
pub open spec fn status_of(config: InterfaceConfig, rx: Seq<u8>) -> Option<u8> {
    if config.status_byte_enabled { Some(rx[1]) } else { None }
}

/// The conversion value of a received frame: its four data bytes, most
/// significant first.
pub open spec fn value_of(config: InterfaceConfig, rx: Seq<u8>) -> int {
    let at = config.data_at();
    u32_be(rx[at], rx[at + 1], rx[at + 2], rx[at + 3])
}

/// The trailing byte of a received frame, tagged by the integrity mode.
pub open spec fn check_of(config: InterfaceConfig, rx: Seq<u8>) -> Option<Checksum> {
    match config.checksum_mode {
        ChecksumMode::Checksum => Some(Checksum::Checksum(rx[config.data_at() + 4])),
        ChecksumMode::CRC => Some(Checksum::CRC(rx[config.data_at() + 4])),
        _ => None,
    }
}

/// What a received conversion frame holds under a configuration: nothing but
/// the invalid-response error when the integrity mode is the reserved one.
pub open spec fn conversion_of<S, P>(config: InterfaceConfig, rx: Seq<u8>) -> Result<
    (Option<u8>, u32, Option<Checksum>),
    Error<S, P>,
> {
    if config.checksum_mode == ChecksumMode::Invalid {
        Err(Error::InvalidResponseFromDevice)
    } else {
        Ok((status_of(config, rx), value_of(config, rx) as u32, check_of(config, rx)))
    }
}

/// Reads a received conversion frame: the status byte if enabled, the value,
/// and the integrity byte if one is configured. Nothing is decoded when the
/// integrity mode is the reserved one.
pub fn decode_conversion<S, P>(config: &InterfaceConfig, rx: &[u8]) -> (decoded: Result<
    (Option<u8>, u32, Option<Checksum>),
    Error<S, P>,
>)
    requires
        rx@.len() == config.len(),
    ensures
        decoded == conversion_of::<S, P>(*config, rx@),
        decoded matches Ok((_, value, _)) ==> value == value_of(*config, rx@),
{
    let at = config.data_index();
    let status = if config.status_byte_enabled { Some(rx[1]) } else { None };
    let value = as_u32_be(&[rx[at], rx[at + 1], rx[at + 2], rx[at + 3]]);
    match config.checksum_mode {
        ChecksumMode::Off => Ok((status, value, None)),
        ChecksumMode::Checksum => Ok((status, value, Some(Checksum::Checksum(rx[at + 4])))),
        ChecksumMode::CRC => Ok((status, value, Some(Checksum::CRC(rx[at + 4])))),
        ChecksumMode::Invalid => Err(Error::InvalidResponseFromDevice),
    }
}

/// Whether a status byte announces a conversion that was not read before:
/// its bit 6.
pub open spec fn is_new_data(status: u8) -> bool {
    status & 0b0100_0000 != 0
}

/// Whether a status byte announces a conversion that was not read before.
#[verifier::when_used_as_spec(is_new_data)]
pub fn new_data(status: u8) -> (fresh: bool)
    ensures
        fresh == is_new_data(status),
{
    (status & 0b0100_0000) != 0
}

/// One bus transfer, by what it is for.
#[derive(Clone, Copy, Debug, PartialEq, Eq, Structural)]
pub enum Frame {
    /// A command: its opcode alone.
    Command(Command),
    /// A register read: the read opcode joined with the address, the count
    /// of further registers (none), and a byte to clock the value out.
    ReadRegister(Register),
    /// A register write: the write opcode joined with the address, the count
    /// of further registers (none), and the value.
    WriteRegister(Register, u8),
    /// A conversion read: the read-data opcode, then one byte for each byte
    /// the device sends under the given configuration.
    ReadData(InterfaceConfig),
}

impl Frame {
    /// The bytes that go out on the bus.
    pub open spec fn wire(self) -> Seq<u8> {
        match self {
            Frame::Command(command) => seq![command.code()],
            Frame::ReadRegister(register) => seq![
                Command::RREG.code() | register.addr(),
                DUMMY,
                DUMMY,
            ],
            Frame::WriteRegister(register, value) => seq![
                Command::WREG.code() | register.addr(),
                DUMMY,
                value,
            ],
            Frame::ReadData(config) => Seq::new(
                config.len(),
                |i: int| if i == 0 { Command::RDATA1.code() } else { DUMMY },
            ),
        }
    }

    /// The number of bytes that go out on the bus.
    pub fn len(&self) -> (n: usize)
        ensures
            n == self.wire().len(),
            1 <= n <= 7,
    {
        match self {
            Frame::Command(_) => 1,
            Frame::ReadRegister(_) => 3,
            Frame::WriteRegister(_, _) => 3,
            Frame::ReadData(config) => config.frame_len(),
        }
    }

    /// The bytes that go out on the bus. The device answers with as many.
    pub fn bytes(&self) -> (out: Vec<u8>)
        ensures
            out@ == self.wire(),
    {
        let mut out: Vec<u8> = Vec::new();
        match self {
            Frame::Command(command) => {
                out.push(command.opcode());
            },
            Frame::ReadRegister(register) => {
                out.push(Command::RREG.opcode() | register.address());
                out.push(DUMMY);
                out.push(DUMMY);
            },
            Frame::WriteRegister(register, value) => {
                out.push(Command::WREG.opcode() | register.address());
                out.push(DUMMY);
                out.push(*value);
            },
            Frame::ReadData(config) => {
                let n = config.frame_len();
                out.push(Command::RDATA1.opcode());
                while out.len() < n
                    invariant
                        1 <= out.len() <= n,
                        n == config.len(),
                        out@[0] == Command::RDATA1.code(),
                        forall|i: int| 1 <= i < out.len() ==> out@[i] == DUMMY,
                    decreases n - out.len(),
                {
                    out.push(DUMMY);
                }
            },
        }
        assert(out@ =~= self.wire());
        out
    }
}

/// A register's address and the register opcodes share no bit, so the first
/// byte of a register transfer gives both back.
pub proof fn lemma_register_byte(register: Register)
    ensures
        (Command::RREG.code() | register.addr()) & 0x1F == register.addr(),
        (Command::RREG.code() | register.addr()) & 0xE0 == Command::RREG.code(),
        (Command::WREG.code() | register.addr()) & 0x1F == register.addr(),
        (Command::WREG.code() | register.addr()) & 0xE0 == Command::WREG.code(),
{
    let a = register.addr();
    assert(a <= 0x1A);
    assert((0x20u8 | a) & 0x1F == a && (0x20u8 | a) & 0xE0 == 0x20 && (0x40u8 | a) & 0x1F == a
        && (0x40u8 | a) & 0xE0 == 0x40) by (bit_vector)
        requires
            a <= 0x1A,
    ;
}

} // verus!
