//! The device's command opcodes.

use vstd::prelude::*;

verus! {

/// A control opcode of the device. `RREG` and `WREG` are combined with a
/// register address to form the first byte of a register transfer.
#[derive(Clone, Copy, Debug, PartialEq, Eq, Structural)]
pub enum Command {
    NOP,
    RESET,
    START1,
    STOP1,
    START2,
    STOP2,
    RDATA1,
    RDATA2,
    SYOCAL1,
    SYGCAL1,
    SFOCAL1,
    SYOCAL2,
    SYGCAL2,
    SFOCAL2,
    RREG,
    WREG,
}

impl Command {
    /// The opcode byte of the command.
    pub open spec fn code(self) -> u8 {
        match self {
            Command::NOP => 0x00,
            Command::RESET => 0x06,
            Command::START1 => 0x08,
            Command::STOP1 => 0x0A,
            Command::START2 => 0x0C,
            Command::STOP2 => 0x0E,
            Command::RDATA1 => 0x12,
            Command::RDATA2 => 0x14,
            Command::SYOCAL1 => 0x16,
            Command::SYGCAL1 => 0x17,
            Command::SFOCAL1 => 0x19,
            Command::SYOCAL2 => 0x1B,
            Command::SYGCAL2 => 0x1C,
            Command::SFOCAL2 => 0x1E,
            Command::RREG => 0x20,
            Command::WREG => 0x40,
        }
    }

    /// The opcode byte of the command.
    #[verifier::when_used_as_spec(code)]
    pub fn opcode(self) -> (op: u8)
        ensures
            op == self.code(),
    {
        match self {
            Command::NOP => 0x00,
            Command::RESET => 0x06,
            Command::START1 => 0x08,
            Command::STOP1 => 0x0A,
            Command::START2 => 0x0C,
            Command::STOP2 => 0x0E,
            Command::RDATA1 => 0x12,
            Command::RDATA2 => 0x14,
            Command::SYOCAL1 => 0x16,
            Command::SYGCAL1 => 0x17,
            Command::SFOCAL1 => 0x19,
            Command::SYOCAL2 => 0x1B,
            Command::SYGCAL2 => 0x1C,
            Command::SFOCAL2 => 0x1E,
            Command::RREG => 0x20,
            Command::WREG => 0x40,
        }
    }
}

} // verus!
