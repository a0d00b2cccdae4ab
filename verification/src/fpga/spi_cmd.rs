//! Commands that the microcontroller sends to the FPGA over SPI.
use vstd::prelude::*;

verus! {

/// Commands understood by the FPGA design.
#[derive(Clone, Copy, Debug, PartialEq, Eq, Structural)]
pub enum Command {
    Reset,
    Write,
    ReadData,
    FakeCaptureWrite,
    FakeCaptureVga,
    RealCapture,
    /// Returns `[count, x lo, x hi, y lo, y hi, ...]`.
    GetVessels,
}

/// The byte that encodes a command on the bus.
pub open spec fn code_of(c: Command) -> u8 {
    match c {
        Command::Reset => 0x00,
        Command::Write => 0x01,
        Command::ReadData => 0x02,
        Command::FakeCaptureWrite => 0x03,
        Command::FakeCaptureVga => 0x04,
        Command::RealCapture => 0x05,
        Command::GetVessels => 0x06,
    }
}

impl Command {
    /// The byte that encodes the command on the bus.
    pub fn code(self) -> (b: u8)
        ensures
            b == code_of(self),
    {
        match self {
            Command::Reset => 0x00,
            Command::Write => 0x01,
            Command::ReadData => 0x02,
            Command::FakeCaptureWrite => 0x03,
            Command::FakeCaptureVga => 0x04,
            Command::RealCapture => 0x05,
            Command::GetVessels => 0x06,
        }
    }
}

} // verus!
