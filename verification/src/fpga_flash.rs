//! Command framing and argument checks for the SPI NOR flash that holds the
//! FPGA images (the chip behind the FPGA, reached over SPI).
use vstd::prelude::*;
use crate::layout::{CHIP, PAGE, SECTOR, SUBSECTOR};

verus! {

/// Smallest readable unit, in bytes.
pub const READ_SIZE: usize = 1;
/// Size of one program operation, in bytes.
pub const WRITE_SIZE: usize = 0x100;
/// Size of one erase operation, in bytes.
pub const ERASE_SIZE: usize = 0x1000;

/// Instruction set of the flash chip.
#[derive(Clone, Copy, Debug, PartialEq, Eq, Structural)]
pub enum Command {
    WriteEnable,
    WriteDisable,
    ReadIdentification,
    ReadStatusRegister,
    WriteStatusRegister,
    WriteToLockRegister,
    ReadLockRegister,
    ReadDataBytes,
    ReadDataBytesHighSpeed,
    PageProgram,
    SubsectorErase,
    SectorErase,
    ChipErase,
    DeepPowerDown,
    ReleaseDeepPowerDown,
}

/// The instruction byte of a command.
pub open spec fn opcode_of(c: Command) -> u8 {
    match c {
        Command::WriteEnable => 0x06,
        Command::WriteDisable => 0x04,
        Command::ReadIdentification => 0x9f,
        Command::ReadStatusRegister => 0x05,
        Command::WriteStatusRegister => 0x01,
        Command::WriteToLockRegister => 0xe5,
        Command::ReadLockRegister => 0xe8,
        Command::ReadDataBytes => 0x03,
        Command::ReadDataBytesHighSpeed => 0x0b,
        Command::PageProgram => 0x02,
        Command::SubsectorErase => 0x20,
        Command::SectorErase => 0xd8,
        Command::ChipErase => 0xc7,
        Command::DeepPowerDown => 0xb9,
        Command::ReleaseDeepPowerDown => 0xab,
    }
}

impl Command {
    /// The instruction byte sent for this command.
    pub fn opcode(self) -> (b: u8)
        ensures
            b == opcode_of(self),
    {
        match self {
            Command::WriteEnable => 0x06,
            Command::WriteDisable => 0x04,
            Command::ReadIdentification => 0x9f,
            Command::ReadStatusRegister => 0x05,
            Command::WriteStatusRegister => 0x01,
            Command::WriteToLockRegister => 0xe5,
            Command::ReadLockRegister => 0xe8,
            Command::ReadDataBytes => 0x03,
            Command::ReadDataBytesHighSpeed => 0x0b,
            Command::PageProgram => 0x02,
            Command::SubsectorErase => 0x20,
            Command::SectorErase => 0xd8,
            Command::ChipErase => 0xc7,
            Command::DeepPowerDown => 0xb9,
            Command::ReleaseDeepPowerDown => 0xab,
        }
    }
}

/// The status register read back from the chip.
#[derive(Clone, Copy, Debug, PartialEq, Eq, Structural)]
pub struct StatusRegister(pub u8);

impl StatusRegister {
    /// A program or erase operation is in progress (bit 0).
    pub fn busy(&self) -> (b: bool)
        ensures
            b == (self.0 % 2 == 1),
    {
        let v = self.0;
        assert((v & 1u8) == v % 2) by (bit_vector);
        (v & 0b0000_0001) != 0
    }

    /// Writing is enabled (bit 1).
    pub fn write_enable_latch(&self) -> (b: bool)
        ensures
            b == ((self.0 / 2) % 2 == 1),
    {
        let v = self.0;
        assert(((v & 2u8) != 0) == ((v / 2) % 2 == 1)) by (bit_vector);
        (v & 0b0000_0010) != 0
    }
}

/// Instruction byte followed by the low 24 bits of the address, most significant first.
pub open spec fn header_bytes(op: u8, addr: u32) -> Seq<u8> {
    seq![op, ((addr / 0x1_0000) % 0x100) as u8, ((addr / 0x100) % 0x100) as u8, (addr % 0x100) as u8]
}

/// The four bytes that start an addressed command: 8-bit command, 24-bit address.
pub fn header(command: Command, addr: u32) -> (h: [u8; 4])
    ensures
        h@ == header_bytes(opcode_of(command), addr),
{
    let h = [
        command.opcode(),
        ((addr / 0x1_0000) % 0x100) as u8,
        ((addr / 0x100) % 0x100) as u8,
        (addr % 0x100) as u8,
    ];
    assert(h@ =~= header_bytes(opcode_of(command), addr));
    h
}

/// Errors of a flash operation.
#[derive(Clone, Copy, Debug, PartialEq, Eq, Structural)]
pub enum Error {
    /// The chip answered with an identification other than the expected one.
    UnxpectedId,
    /// The SPI peripheral failed.
    PeripheralFailure(SpiError),
    /// The operation reaches past the end of the chip.
    OutOfBounds,
    /// The address is not aligned to the operation's unit.
    NotAligned,
}

/// Failures that the SPI peripheral reports.
#[derive(Clone, Copy, Debug, PartialEq, Eq, Structural)]
pub enum SpiError {
    Framing,
    Crc,
    ModeFault,
    Overrun,
}

/// Classes of flash errors, as a NOR-flash user sees them.
#[derive(Clone, Copy, Debug, PartialEq, Eq, Structural)]
pub enum ErrorKind {
    NotAligned,
    OutOfBounds,
    Other,
}

impl Error {
    /// The class of this error. An identification mismatch has no class.
    pub fn kind(&self) -> (k: ErrorKind)
        requires
            !(*self is UnxpectedId),
        ensures
            *self is PeripheralFailure ==> k == ErrorKind::Other,
            *self is OutOfBounds ==> k == ErrorKind::OutOfBounds,
            *self is NotAligned ==> k == ErrorKind::NotAligned,
    {
        match self {
            Error::PeripheralFailure(_) => ErrorKind::Other,
            Error::OutOfBounds => ErrorKind::OutOfBounds,
            Error::NotAligned => ErrorKind::NotAligned,
            Error::UnxpectedId => ErrorKind::Other,
        }
    }
}

/// `len` bytes from `addr` fit inside the chip.
pub open spec fn in_bounds(addr: u32, len: usize) -> bool {
    addr + (len as u32) <= CHIP
}

/// Checks that `len` bytes from `addr` fit inside the chip.
pub fn check_bounds(addr: u32, len: usize) -> (r: Result<(), Error>)
    requires
        addr + (len as u32) <= u32::MAX,
    ensures
        r is Ok <==> in_bounds(addr, len),
        r is Err ==> r == Err::<(), Error>(Error::OutOfBounds),
{
    if addr + (len as u32) > CHIP {
        Err(Error::OutOfBounds)
    } else {
        Ok(())
    }
}

/// Header of a page program of `len` bytes at `addr`, once the range is checked.
pub fn page_program_header(addr: u32, len: usize) -> (r: Result<[u8; 4], Error>)
    requires
        addr + (len as u32) <= u32::MAX,
    ensures
        match r {
            Ok(h) => in_bounds(addr, len) && h@ == header_bytes(opcode_of(Command::PageProgram), addr),
            Err(e) => !in_bounds(addr, len) && e == Error::OutOfBounds,
        },
{
    check_bounds(addr, len)?;
    Ok(header(Command::PageProgram, addr))
}

/// Header of a read of `len` bytes at `addr`, once the range is checked.
pub fn read_data_header(addr: u32, len: usize) -> (r: Result<[u8; 4], Error>)
    requires
        addr + (len as u32) <= u32::MAX,
    ensures
        match r {
            Ok(h) => in_bounds(addr, len) && h@ == header_bytes(opcode_of(Command::ReadDataBytes), addr),
            Err(e) => !in_bounds(addr, len) && e == Error::OutOfBounds,
        },
{
    check_bounds(addr, len)?;
    Ok(header(Command::ReadDataBytes, addr))
}

/// Header of a subsector erase at `addr`; the address must start a subsector.
pub fn subsector_erase_header(addr: u32) -> (r: Result<[u8; 4], Error>)
    ensures
        match r {
            Ok(h) => addr % SUBSECTOR == 0 && h@ == header_bytes(opcode_of(Command::SubsectorErase), addr),
            Err(e) => addr % SUBSECTOR != 0 && e == Error::NotAligned,
        },
{
    if addr % SUBSECTOR == 0 {
        Ok(header(Command::SubsectorErase, addr))
    } else {
        Err(Error::NotAligned)
    }
}

/// Header of a sector erase at `addr`; the address must start a sector.
pub fn sector_erase_header(addr: u32) -> (r: Result<[u8; 4], Error>)
    ensures
        match r {
            Ok(h) => addr % SECTOR == 0 && h@ == header_bytes(opcode_of(Command::SectorErase), addr),
            Err(e) => addr % SECTOR != 0 && e == Error::NotAligned,
        },
{
    if addr % SECTOR == 0 {
        Ok(header(Command::SectorErase, addr))
    } else {
        Err(Error::NotAligned)
    }
}

/// The subsector addresses that erasing `[from, to)` erases, first to last:
/// `from`, `from + ERASE_SIZE`, ... while below `to`. Erasing stops with
/// `NotAligned` at the first address that does not start a subsector.
pub fn erase_plan(from: u32, to: u32) -> (r: Result<Vec<u32>, Error>)
    ensures
        match r {
            Ok(v) => {
                &&& (from < to ==> from % SUBSECTOR == 0)
                &&& v@.len() == if from < to { (to - from + SUBSECTOR - 1) / SUBSECTOR as int } else { 0 }
                &&& forall|k: int| 0 <= k < v@.len() ==> v@[k] == from + k * SUBSECTOR
            },
            Err(e) => from < to && from % SUBSECTOR != 0 && e == Error::NotAligned,
        },
{
    let mut v: Vec<u32> = Vec::new();
    if from >= to {
        return Ok(v);
    }
    if from % SUBSECTOR != 0 {
        return Err(Error::NotAligned);
    }
    let mut pg: u32 = from;
    while pg < to
        invariant
            from < to,
            from % SUBSECTOR == 0,
            pg == from + v@.len() * SUBSECTOR,
            pg <= to || v@.len() == (to - from + SUBSECTOR - 1) / SUBSECTOR as int,
            v@.len() * SUBSECTOR < to - from + SUBSECTOR,
            forall|k: int| 0 <= k < v@.len() ==> v@[k] == from + k * SUBSECTOR,
        decreases to - from + SUBSECTOR - v@.len() * SUBSECTOR,
    {
        v.push(pg);
        if to - pg <= SUBSECTOR {
            assert(v@.len() == (to - from + SUBSECTOR - 1) / SUBSECTOR as int) by (nonlinear_arith)
                requires
                    pg == from + (v@.len() - 1) * SUBSECTOR,
                    pg < to,
                    to - pg <= SUBSECTOR,
                    SUBSECTOR == 0x1000,
            ;
            return Ok(v);
        }
        pg = pg + SUBSECTOR;
    }
    Ok(v)
}

/// Identification bytes of the chip.
#[derive(Clone, Copy, Debug, PartialEq, Eq, Structural)]
pub struct Id {
    pub manufacturer: u8,
    pub memory_type: u8,
    pub capacity: u8,
}

impl Id {
    /// The identification of the chip fitted to the board.
    pub fn expected() -> (id: Self)
        ensures
            id == (Id { manufacturer: 0xef, memory_type: 0x40, capacity: 0x14 }),
    {
        Id { manufacturer: 0xef, memory_type: 0x40, capacity: 0x14 }
    }

    /// Identification from the three bytes the chip answers.
    pub fn from_bytes(value: &[u8; 3]) -> (id: Self)
        ensures
            id == (Id { manufacturer: value@[0], memory_type: value@[1], capacity: value@[2] }),
    {
        Id { manufacturer: value[0], memory_type: value[1], capacity: value[2] }
    }
}

/// Accepts the chip only when it identifies as the expected one.
pub fn check_id(id: Id) -> (r: Result<(), Error>)
    ensures
        r is Ok <==> id == Id::expected_spec(),
        r is Err ==> r == Err::<(), Error>(Error::UnxpectedId),
{
    let e = Id::expected();
    if id.manufacturer == e.manufacturer && id.memory_type == e.memory_type && id.capacity == e.capacity {
        Ok(())
    } else {
        Err(Error::UnxpectedId)
    }
}

impl Id {
    pub open spec fn expected_spec() -> Id {
        Id { manufacturer: 0xef, memory_type: 0x40, capacity: 0x14 }
    }
}

/// Capacity of the chip in bytes.
pub fn capacity() -> (n: usize)
    ensures
        n == CHIP,
{
    CHIP as usize
}

} // verus!
