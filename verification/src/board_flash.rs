//! Command framing for the SPI NOR flash on the sensor board itself.
use vstd::prelude::*;
use crate::fpga_flash::header_bytes;

pub mod id;

verus! {

pub const PAGES_PER_SUBSECTOR: u32 = 16;
pub const SUBSECTORS_PER_SECTOR: u32 = 16;
pub const NUM_SECTORS: u32 = 2;

/// Size of one page, in bytes.
pub const PAGE_SIZE: u32 = 0x100;
/// Size of one subsector, in bytes.
pub const SUBSECTOR_SIZE: u32 = 0x1000;
/// Size of one sector, in bytes.
pub const SECTOR_SIZE: u32 = 0x1_0000;
/// Capacity of the chip, in bytes.
pub const TOTAL_SIZE: u32 = 0x2_0000;

/// The memory sizes are consistent: each unit is a whole number of the smaller one.
pub proof fn lemma_sizes_consistent()
    ensures
        SUBSECTOR_SIZE == PAGE_SIZE * PAGES_PER_SUBSECTOR,
        SECTOR_SIZE == SUBSECTOR_SIZE * SUBSECTORS_PER_SECTOR,
        TOTAL_SIZE == SECTOR_SIZE * NUM_SECTORS,
{
}

/// Instruction set of the board's flash chip.
#[derive(Clone, Copy, Debug, PartialEq, Eq, Structural)]
pub enum Command {
    WriteEnable,
    WriteDisable,
    ReadIdentification,
    ReadStatusRegister,
    WriteStatusRegister,
    WriteToLockRegister,
    ReadLockRegister,
    ReadDataBytes,
    ReadDataBytesHighSpeed,
    PageWrite,
    PageProgram,
    PageErase,
    SubsectorErase,
    SectorErase,
    BulkErase,
    DeepPowerDown,
    ReleaseDeepPowerDown,
}

/// The instruction byte of a command.
pub open spec fn opcode_of(c: Command) -> u8 {
    match c {
        Command::WriteEnable => 0x06,
        Command::WriteDisable => 0x04,
        Command::ReadIdentification => 0x9f,
        Command::ReadStatusRegister => 0x05,
        Command::WriteStatusRegister => 0x01,
        Command::WriteToLockRegister => 0xe5,
        Command::ReadLockRegister => 0xe8,
        Command::ReadDataBytes => 0x03,
        Command::ReadDataBytesHighSpeed => 0x0b,
        Command::PageWrite => 0x0a,
        Command::PageProgram => 0x02,
        Command::PageErase => 0xdb,
        Command::SubsectorErase => 0x20,
        Command::SectorErase => 0xd8,
        Command::BulkErase => 0xc7,
        Command::DeepPowerDown => 0xb9,
        Command::ReleaseDeepPowerDown => 0xab,
    }
}

impl Command {
    /// The instruction byte sent for this command.
    pub fn opcode(self) -> (b: u8)
        ensures
            b == opcode_of(self),
    {
        match self {
            Command::WriteEnable => 0x06,
            Command::WriteDisable => 0x04,
            Command::ReadIdentification => 0x9f,
            Command::ReadStatusRegister => 0x05,
            Command::WriteStatusRegister => 0x01,
            Command::WriteToLockRegister => 0xe5,
            Command::ReadLockRegister => 0xe8,
            Command::ReadDataBytes => 0x03,
            Command::ReadDataBytesHighSpeed => 0x0b,
            Command::PageWrite => 0x0a,
            Command::PageProgram => 0x02,
            Command::PageErase => 0xdb,
            Command::SubsectorErase => 0x20,
            Command::SectorErase => 0xd8,
            Command::BulkErase => 0xc7,
            Command::DeepPowerDown => 0xb9,
            Command::ReleaseDeepPowerDown => 0xab,
        }
    }
}

/// The status register read back from the chip.
#[derive(Clone, Copy, Debug, PartialEq, Eq, Structural)]
pub struct StatusRegister(pub u8);

impl StatusRegister {
    /// A program or erase operation is in progress (bit 0).
    pub fn busy(self) -> (b: bool)
        ensures
            b == (self.0 % 2 == 1),
    {
        let v = self.0;
        assert((v & 1u8) == v % 2) by (bit_vector);
        (v & 0b0000_0001) != 0
    }

    /// Writing is enabled (bit 1).
    pub fn write_enable_latch(self) -> (b: bool)
        ensures
            b == ((self.0 / 2) % 2 == 1),
    {
        let v = self.0;
        assert(((v & 2u8) != 0) == ((v / 2) % 2 == 1)) by (bit_vector);
        (v & 0b0000_0010) != 0
    }
}

/// The four bytes that start an addressed command: 8-bit command, 24-bit address.
pub fn header(command: Command, addr: u32) -> (h: [u8; 4])
    ensures
        h@ == header_bytes(opcode_of(command), addr),
{
    let h = [
        command.opcode(),
        ((addr / 0x1_0000) % 0x100) as u8,
        ((addr / 0x100) % 0x100) as u8,
        (addr % 0x100) as u8,
    ];
    assert(h@ =~= header_bytes(opcode_of(command), addr));
    h
}

/// Identification bytes read from the chip.
#[derive(Clone, Copy, Debug, PartialEq, Eq, Structural)]
pub struct Id {
    manufacturer_id: u8,
    memory_type: u8,
    capacity: u8,
}

impl Id {
    pub closed spec fn fields(self) -> (u8, u8, u8) {
        (self.manufacturer_id, self.memory_type, self.capacity)
    }

    /// Identification from the three bytes the chip answers.
    pub fn from_bytes(value: &[u8; 3]) -> (id: Self)
        ensures
            id.fields() == (value@[0], value@[1], value@[2]),
    {
        Id { manufacturer_id: value[0], memory_type: value[1], capacity: value[2] }
    }
}

/// The bytes clocked out to read the identification: the instruction, then three dummies.
pub fn read_id_request() -> (b: [u8; 4])
    ensures
        b@ == seq![opcode_of(Command::ReadIdentification), 0u8, 0u8, 0u8],
{
    let b = [Command::ReadIdentification.opcode(), 0, 0, 0];
    assert(b@ =~= seq![opcode_of(Command::ReadIdentification), 0u8, 0u8, 0u8]);
    b
}

/// The identification carried by the answer to [`read_id_request`]: bytes 1 to 3.
pub fn id_from_response(txrx: &[u8; 4]) -> (id: Id)
    ensures
        id.fields() == (txrx@[1], txrx@[2], txrx@[3]),
{
    Id::from_bytes(&[txrx[1], txrx[2], txrx[3]])
}

} // verus!
