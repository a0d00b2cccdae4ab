//! Identification of the board's flash chip.
use vstd::prelude::*;

verus! {

/// Identification bytes of the board's flash chip.
#[derive(Clone, Copy, Debug, PartialEq, Eq, Structural)]
pub struct Id {
    pub manufacturer_id: u8,
    pub memory_type: u8,
    pub capacity: u8,
}

impl Id {
    /// The identification of the chip on the development board.
    pub fn expected() -> (id: Self)
        ensures
            id == (Id { manufacturer_id: 0x20, memory_type: 0x80, capacity: 0x11 }),
    {
        Id { manufacturer_id: 0x20, memory_type: 0x80, capacity: 0x11 }
    }

    /// The identification of the chip on the production PCB.
    pub fn expected_pcb() -> (id: Self)
        ensures
            id == (Id { manufacturer_id: 0x3f, memory_type: 0x40, capacity: 0x14 }),
    {
        Id { manufacturer_id: 0x3f, memory_type: 0x40, capacity: 0x14 }
    }

    /// Identification from the three bytes the chip answers.
    pub fn from_bytes(value: &[u8; 3]) -> (id: Self)
        ensures
            id == (Id { manufacturer_id: value@[0], memory_type: value@[1], capacity: value@[2] }),
    {
        Id { manufacturer_id: value[0], memory_type: value[1], capacity: value[2] }
    }
}

} // verus!
