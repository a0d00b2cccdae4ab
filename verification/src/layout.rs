//! Partition of the FPGA configuration flash into named segments.
use vstd::prelude::*;

verus! {

/// Size of one programmable page, in bytes.
pub const PAGE: u32 = 0x100;
/// Size of the smallest erasable unit, in bytes.
pub const SUBSECTOR: u32 = 0x1000;
/// Size of one sector, in bytes.
pub const SECTOR: u32 = 0x1_0000;
/// Capacity of the whole chip, in bytes.
pub const CHIP: u32 = 0x10_0000;

/// The named regions of the FPGA flash.
#[derive(Clone, Copy, Debug, PartialEq, Eq, Structural)]
pub enum Segment {
    Fpga,
    Qvga0,
    Qvga1,
    Qvga2,
    Qvga3,
    Qvga4,
    User,
    Dfu,
}

/// A byte range of the flash: `[origin, origin + length)`.
#[derive(Clone, Copy, Debug, PartialEq, Eq, Structural)]
pub struct Bounds {
    pub origin: u32,
    pub length: u32,
}

/// The range of a segment, counted in subsectors: `(first subsector, number of subsectors)`.
pub open spec fn segment_subsectors(segment: Segment) -> (u32, u32) {
    match segment {
        Segment::Fpga => (0, 32),
        Segment::Qvga0 => (32, 40),
        Segment::Qvga1 => (72, 40),
        Segment::Qvga2 => (112, 40),
        Segment::User => (152, 40),
        Segment::Dfu => (192, 64),
        _ => (0, 0),
    }
}

/// The byte range that a segment occupies.
pub open spec fn segment_bounds(segment: Segment) -> Bounds {
    let (first, count) = segment_subsectors(segment);
    Bounds { origin: (first * SUBSECTOR) as u32, length: (count * SUBSECTOR) as u32 }
}

impl Bounds {
    pub open spec fn spec_end(self) -> int {
        self.origin + self.length
    }

    /// Bounds spanning `length` subsectors from subsector number `origin`.
    pub fn from_subsectors(origin: u32, length: u32) -> (b: Self)
        requires
            origin * SUBSECTOR <= u32::MAX,
            length * SUBSECTOR <= u32::MAX,
        ensures
            b.origin == origin * SUBSECTOR,
            b.length == length * SUBSECTOR,
    {
        Self { origin: origin * SUBSECTOR, length: length * SUBSECTOR }
    }

    /// First byte address past the range.
    pub fn end(&self) -> (e: u32)
        requires
            self.spec_end() <= u32::MAX,
        ensures
            e == self.spec_end(),
    {
        self.origin + self.length
    }

    /// Number of whole pages in the range.
    pub fn num_pages(&self) -> (n: u32)
        ensures
            n == self.length / PAGE,
    {
        self.length / PAGE
    }

    /// Number of whole subsectors in the range.
    pub fn num_subsectors(&self) -> (n: u32)
        ensures
            n == self.length / SUBSECTOR,
    {
        self.length / SUBSECTOR
    }
}

/// The byte range that `segment` occupies on the flash.
pub fn get_bounds(segment: Segment) -> (b: Bounds)
    ensures
        b == segment_bounds(segment),
{
    match segment {
        Segment::Fpga => Bounds::from_subsectors(0, 32),
        Segment::Qvga0 => Bounds::from_subsectors(32, 40),
        Segment::Qvga1 => Bounds::from_subsectors(72, 40),
        Segment::Qvga2 => Bounds::from_subsectors(112, 40),
        Segment::User => Bounds::from_subsectors(152, 40),
        Segment::Dfu => Bounds::from_subsectors(192, 64),
        _ => Bounds::from_subsectors(0, 0),
    }
}

/// Every segment lies inside the chip, starts on a subsector boundary and
/// spans a whole number of subsectors (hence of pages).
pub proof fn lemma_segment_fits_chip(segment: Segment)
    ensures
        segment_bounds(segment).spec_end() <= CHIP,
        segment_bounds(segment).origin % SUBSECTOR == 0,
        segment_bounds(segment).length % SUBSECTOR == 0,
        segment_bounds(segment).length % PAGE == 0,
{
}

/// Two different segments never share a byte of flash.
pub proof fn lemma_segments_disjoint(a: Segment, b: Segment)
    requires
        a != b,
    ensures
        ({
            let ba = segment_bounds(a);
            let bb = segment_bounds(b);
            ba.spec_end() <= bb.origin || bb.spec_end() <= ba.origin
        }),
{
}

} // verus!
