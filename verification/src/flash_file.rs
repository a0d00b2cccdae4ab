//! The host's image of a flash segment, cut into checksummed pages.
use vstd::prelude::*;
use crate::layout::{Segment, PAGE, segment_bounds, get_bounds};
use crate::page::{Page, PageView, page_crc, make_page};

verus! {

/// Why a file cannot be programmed into a segment.
#[derive(Clone, Copy, Debug, PartialEq, Eq, Structural)]
pub enum Error {
    /// The file holds `length` bytes but the segment only `segment_size`.
    TooLarge { length: usize, segment_size: usize },
}

/// The bytes to program into one segment, padded to the segment's full size.
pub struct FlashFile {
    bytes: Vec<u8>,
    segment: Segment,
}

/// The mathematical content of a [`FlashFile`].
pub struct FlashFileView {
    pub bytes: Seq<u8>,
    pub segment: Segment,
}

impl View for FlashFile {
    type V = FlashFileView;

    closed spec fn view(&self) -> FlashFileView {
        FlashFileView { bytes: self.bytes@, segment: self.segment }
    }
}

/// Size of a segment in bytes.
pub open spec fn segment_size(segment: Segment) -> nat {
    segment_bounds(segment).length as nat
}

/// `bytes` followed by enough `pad` bytes to reach `size`.
pub open spec fn padded(bytes: Seq<u8>, size: nat, pad: u8) -> Seq<u8> {
    bytes + Seq::new((size - bytes.len()) as nat, |_i: int| pad)
}

/// Page `i` of an image: its number, its `PAGE` bytes, and their checksum.
pub open spec fn file_page(bytes: Seq<u8>, i: int) -> PageView {
    let data = bytes.subrange(i * PAGE, i * PAGE + PAGE);
    PageView { page_number: Some(i as u32), data: Some(data), crc: Some(page_crc(i as u32, data)) }
}

/// The pages of an image, in order.
pub open spec fn file_pages(bytes: Seq<u8>) -> Seq<PageView> {
    Seq::new(bytes.len() / PAGE as nat, |i: int| file_page(bytes, i))
}

impl FlashFile {
    #[verifier::type_invariant]
    spec fn inv(self) -> bool {
        self.bytes@.len() == segment_size(self.segment)
    }

    /// An image of `bytes` for `segment`, padded with `pad` to the segment's size.
    /// Fails when the bytes do not fit in the segment.
    pub fn from_bytes(bytes: Vec<u8>, segment: Segment, pad: u8) -> (r: Result<Self, Error>)
        ensures
            match r {
                Ok(f) => {
                    &&& bytes@.len() <= segment_size(segment)
                    &&& f@.bytes == padded(bytes@, segment_size(segment), pad)
                    &&& f@.segment == segment
                },
                Err(Error::TooLarge { length, segment_size: size }) => {
                    &&& bytes@.len() > segment_size(segment)
                    &&& length == bytes@.len()
                    &&& size == segment_size(segment)
                },
            },
    {
        let length = bytes.len();
        let size = get_bounds(segment).length as usize;
        if length > size {
            return Err(Error::TooLarge { length, segment_size: size });
        }
        let mut out = bytes;
        let ghost orig = out@;
        while out.len() < size
            invariant
                orig.len() <= out@.len() <= size,
                out@ == padded(orig, out@.len(), pad),
            decreases size - out@.len(),
        {
            out.push(pad);
            assert(out@ =~= padded(orig, out@.len(), pad));
        }
        Ok(FlashFile { bytes: out, segment })
    }

    /// Size of the image in bytes: always the size of its segment.
    pub fn size(&self) -> (n: usize)
        ensures
            n == self@.bytes.len(),
            n == segment_size(self@.segment),
    {
        proof {
            use_type_invariant(self);
        }
        self.bytes.len()
    }

    /// Number of pages in the image.
    pub fn num_pages(&self) -> (n: usize)
        ensures
            n == self@.bytes.len() / PAGE as nat,
            n * PAGE == self@.bytes.len(),
    {
        proof {
            use_type_invariant(self);
        }
        self.bytes.len() / (PAGE as usize)
    }

    /// The segment the image is for.
    pub fn segment(&self) -> (s: Segment)
        ensures
            s == self@.segment,
    {
        self.segment
    }

    /// Page `i` of the image.
    pub fn page(&self, i: usize) -> (p: Page)
        requires
            i < self@.bytes.len() / PAGE as nat,
        ensures
            p@ == file_page(self@.bytes, i as int),
    {
        proof {
            use_type_invariant(self);
        }
        let start = i * (PAGE as usize);
        let mut data: Vec<u8> = Vec::new();
        let mut k: usize = 0;
        while k < PAGE as usize
            invariant
                start == i * PAGE,
                start + PAGE <= self.bytes@.len(),
                k <= PAGE,
                data@ == self.bytes@.subrange(start as int, start + k),
            decreases PAGE - k,
        {
            data.push(self.bytes[start + k]);
            k = k + 1;
            assert(data@ =~= self.bytes@.subrange(start as int, start + k));
        }
        let p = make_page(i as u32, data);
        assert(p@.data == file_page(self@.bytes, i as int).data);
        p
    }

    /// The pages of the image, first to last.
    pub fn pages(&self) -> (it: PageIter<'_>)
        ensures
            it.file == self,
            it.next == 0,
    {
        PageIter { file: self, next: 0 }
    }
}

/// Walks the pages of a [`FlashFile`] in order.
pub struct PageIter<'a> {
    pub file: &'a FlashFile,
    pub next: usize,
}

impl<'a> PageIter<'a> {
    /// The next page, or `None` after the last one.
    pub fn next(&mut self) -> (p: Option<Page>)
        ensures
            final(self).file == old(self).file,
            old(self).next < old(self).file@.bytes.len() / PAGE as nat ==> {
                &&& p == Some(p.unwrap())
                &&& p.unwrap()@ == file_page(old(self).file@.bytes, old(self).next as int)
                &&& final(self).next == old(self).next + 1
            },
            old(self).next >= old(self).file@.bytes.len() / PAGE as nat ==> {
                &&& p.is_none()
                &&& final(self).next == old(self).next
            },
    {
        let n = self.file.num_pages();
        if self.next < n {
            let p = self.file.page(self.next);
            self.next = self.next + 1;
            Some(p)
        } else {
            None
        }
    }
}

} // verus!
