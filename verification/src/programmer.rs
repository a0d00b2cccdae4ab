//! The sensor side of page transfer: accepting pages to program into a
//! flash range, and answering page read-out requests.
use vstd::prelude::*;
use crate::layout::{Bounds, PAGE};
use crate::page::{Page, PageView, page_is_valid, validate_page, compute_crc, page_crc};
use crate::layout::{Segment, segment_bounds};
use crate::flash_file::{file_page, file_pages, segment_size};

verus! {

/// How many pages may be received for one page number before programming gives up.
pub const PAGE_MAX_ATTEMPTS: u32 = 5;
/// How long to wait for the first page, in milliseconds (the host may still be preparing).
pub const FIRST_PAGE_TIMEOUT_MS: u32 = 5000;
/// How long to wait for any later page, in milliseconds.
pub const PAGE_TIMEOUT_MS: u32 = 500;

/// Progress of programming a flash range page by page, in order.
#[derive(Clone, Copy, Debug, PartialEq, Eq, Structural)]
pub struct PageProgrammer {
    /// Address of the first byte of the range.
    pub origin: u32,
    /// Number of pages in the range.
    pub num_pages: u32,
    /// The page number that is awaited next.
    pub next_page: u32,
    /// How many pages were rejected while awaiting `next_page`.
    pub attempts: u32,
}

/// What the programmer waits for.
#[derive(Clone, Copy, Debug, PartialEq, Eq, Structural)]
pub enum Request {
    /// Page `number` is awaited for at most `timeout_ms` milliseconds.
    Page { number: u32, timeout_ms: u32 },
    /// Every page of the range has been accepted.
    Finished,
    /// Too many pages were rejected for one page number.
    RetriesExceeded,
}

/// What to do with a received page.
#[derive(Clone, Debug, PartialEq, Eq)]
pub enum Verdict {
    /// Program `data` at `addr`.
    Write { addr: u32, data: Vec<u8> },
    /// Drop the page.
    Rejected,
}

impl PageProgrammer {
    pub open spec fn wf(self) -> bool {
        &&& self.origin + self.num_pages * PAGE <= u32::MAX
        &&& self.next_page <= self.num_pages
        &&& self.attempts <= PAGE_MAX_ATTEMPTS
    }

    pub open spec fn is_finished(self) -> bool {
        self.next_page == self.num_pages
    }

    pub open spec fn has_failed(self) -> bool {
        self.attempts >= PAGE_MAX_ATTEMPTS
    }

    /// Where page `n` of the range is programmed.
    pub open spec fn page_addr(self, n: int) -> int {
        self.origin + n * PAGE
    }

    /// The state after receiving `page` while page `next_page` is awaited.
    pub open spec fn step(self, page: PageView) -> PageProgrammer {
        if page_is_valid(page, self.next_page) {
            PageProgrammer {
                origin: self.origin,
                num_pages: self.num_pages,
                next_page: (self.next_page + 1) as u32,
                attempts: 0,
            }
        } else {
            PageProgrammer {
                origin: self.origin,
                num_pages: self.num_pages,
                next_page: self.next_page,
                attempts: (self.attempts + 1) as u32,
            }
        }
    }

    /// The programmer for a range: nothing accepted yet.
    pub fn new(bounds: Bounds) -> (p: Self)
        requires
            bounds.origin + bounds.length <= u32::MAX,
        ensures
            p.wf(),
            p.origin == bounds.origin,
            p.num_pages == bounds.length / PAGE,
            p.next_page == 0,
            p.attempts == 0,
    {
        PageProgrammer { origin: bounds.origin, num_pages: bounds.length / PAGE, next_page: 0, attempts: 0 }
    }

    /// What the programmer waits for now.
    pub fn next_request(&self) -> (r: Request)
        requires
            self.wf(),
        ensures
            self.has_failed() ==> r == Request::RetriesExceeded,
            !self.has_failed() && self.is_finished() ==> r == Request::Finished,
            !self.has_failed() && !self.is_finished() ==> r == (Request::Page {
                number: self.next_page,
                timeout_ms: if self.next_page == 0 { FIRST_PAGE_TIMEOUT_MS } else { PAGE_TIMEOUT_MS },
            }),
    {
        if self.attempts >= PAGE_MAX_ATTEMPTS {
            Request::RetriesExceeded
        } else if self.next_page == self.num_pages {
            Request::Finished
        } else {
            let timeout_ms = if self.next_page == 0 { FIRST_PAGE_TIMEOUT_MS } else { PAGE_TIMEOUT_MS };
            Request::Page { number: self.next_page, timeout_ms }
        }
    }

    /// Judges a received page: the awaited page is written at its address and the
    /// next one is awaited; anything else is rejected and counts as an attempt.
    pub fn on_page(&mut self, page: Page) -> (v: Verdict)
        requires
            old(self).wf(),
            !old(self).is_finished(),
            !old(self).has_failed(),
        ensures
            *final(self) == old(self).step(page@),
            final(self).wf(),
            page_is_valid(page@, old(self).next_page) <==> v is Write,
            v matches Verdict::Write { addr, data } ==> {
                &&& addr == old(self).page_addr(old(self).next_page as int)
                &&& data@ == page@.data.unwrap()
            },
    {
        if validate_page(&page, self.next_page) {
            let addr = self.origin + self.next_page * PAGE;
            self.next_page = self.next_page + 1;
            self.attempts = 0;
            match page.data {
                Some(data) => Verdict::Write { addr, data },
                None => Verdict::Rejected,
            }
        } else {
            self.attempts = self.attempts + 1;
            Verdict::Rejected
        }
    }
}

/// The programmer state after receiving `pages` in order.
pub open spec fn run(s: PageProgrammer, pages: Seq<PageView>) -> PageProgrammer
    decreases pages.len(),
{
    if pages.len() == 0 {
        s
    } else {
        run(s, pages.drop_last()).step(pages.last())
    }
}

/// The writes, as `(address, data)`, that receiving `pages` in order produces.
pub open spec fn writes(s: PageProgrammer, pages: Seq<PageView>) -> Seq<(int, Seq<u8>)>
    decreases pages.len(),
{
    if pages.len() == 0 {
        Seq::empty()
    } else {
        let before = run(s, pages.drop_last());
        let last = pages.last();
        if page_is_valid(last, before.next_page) {
            writes(s, pages.drop_last()).push((before.page_addr(before.next_page as int), last.data.unwrap()))
        } else {
            writes(s, pages.drop_last())
        }
    }
}


/// The programmer awaiting the first page of `segment`.
pub open spec fn segment_start(segment: Segment) -> PageProgrammer {
    PageProgrammer {
        origin: segment_bounds(segment).origin,
        num_pages: (segment_bounds(segment).length / PAGE) as u32,
        next_page: 0,
        attempts: 0,
    }
}

/// The writes that programming `bytes` page by page into a range starting at `origin` makes.
pub open spec fn image_writes(origin: u32, bytes: Seq<u8>) -> Seq<(int, Seq<u8>)> {
    Seq::new(bytes.len() / PAGE as nat, |i: int| (origin + i * PAGE, bytes.subrange(i * PAGE, i * PAGE + PAGE)))
}

proof fn lemma_file_prefix(bytes: Seq<u8>, segment: Segment, j: int)
    requires
        bytes.len() == segment_size(segment),
        0 <= j <= bytes.len() / PAGE as nat,
    ensures
        run(segment_start(segment), file_pages(bytes).take(j)) == (PageProgrammer {
            next_page: j as u32,
            attempts: 0,
            ..segment_start(segment)
        }),
        writes(segment_start(segment), file_pages(bytes).take(j)) == image_writes(
            segment_bounds(segment).origin,
            bytes,
        ).take(j),
    decreases j,
{
    let s = segment_start(segment);
    let pages = file_pages(bytes);
    crate::layout::lemma_segment_fits_chip(segment);
    if j == 0 {
        assert(pages.take(0) =~= Seq::<PageView>::empty());
        assert(image_writes(segment_bounds(segment).origin, bytes).take(0) =~= Seq::<(int, Seq<u8>)>::empty());
    } else {
        lemma_file_prefix(bytes, segment, j - 1);
        assert(pages.take(j).drop_last() =~= pages.take(j - 1));
        assert(pages.take(j).last() == file_page(bytes, j - 1));
        let before = run(s, pages.take(j - 1));
        assert(page_is_valid(file_page(bytes, j - 1), before.next_page));
        assert(image_writes(segment_bounds(segment).origin, bytes).take(j) =~= image_writes(
            segment_bounds(segment).origin,
            bytes,
        ).take(j - 1).push(
            (before.page_addr(before.next_page as int), file_page(bytes, j - 1).data.unwrap()),
        ));
    }
}

/// Every page that the host cuts from an image for a segment is accepted by the
/// sensor programming that segment: sent in order, the pages finish programming
/// without a single rejection, and the flash writes they cause lay the image
/// page by page, in order, from the segment's origin.
pub proof fn lemma_file_programs_segment(bytes: Seq<u8>, segment: Segment)
    requires
        bytes.len() == segment_size(segment),
    ensures
        run(segment_start(segment), file_pages(bytes)).is_finished(),
        run(segment_start(segment), file_pages(bytes)).attempts == 0,
        writes(segment_start(segment), file_pages(bytes)) == image_writes(
            segment_bounds(segment).origin,
            bytes,
        ),
{
    let n = bytes.len() / PAGE as nat;
    crate::layout::lemma_segment_fits_chip(segment);
    lemma_file_prefix(bytes, segment, n as int);
    assert(file_pages(bytes).take(n as int) =~= file_pages(bytes));
    assert(image_writes(segment_bounds(segment).origin, bytes).take(n as int) =~= image_writes(
        segment_bounds(segment).origin,
        bytes,
    ));
}

/// What the reader does on a host's page request.
#[derive(Clone, Copy, Debug, PartialEq, Eq, Structural)]
pub enum ReadoutAction {
    /// The request is past the end of the range: read-out is over.
    Finish,
    /// Read page `number` from `addr` and publish it.
    Load { number: u32, addr: u32 },
    /// The page is already published.
    Keep,
}

/// Progress of reading a flash range back to the host.
#[derive(Clone, Copy, Debug, PartialEq, Eq, Structural)]
pub struct PageReader {
    pub origin: u32,
    pub num_pages: u32,
    /// The page last read and published, if any.
    pub last_page_loaded: Option<u32>,
}

impl PageReader {
    pub open spec fn wf(self) -> bool {
        self.origin + self.num_pages * PAGE <= u32::MAX
    }

    /// The reader for a range: nothing published yet.
    pub fn new(bounds: Bounds) -> (r: Self)
        requires
            bounds.origin + bounds.length <= u32::MAX,
        ensures
            r.wf(),
            r.origin == bounds.origin,
            r.num_pages == bounds.length / PAGE,
            r.last_page_loaded.is_none(),
    {
        PageReader { origin: bounds.origin, num_pages: bounds.length / PAGE, last_page_loaded: None }
    }

    /// Answers a request for page `req_num`.
    pub fn on_request(&mut self, req_num: u32) -> (a: ReadoutAction)
        requires
            old(self).wf(),
        ensures
            final(self).wf(),
            final(self).origin == old(self).origin,
            final(self).num_pages == old(self).num_pages,
            req_num >= old(self).num_pages ==> a == ReadoutAction::Finish && *final(self) == *old(self),
            req_num < old(self).num_pages && old(self).last_page_loaded == Some(req_num) ==> a
                == ReadoutAction::Keep && *final(self) == *old(self),
            req_num < old(self).num_pages && old(self).last_page_loaded != Some(req_num) ==> {
                &&& a == (ReadoutAction::Load { number: req_num, addr: (old(self).origin + req_num * PAGE) as u32 })
                &&& final(self).last_page_loaded == Some(req_num)
            },
    {
        if req_num >= self.num_pages {
            return ReadoutAction::Finish;
        }
        let same = match self.last_page_loaded {
            Some(pg) => pg == req_num,
            None => false,
        };
        if same {
            ReadoutAction::Keep
        } else {
            self.last_page_loaded = Some(req_num);
            ReadoutAction::Load { number: req_num, addr: self.origin + req_num * PAGE }
        }
    }
}

/// Page `number` as the sensor publishes it for read-out: the data read, and its checksum.
pub open spec fn published_page(number: u32, data: Seq<u8>) -> PageView {
    PageView { page_number: Some(number), data: Some(data), crc: Some(page_crc(number, data)) }
}

/// The page published for read-out: number, data read from flash, and checksum.
pub fn readout_page(number: u32, data: Vec<u8>) -> (p: Page)
    ensures
        p@ == published_page(number, data@),
{
    let crc = compute_crc(number, data.as_slice());
    Page { page_number: Some(number), data: Some(data), crc: Some(crc) }
}

/// What programming an image writes is what read-out gives back: page `n` of
/// an image for a segment is written at the address from which the reader of
/// that segment loads page `n`, and the page published from the data found
/// there is the host's page `n` itself, checksum included.
pub proof fn lemma_readout_returns_written(bytes: Seq<u8>, segment: Segment, n: int)
    requires
        bytes.len() == segment_size(segment),
        0 <= n < bytes.len() / PAGE as nat,
    ensures
        image_writes(segment_bounds(segment).origin, bytes)[n].0 == segment_bounds(segment).origin + n * PAGE,
        published_page(n as u32, image_writes(segment_bounds(segment).origin, bytes)[n].1) == file_page(bytes, n),
{
}

} // verus!
