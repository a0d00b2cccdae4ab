//! Flash pages as exchanged between host and sensor, and their checksum.
use vstd::prelude::*;

verus! {

/// A page of flash data as carried by a message: each field may be missing.
#[derive(Clone, Debug, PartialEq, Eq)]
pub struct Page {
    pub page_number: Option<u32>,
    pub data: Option<Vec<u8>>,
    pub crc: Option<u32>,
}

/// The mathematical content of a [`Page`].
pub struct PageView {
    pub page_number: Option<u32>,
    pub data: Option<Seq<u8>>,
    pub crc: Option<u32>,
}

impl View for Page {
    type V = PageView;

    open spec fn view(&self) -> PageView {
        PageView {
            page_number: self.page_number,
            data: match self.data {
                Some(d) => Some(d@),
                None => None,
            },
            crc: self.crc,
        }
    }
}

impl Page {
    /// A copy of the page.
    pub fn duplicate(&self) -> (p: Page)
        ensures
            p@ == self@,
    {
        let data = match &self.data {
            Some(d) => {
                let mut c: Vec<u8> = Vec::new();
                let mut i: usize = 0;
                while i < d.len()
                    invariant
                        i <= d@.len(),
                        c@ == d@.subrange(0, i as int),
                    decreases d@.len() - i,
                {
                    c.push(d[i]);
                    i = i + 1;
                    assert(c@ =~= d@.subrange(0, i as int));
                }
                assert(d@.subrange(0, d@.len() as int) =~= d@);
                Some(c)
            },
            None => None,
        };
        Page { page_number: self.page_number, data, crc: self.crc }
    }
}

/// The CRC-32/ISO-HDLC checksum (the common "CRC-32") of a byte sequence.
pub uninterp spec fn crc32_iso_hdlc(bytes: Seq<u8>) -> u32;

/// Calls `crc::Crc::<u32>::checksum` with the `crc::CRC_32_ISO_HDLC` algorithm.
/// Trusted: the result is the checksum of exactly the bytes given, nothing more is claimed.
#[verifier::external_body]
fn crc32_checksum(bytes: &[u8]) -> (c: u32)
    ensures
        c == crc32_iso_hdlc(bytes@),
{
    crc::Crc::<u32>::new(&crc::CRC_32_ISO_HDLC).checksum(bytes)
}

/// Little-endian bytes of a `u32`.
pub open spec fn le_bytes(x: u32) -> Seq<u8> {
    seq![
        (x % 0x100) as u8,
        ((x / 0x100) % 0x100) as u8,
        ((x / 0x1_0000) % 0x100) as u8,
        (x / 0x100_0000) as u8,
    ]
}

/// The bytes over which a page's checksum is taken: its number, then its data.
pub open spec fn page_message(page_number: u32, data: Seq<u8>) -> Seq<u8> {
    le_bytes(page_number) + data
}

/// The checksum that a page numbered `page_number` carrying `data` must have.
pub open spec fn page_crc(page_number: u32, data: Seq<u8>) -> u32 {
    crc32_iso_hdlc(page_message(page_number, data))
}

/// The four bytes of a page number, least significant first, read back
/// little-endian, give the number again; each byte is below 256.
pub proof fn lemma_le_bytes_reassemble(x: u32)
    ensures
        le_bytes(x).len() == 4,
        le_bytes(x)[0] + 0x100 * le_bytes(x)[1] + 0x1_0000 * le_bytes(x)[2] + 0x100_0000 * le_bytes(x)[3] == x,
{
    let v = x as int;
    assert(v == v % 0x100 + 0x100 * ((v / 0x100) % 0x100) + 0x1_0000 * ((v / 0x1_0000) % 0x100) + 0x100_0000 * (v
        / 0x100_0000)) by (nonlinear_arith)
        requires
            0 <= v < 0x1_0000_0000;
}

/// Little-endian bytes of a `u32`, computed.
pub fn u32_to_le_bytes(x: u32) -> (b: [u8; 4])
    ensures
        b@ == le_bytes(x),
{
    let b = [
        (x % 0x100) as u8,
        ((x / 0x100) % 0x100) as u8,
        ((x / 0x1_0000) % 0x100) as u8,
        (x / 0x100_0000) as u8,
    ];
    assert(b@ =~= le_bytes(x));
    b
}

/// Checksum of a page: CRC-32/ISO-HDLC over the little-endian page number followed by the data.
pub fn compute_crc(page_number: u32, data: &[u8]) -> (c: u32)
    ensures
        c == page_crc(page_number, data@),
{
    let head = u32_to_le_bytes(page_number);
    let mut msg: Vec<u8> = Vec::new();
    msg.push(head[0]);
    msg.push(head[1]);
    msg.push(head[2]);
    msg.push(head[3]);
    let mut i: usize = 0;
    while i < data.len()
        invariant
            i <= data@.len(),
            msg@ == le_bytes(page_number) + data@.subrange(0, i as int),
        decreases data@.len() - i,
    {
        msg.push(data[i]);
        i = i + 1;
        assert(msg@ =~= le_bytes(page_number) + data@.subrange(0, i as int));
    }
    assert(data@.subrange(0, data@.len() as int) =~= data@);
    crc32_checksum(msg.as_slice())
}

/// A page is accepted as page number `expected` when it carries that number,
/// data, and a checksum equal to the checksum of that number and data.
pub open spec fn page_is_valid(page: PageView, expected: u32) -> bool {
    &&& page.page_number == Some(expected)
    &&& page.data is Some
    &&& page.crc == Some(page_crc(expected, page.data.unwrap()))
}

/// Checks a received page against the page number that is awaited.
pub fn validate_page(page: &Page, expected: u32) -> (ok: bool)
    ensures
        ok == page_is_valid(page@, expected),
{
    let num = match page.page_number {
        Some(n) => n,
        None => return false,
    };
    if num != expected {
        return false;
    }
    let data = match &page.data {
        Some(d) => d,
        None => return false,
    };
    let exp_crc = match page.crc {
        Some(c) => c,
        None => return false,
    };
    compute_crc(num, data.as_slice()) == exp_crc
}

/// A page holding `data`, numbered `page_number`, with its checksum filled in.
pub fn make_page(page_number: u32, data: Vec<u8>) -> (p: Page)
    ensures
        p@.page_number == Some(page_number),
        p@.data == Some(data@),
        p@.crc == Some(page_crc(page_number, data@)),
        page_is_valid(p@, page_number),
{
    let crc = compute_crc(page_number, data.as_slice());
    Page { page_number: Some(page_number), data: Some(data), crc: Some(crc) }
}

} // verus!
