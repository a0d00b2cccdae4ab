use amber_sensor::flash_file::{Error, FlashFile};
use amber_sensor::layout::{get_bounds, Bounds, Segment, PAGE, SUBSECTOR};
use amber_sensor::page::{compute_crc, make_page, u32_to_le_bytes, validate_page, Page};
use amber_sensor::programmer::{
    readout_page, PageProgrammer, PageReader, ReadoutAction, Request, Verdict, FIRST_PAGE_TIMEOUT_MS,
    PAGE_MAX_ATTEMPTS, PAGE_TIMEOUT_MS,
};

#[test]
fn segment_bounds() {
    assert_eq!(get_bounds(Segment::Fpga), Bounds { origin: 0, length: 32 * 0x1000 });
    assert_eq!(get_bounds(Segment::Qvga0), Bounds { origin: 32 * 0x1000, length: 40 * 0x1000 });
    assert_eq!(get_bounds(Segment::Qvga1), Bounds { origin: 72 * 0x1000, length: 40 * 0x1000 });
    assert_eq!(get_bounds(Segment::Qvga2), Bounds { origin: 112 * 0x1000, length: 40 * 0x1000 });
    assert_eq!(get_bounds(Segment::User), Bounds { origin: 152 * 0x1000, length: 40 * 0x1000 });
    assert_eq!(get_bounds(Segment::Dfu), Bounds { origin: 192 * 0x1000, length: 64 * 0x1000 });
    assert_eq!(get_bounds(Segment::Qvga3), Bounds { origin: 0, length: 0 });
    assert_eq!(get_bounds(Segment::Qvga4), Bounds { origin: 0, length: 0 });
}

#[test]
fn bounds_arithmetic() {
    let b = Bounds::from_subsectors(2, 3);
    assert_eq!(b, Bounds { origin: 2 * SUBSECTOR, length: 3 * SUBSECTOR });
    assert_eq!(b.end(), 5 * SUBSECTOR);
    assert_eq!(b.num_pages(), 3 * SUBSECTOR / PAGE);
    assert_eq!(b.num_subsectors(), 3);
    let dfu = get_bounds(Segment::Dfu);
    assert_eq!(dfu.end(), 0x10_0000);
    assert_eq!(dfu.num_pages(), 1024);
}

#[test]
fn page_checksum_is_crc32_of_number_and_data() {
    // CRC-32/ISO-HDLC of 00 00 00 00 followed by "123456789".
    assert_eq!(compute_crc(0, b"123456789"), 0x2289_6b0a);
    assert_eq!(compute_crc(1, &[0u8; 256]), 0xed61_91fc);
    assert_eq!(u32_to_le_bytes(0x1234_5678), [0x78, 0x56, 0x34, 0x12]);
}

#[test]
fn page_validation() {
    let p = make_page(7, vec![1, 2, 3]);
    assert_eq!(p.page_number, Some(7));
    assert_eq!(p.crc, Some(compute_crc(7, &[1, 2, 3])));
    assert!(validate_page(&p, 7));
    assert!(!validate_page(&p, 8));
    let mut bad = p.clone();
    bad.crc = Some(p.crc.unwrap() ^ 1);
    assert!(!validate_page(&bad, 7));
    let missing = Page { page_number: Some(7), data: None, crc: p.crc };
    assert!(!validate_page(&missing, 7));
}

#[test]
fn file_is_padded_to_its_segment() {
    let f = FlashFile::from_bytes(vec![0xab; 300], Segment::Fpga, 0x00).ok().unwrap();
    assert_eq!(f.size(), 32 * 0x1000);
    assert_eq!(f.num_pages(), 512);
    assert_eq!(f.segment(), Segment::Fpga);
    let p0 = f.page(0);
    assert_eq!(p0.page_number, Some(0));
    assert_eq!(p0.data, Some(vec![0xab; 256]));
    assert_eq!(p0.crc, Some(0x5f26_bb2b));
    let p1 = f.page(1);
    let mut expected = vec![0xab; 44];
    expected.extend_from_slice(&[0u8; 212]);
    assert_eq!(p1.data, Some(expected));
}

#[test]
fn file_too_large() {
    match FlashFile::from_bytes(vec![0; 32 * 0x1000 + 1], Segment::Fpga, 0) {
        Err(Error::TooLarge { length, segment_size }) => {
            assert_eq!(length, 32 * 0x1000 + 1);
            assert_eq!(segment_size, 32 * 0x1000);
        }
        Ok(_) => panic!("a file larger than its segment must be refused"),
    }
    assert!(FlashFile::from_bytes(vec![1], Segment::Qvga3, 0).is_err());
}

#[test]
fn page_iterator_walks_pages_in_order() {
    let f = FlashFile::from_bytes(vec![5; 1000], Segment::Fpga, 0xff).ok().unwrap();
    let mut it = f.pages();
    let mut n: u32 = 0;
    while let Some(p) = it.next() {
        assert_eq!(p.page_number, Some(n));
        assert!(validate_page(&p, n));
        n += 1;
    }
    assert_eq!(n, 512);
    assert!(it.next().is_none());
}

#[test]
fn programmer_takes_a_file_page_by_page() {
    let bytes: Vec<u8> = (0..2000u32).map(|i| (i % 251) as u8).collect();
    let f = FlashFile::from_bytes(bytes.clone(), Segment::Qvga1, 0).ok().unwrap();
    let bounds = get_bounds(Segment::Qvga1);
    let mut prog = PageProgrammer::new(bounds);
    let mut image: Vec<u8> = Vec::new();
    let mut it = f.pages();
    let mut expected_addr = bounds.origin;
    while let Some(page) = it.next() {
        let n = page.page_number.unwrap();
        let timeout = if n == 0 { FIRST_PAGE_TIMEOUT_MS } else { PAGE_TIMEOUT_MS };
        assert_eq!(prog.next_request(), Request::Page { number: n, timeout_ms: timeout });
        match prog.on_page(page) {
            Verdict::Write { addr, data } => {
                assert_eq!(addr, expected_addr);
                image.extend_from_slice(&data);
            }
            Verdict::Rejected => panic!("a page of the file was rejected"),
        }
        expected_addr += PAGE;
    }
    assert_eq!(prog.next_request(), Request::Finished);
    assert_eq!(&image[..2000], &bytes[..]);
    assert!(image[2000..].iter().all(|b| *b == 0));
    assert_eq!(image.len(), 40 * 0x1000);
}

#[test]
fn programmer_gives_up_after_too_many_bad_pages() {
    let mut prog = PageProgrammer::new(get_bounds(Segment::Fpga));
    let wrong = make_page(3, vec![0; 256]);
    for attempt in 0..PAGE_MAX_ATTEMPTS {
        assert_eq!(prog.attempts, attempt);
        assert_eq!(prog.on_page(wrong.clone()), Verdict::Rejected);
    }
    assert_eq!(prog.next_request(), Request::RetriesExceeded);
}

#[test]
fn programmer_retry_resets_attempts() {
    let mut prog = PageProgrammer::new(get_bounds(Segment::Fpga));
    let mut bad = make_page(0, vec![9; 256]);
    bad.crc = Some(0);
    assert_eq!(prog.on_page(bad), Verdict::Rejected);
    assert_eq!(prog.attempts, 1);
    assert!(matches!(prog.on_page(make_page(0, vec![9; 256])), Verdict::Write { addr: 0, .. }));
    assert_eq!(prog.attempts, 0);
    assert_eq!(prog.next_page, 1);
}

#[test]
fn reader_answers_requests() {
    let mut r = PageReader::new(get_bounds(Segment::Qvga0));
    assert_eq!(r.on_request(2), ReadoutAction::Load { number: 2, addr: 32 * 0x1000 + 2 * PAGE });
    assert_eq!(r.on_request(2), ReadoutAction::Keep);
    assert_eq!(r.on_request(3), ReadoutAction::Load { number: 3, addr: 32 * 0x1000 + 3 * PAGE });
    assert_eq!(r.on_request(640), ReadoutAction::Finish);
    let p = readout_page(3, vec![1, 2]);
    assert!(validate_page(&p, 3));
}

#[test]
fn readout_returns_what_was_programmed() {
    let bytes: Vec<u8> = (0..700u32).map(|i| (i * 7 % 256) as u8).collect();
    let f = FlashFile::from_bytes(bytes, Segment::User, 0xff).ok().unwrap();
    let bounds = get_bounds(Segment::User);
    let mut prog = PageProgrammer::new(bounds);
    let mut flash: Vec<u8> = vec![0; 0x10_0000];
    let mut it = f.pages();
    while let Some(page) = it.next() {
        if let Verdict::Write { addr, data } = prog.on_page(page) {
            flash[addr as usize..addr as usize + data.len()].copy_from_slice(&data);
        }
    }
    let mut reader = PageReader::new(bounds);
    for n in [0u32, 1, 2, 639] {
        match reader.on_request(n) {
            ReadoutAction::Load { number, addr } => {
                let data = flash[addr as usize..(addr + PAGE) as usize].to_vec();
                assert_eq!(readout_page(number, data), f.page(n as usize));
            }
            other => panic!("unexpected {other:?}"),
        }
    }
}

#[test]
fn segments_do_not_overlap() {
    let all = [
        Segment::Fpga,
        Segment::Qvga0,
        Segment::Qvga1,
        Segment::Qvga2,
        Segment::Qvga3,
        Segment::Qvga4,
        Segment::User,
        Segment::Dfu,
    ];
    for a in all {
        let ba = get_bounds(a);
        assert!(ba.end() <= 0x10_0000);
        assert_eq!(ba.origin % SUBSECTOR, 0);
        for b in all {
            if a != b {
                let bb = get_bounds(b);
                assert!(ba.end() <= bb.origin || bb.end() <= ba.origin);
            }
        }
    }
}
