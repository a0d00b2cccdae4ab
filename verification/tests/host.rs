use amber_sensor::camera::Reg;
use amber_sensor::flash_control::{self, State as FlashState};
use amber_sensor::fpga::{self, Line};
use amber_sensor::framing::{decode_frame, encode_frame, max_encoded_len, packetize, FrameReceiver, Received, PACKET_SIZE};
use amber_sensor::nvm;
use amber_sensor::page::{make_page, Page};
use amber_sensor::session::{
    has_current_parameters, has_left_manual, is_flash_erasing, is_flash_state, is_manual, page_ack,
    page_number_of, ImageAssembler, LineVerdict, PageAck, ReadoutCheck, SensorStatus,
};
use amber_sensor::session::{flash_request, next_flash_phase, FlashPhase, FlashRequest};
use amber_sensor::state_machine;
use amber_sensor::user_params::{parse_hex, to_hex, ConversionError, Parameters, UserParameters};

#[test]
fn frame_encoding() {
    assert_eq!(encode_frame(&[0x11, 0x22, 0x00, 0x33]), vec![0x03, 0x11, 0x22, 0x02, 0x33, 0x00]);
    assert_eq!(encode_frame(&[]), vec![0x01, 0x00]);
    assert_eq!(encode_frame(&[0x00]), vec![0x01, 0x01, 0x00]);
    assert_eq!(max_encoded_len(0), 1);
    assert_eq!(max_encoded_len(254), 255);
    assert_eq!(max_encoded_len(255), 257);
}

#[test]
fn frame_roundtrip() {
    let msg: Vec<u8> = (0..600u32).map(|i| (i % 7) as u8).collect();
    let frame = encode_frame(&msg);
    assert_eq!(*frame.last().unwrap(), 0);
    assert!(frame[..frame.len() - 1].iter().all(|b| *b != 0));
    assert_eq!(decode_frame(&frame), Some(msg));
    assert_eq!(decode_frame(&[0x03, 0x11, 0x22, 0x02, 0x33, 0x00]), Some(vec![0x11, 0x22, 0x00, 0x33]));
}

#[test]
fn frame_malformed() {
    // A code byte that points past the end of the frame.
    assert_eq!(decode_frame(&[0x05, 0x11, 0x00]), None);
}

#[test]
fn packets_carry_the_frame() {
    let frame: Vec<u8> = (0..130u32).map(|i| (i + 1) as u8).collect();
    let packets = packetize(&frame);
    assert_eq!(packets.len(), 4);
    assert_eq!(packets[0], frame[..PACKET_SIZE].to_vec());
    assert_eq!(packets[1], frame[PACKET_SIZE..2 * PACKET_SIZE].to_vec());
    assert_eq!(packets[2], frame[128..].to_vec());
    assert!(packets[3].is_empty());
    let joined: Vec<u8> = packets.concat();
    assert_eq!(joined, frame);
    assert_eq!(packetize(&[]), vec![Vec::<u8>::new()]);
}

#[test]
fn hex_values() {
    assert_eq!(parse_hex(&"0x1A".to_string()), Ok(0x1a));
    assert_eq!(parse_hex(&"0x1a".to_string()), Ok(0x1a));
    assert_eq!(parse_hex(&"0xff".to_string()), Ok(0xff));
    assert_eq!(parse_hex(&"0x0".to_string()), Ok(0));
    assert_eq!(parse_hex(&"0x+7".to_string()), Ok(7));
    assert_eq!(parse_hex(&"0x000ff".to_string()), Ok(0xff));
    for bad in ["0x100", "1A", "0x", "0x+", "0xg1", "0X1A", "0x-1", " 0x1", "0x1 ", "0x1é"] {
        assert_eq!(parse_hex(&bad.to_string()), Err(ConversionError::InvalidHex(bad.to_string())));
    }
}

#[test]
fn hex_text() {
    assert_eq!(to_hex(0x1a), "0x1a");
    assert_eq!(to_hex(0), "0x00");
    assert_eq!(to_hex(0xff), "0xff");
    for v in 0..=255u8 {
        assert_eq!(parse_hex(&to_hex(v)), Ok(v));
    }
}

fn params(name: &str, settings: Vec<u32>) -> Parameters {
    Parameters { name: name.to_string(), supercapacitor_uf: 1234, camera_settings: settings }
}

#[test]
fn parameters_for_the_user() {
    let u = UserParameters::from(params("amber", vec![0x8012, 0x4a03, 0x0155, 0x7712]));
    assert_eq!(u.name, "amber");
    assert_eq!(u.supercapacitor_uf, 1234);
    // 0x55 is no known register; the later COM7 value replaces the earlier one.
    assert_eq!(u.camera_settings, vec![(Reg::COM7, "0x77".to_string()), (Reg::VREF, "0x4a".to_string())]);
}

#[test]
fn parameters_roundtrip() {
    let p = params("sensor1", vec![0x8012, 0x4a03, 0x01a2]);
    let back = Parameters::try_from(UserParameters::from(params("sensor1", p.camera_settings.clone())));
    assert_eq!(back, Ok(p));
}

#[test]
fn user_parameters_stored() {
    let u = UserParameters {
        name: "cam".to_string(),
        supercapacitor_uf: 5,
        camera_settings: vec![(Reg::CLKRC, "0x01".to_string()), (Reg::SCALING_PCLK_DELAY, "0X2".to_string())],
    };
    assert_eq!(Parameters::try_from(u), Err(ConversionError::InvalidHex("0X2".to_string())));
    let u = UserParameters {
        name: "cam".to_string(),
        supercapacitor_uf: 5,
        camera_settings: vec![(Reg::CLKRC, "0x01".to_string()), (Reg::SCALING_PCLK_DELAY, "0x2".to_string())],
    };
    let expected = Parameters { name: "cam".to_string(), supercapacitor_uf: 5, camera_settings: vec![0x0111, 0x02a2] };
    assert_eq!(Parameters::try_from(u), Ok(expected));
}

#[test]
fn name_too_long() {
    let u = UserParameters { name: "12345678".to_string(), supercapacitor_uf: 0, camera_settings: vec![] };
    assert_eq!(Parameters::try_from(u), Err(ConversionError::NameTooLong));
    // The limit counts bytes: seven characters of two bytes each are too many.
    let u = UserParameters { name: "ééééééé".to_string(), supercapacitor_uf: 0, camera_settings: vec![] };
    assert_eq!(Parameters::try_from(u), Err(ConversionError::NameTooLong));
    // The name is checked before the settings.
    let u = UserParameters {
        name: "12345678".to_string(),
        supercapacitor_uf: 0,
        camera_settings: vec![(Reg::COM3, "bad".to_string())],
    };
    assert_eq!(Parameters::try_from(u), Err(ConversionError::NameTooLong));
    let u = UserParameters { name: "1234567".to_string(), supercapacitor_uf: 0, camera_settings: vec![] };
    assert!(Parameters::try_from(u).is_ok());
}

fn flash_status(state: FlashState, rn: Option<u32>) -> flash_control::Status {
    flash_control::Status { state, stm_page_request: rn, readout_page: None }
}

#[test]
fn programming_acknowledgement() {
    assert_eq!(page_ack(3, 10, &flash_status(FlashState::Programming, Some(4))), PageAck::Taken);
    assert_eq!(page_ack(3, 10, &flash_status(FlashState::Programming, Some(3))), PageAck::Waiting);
    assert_eq!(page_ack(3, 10, &flash_status(FlashState::Programming, None)), PageAck::Waiting);
    assert_eq!(page_ack(9, 10, &flash_status(FlashState::Done, None)), PageAck::Taken);
    assert_eq!(page_ack(3, 10, &flash_status(FlashState::Done, None)), PageAck::Aborted);
    assert_eq!(page_ack(u32::MAX, 0, &flash_status(FlashState::Off, None)), PageAck::Aborted);
}

#[test]
fn readout_verification() {
    let sent0 = make_page(0, vec![1; 4]);
    let sent1 = make_page(1, vec![2; 4]);
    let mut check = ReadoutCheck::new();
    assert!(!check.on_readout_page(&sent0, make_page(1, vec![2; 4])));
    assert!(check.data.is_empty());
    assert!(check.on_readout_page(&sent0, make_page(0, vec![1; 4])));
    let corrupt = make_page(1, vec![2, 2, 2, 3]);
    assert!(check.on_readout_page(&sent1, corrupt.clone()));
    assert_eq!(check.data, vec![1, 1, 1, 1, 2, 2, 2, 3]);
    assert_eq!(check.errors.len(), 1);
    assert_eq!(check.errors[0].expected_crc, sent1.crc.unwrap());
    assert_eq!(check.errors[0].page, corrupt);
    assert!(!check.succeeded());
    let empty = Page { page_number: None, data: None, crc: None };
    assert_eq!(page_number_of(&empty), 0);
}

#[test]
fn image_lines_in_order() {
    let mut img = ImageAssembler::new();
    assert_eq!(img.offer(&Line { number: 1, data: vec![9; 3] }), LineVerdict::WrongLine);
    assert_eq!(img.offer(&Line { number: 0, data: vec![1, 2] }), LineVerdict::Taken);
    assert_eq!(img.offer(&Line { number: 1, data: vec![3] }), LineVerdict::Taken);
    assert_eq!(img.next_line, 2);
    assert_eq!(img.image, vec![1, 2, 3]);
    while !img.is_complete() {
        let n = img.next_line;
        assert_eq!(img.offer(&Line { number: n, data: vec![0; 320] }), LineVerdict::Taken);
    }
    assert_eq!(img.image.len(), 3 + 238 * 320);
}

fn fpga_status(state: fpga::State, flash: FlashState) -> fpga::Status {
    fpga::Status {
        state,
        flash: flash_status(flash, None),
        line: None,
        spi_tx: None,
        spi_rx: None,
        vessels: None,
    }
}

#[test]
fn status_conditions() {
    let manual = SensorStatus { name: None, state: state_machine::State::Manual, fpga: None, nvm: None };
    assert!(is_manual(&manual) && !has_left_manual(&manual));
    assert!(!is_flash_erasing(&manual));
    let erasing = SensorStatus {
        name: None,
        state: state_machine::State::Manual,
        fpga: Some(fpga_status(fpga::State::SpiFlash, FlashState::Erasing)),
        nvm: None,
    };
    assert!(is_flash_erasing(&erasing));
    assert!(is_flash_state(&erasing, FlashState::Erasing));
    assert!(!is_flash_state(&erasing, FlashState::Programming));
    let booting = SensorStatus {
        name: None,
        state: state_machine::State::Charging,
        fpga: Some(fpga_status(fpga::State::Booting, FlashState::Erasing)),
        nvm: None,
    };
    assert!(!is_flash_erasing(&booting) && has_left_manual(&booting));
    let with_params = SensorStatus {
        name: None,
        state: state_machine::State::Manual,
        fpga: None,
        nvm: Some(nvm::Status { state: nvm::State::Ready, current_parameters: Some(nvm::default_parameters()) }),
    };
    assert!(has_current_parameters(&with_params));
    assert!(!has_current_parameters(&manual));
}

#[test]
fn host_moves_on_when_the_sensor_takes_a_page() {
    let mut prog = amber_sensor::programmer::PageProgrammer::new(amber_sensor::layout::get_bounds(
        amber_sensor::layout::Segment::Fpga,
    ));
    let good = make_page(0, vec![3; 256]);
    let mut bad = make_page(0, vec![3; 256]);
    bad.crc = Some(1);
    prog.on_page(bad);
    let status = flash_status(FlashState::Programming, Some(prog.next_page));
    assert_eq!(page_ack(0, 512, &status), PageAck::Waiting);
    prog.on_page(good);
    let status = flash_status(FlashState::Programming, Some(prog.next_page));
    assert_eq!(page_ack(0, 512, &status), PageAck::Taken);
}

#[test]
fn host_parameters_go_to_the_sensor_and_back() {
    let p = params("cam", vec![0x0111, 0x02a2]);
    let stored = nvm::Parameters::from_host(&p).unwrap();
    assert_eq!(stored.name.as_str(), "cam");
    assert_eq!(stored.supercapacitor_uf, 1234);
    assert_eq!(stored.camera_settings.as_slice(), &[0x0111, 0x02a2]);
    assert_eq!(stored.to_host(), p);
}

#[test]
fn host_parameters_that_do_not_fit_are_refused() {
    assert!(nvm::Parameters::from_host(&params("1234567", vec![])).is_some());
    assert!(nvm::Parameters::from_host(&params("12345678", vec![])).is_none());
    assert!(nvm::Parameters::from_host(&params("é", vec![0; 19])).is_some());
    assert!(nvm::Parameters::from_host(&params("éééé", vec![])).is_none());
    assert!(nvm::Parameters::from_host(&params("cam", vec![0; 20])).is_none());
}

fn manual_with(flash: Option<flash_control::Status>) -> SensorStatus {
    SensorStatus {
        name: None,
        state: state_machine::State::Manual,
        fpga: flash.map(|f| fpga::Status { state: fpga::State::SpiFlash, flash: f, line: None, spi_tx: None, spi_rx: None, vessels: None }),
        nvm: None,
    }
}

#[test]
fn flashing_session_walks_its_phases_in_order() {
    let n = 2;
    let left = SensorStatus { name: None, state: state_machine::State::Charging, fpga: None, nvm: None };
    let manual = manual_with(None);
    let mut phase = FlashPhase::Resetting;
    assert_eq!(flash_request(phase), FlashRequest::Monitor);
    assert_eq!(next_flash_phase(phase, n, &manual), FlashPhase::Resetting);
    phase = next_flash_phase(phase, n, &left);
    assert_eq!(phase, FlashPhase::EnteringManual);
    assert_eq!(flash_request(phase), FlashRequest::Manual);
    phase = next_flash_phase(phase, n, &manual);
    assert_eq!(phase, FlashPhase::Activating);
    assert_eq!(flash_request(phase), FlashRequest::StartProgramming);
    phase = next_flash_phase(phase, n, &manual_with(Some(flash_status(FlashState::Erasing, None))));
    assert_eq!(phase, FlashPhase::Erasing);
    assert_eq!(flash_request(phase), FlashRequest::Nothing);
    phase = next_flash_phase(phase, n, &manual_with(Some(flash_status(FlashState::Programming, Some(0)))));
    assert_eq!(phase, FlashPhase::Programming(0));
    assert_eq!(flash_request(phase), FlashRequest::Page(0));
    // The sensor still waits for page 0: no progress.
    assert_eq!(next_flash_phase(phase, n, &manual_with(Some(flash_status(FlashState::Programming, Some(0))))), phase);
    phase = next_flash_phase(phase, n, &manual_with(Some(flash_status(FlashState::Programming, Some(1)))));
    assert_eq!(phase, FlashPhase::Programming(1));
    phase = next_flash_phase(phase, n, &manual_with(Some(flash_status(FlashState::Idle, None))));
    assert_eq!(phase, FlashPhase::StartingReadout);
    assert_eq!(flash_request(phase), FlashRequest::StartReadout);
    phase = next_flash_phase(phase, n, &manual_with(Some(flash_status(FlashState::Readout, None))));
    assert_eq!(phase, FlashPhase::Verifying(0));
    assert_eq!(flash_request(phase), FlashRequest::RequestPage(0));
    let read = |number: u32| {
        let mut f = flash_status(FlashState::Readout, None);
        f.readout_page = Some(make_page(number, vec![0; 256]));
        manual_with(Some(f))
    };
    // A page with another number does not count.
    assert_eq!(next_flash_phase(phase, n, &read(1)), phase);
    phase = next_flash_phase(phase, n, &read(0));
    assert_eq!(phase, FlashPhase::Verifying(1));
    phase = next_flash_phase(phase, n, &read(1));
    assert_eq!(phase, FlashPhase::Exiting);
    assert_eq!(flash_request(phase), FlashRequest::Monitor);
    assert_eq!(next_flash_phase(phase, n, &manual), phase);
    phase = next_flash_phase(phase, n, &left);
    assert_eq!(phase, FlashPhase::Done);
}

#[test]
fn flashing_an_empty_image_skips_pages() {
    let programming = manual_with(Some(flash_status(FlashState::Programming, Some(0))));
    assert_eq!(next_flash_phase(FlashPhase::Erasing, 0, &programming), FlashPhase::StartingReadout);
    let readout = manual_with(Some(flash_status(FlashState::Readout, None)));
    assert_eq!(next_flash_phase(FlashPhase::StartingReadout, 0, &readout), FlashPhase::Exiting);
}

#[test]
fn receiver_takes_a_frame_over_several_packets() {
    let message: Vec<u8> = (0..150u32).map(|i| (i % 7) as u8).collect();
    let frame = encode_frame(&message);
    let packets = packetize(&frame);
    assert_eq!(packets.len(), 4);
    let mut rx = FrameReceiver::new();
    let outcomes: Vec<Received> = packets.iter().map(|p| rx.push(p)).collect();
    assert_eq!(outcomes[0], Received::Hungry);
    assert_eq!(outcomes[1], Received::Hungry);
    assert_eq!(outcomes[2], Received::Frame(message));
    assert_eq!(outcomes[3], Received::Hungry);
    assert!(rx.pending.is_empty());
}

#[test]
fn receiver_skips_zeros_and_drops_the_rest_of_a_packet() {
    let mut rx = FrameReceiver::new();
    // Zeros between frames are skipped; bytes after a terminator are dropped.
    assert_eq!(rx.push(&[0, 0, 0x03, 0x11, 0x22, 0x00, 0x02, 0x33, 0x00]), Received::Frame(vec![0x11, 0x22]));
    assert!(rx.pending.is_empty());
    // A frame cut short by a zero is malformed.
    assert_eq!(rx.push(&[0x05, 0x11]), Received::Hungry);
    assert_eq!(rx.pending, vec![0x05, 0x11]);
    assert_eq!(rx.push(&[0x00, 0x02, 0x44, 0x00]), Received::Invalid);
    assert!(rx.pending.is_empty());
    assert_eq!(rx.push(&[0x02, 0x44, 0x00]), Received::Frame(vec![0x44]));
}
