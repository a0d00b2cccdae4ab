use amber_sensor::camera;
use amber_sensor::console::{
    hex_dump, is_base_station, is_sensor_board, log_source, quits_input, quits_view, scrolled, sensor_title, Key,
};
use amber_sensor::fpga;
use amber_sensor::mock::{camera_state, fpga_state, sensor_state, step, FwState};
use amber_sensor::state_machine;

#[test]
fn mock_cycle() {
    assert_eq!(step(FwState::Charging, false, 10_000_000_000), (FwState::Charging, false));
    assert_eq!(step(FwState::Charging, true, 0), (FwState::Capture, true));
    assert_eq!(step(FwState::Capture, false, 1_000_000_000), (FwState::Capture, false));
    assert_eq!(step(FwState::Capture, false, 1_000_000_001), (FwState::Process, true));
    assert_eq!(step(FwState::Process, true, 2_000_000_000), (FwState::Process, false));
    assert_eq!(step(FwState::Process, false, 2_000_000_001), (FwState::Transmit, true));
    assert_eq!(step(FwState::Transmit, false, 2_500_000_000), (FwState::Charging, true));
}

#[test]
fn mock_status() {
    assert_eq!(sensor_state(FwState::Charging), state_machine::State::Charging);
    assert_eq!(sensor_state(FwState::Transmit), state_machine::State::Capture);
    assert_eq!(fpga_state(FwState::Capture), fpga::State::Booting);
    assert_eq!(fpga_state(FwState::Process), fpga::State::Running);
    assert_eq!(fpga_state(FwState::Transmit), fpga::State::Off);
    assert_eq!(camera_state(FwState::Capture), camera::State::Running);
    assert_eq!(camera_state(FwState::Process), camera::State::Off);
}

#[test]
fn quitting_keys() {
    assert!(quits_view(Key::Char('q'), false));
    assert!(quits_view(Key::Esc, false));
    assert!(quits_view(Key::Char('c'), true));
    assert!(!quits_view(Key::Char('c'), false));
    assert!(!quits_view(Key::Other, true));
    assert!(quits_input(Key::Char('q'), false));
    assert!(!quits_input(Key::Esc, false));
    assert!(quits_input(Key::Char('c'), true));
}

#[test]
fn scrolling() {
    assert_eq!(scrolled(0, true), 3);
    assert_eq!(scrolled(u16::MAX - 1, true), u16::MAX);
    assert_eq!(scrolled(10, false), 7);
    assert_eq!(scrolled(2, false), 0);
}

#[test]
fn titles_and_sources() {
    assert_eq!(sensor_title(None), "No Sensor Boards connected");
    assert_eq!(sensor_title(Some(None)), "Connected to -");
    assert_eq!(sensor_title(Some(Some("amber-1".to_string()))), "Connected to amber-1");
    assert_eq!(log_source(Some("s2".to_string())), "s2");
    assert_eq!(log_source(None), "unknown");
}

#[test]
fn serial_ports() {
    let s = |x: &str| Some(x.to_string());
    assert!(is_sensor_board(&s("amber"), &s("Sensor Board")));
    assert!(!is_sensor_board(&s("Amber"), &s("Sensor Board")));
    assert!(!is_sensor_board(&None, &s("Sensor Board")));
    assert!(is_base_station(&s("Amber"), &s("Base Station")));
    assert!(!is_base_station(&s("Amber"), &s("Sensor Board")));
}

#[test]
fn spi_traffic_text() {
    assert_eq!(hex_dump(&vec![]), "");
    assert_eq!(hex_dump(&vec![0x0a]), "0a");
    assert_eq!(hex_dump(&vec![0x00, 0xff, 0x10]), "00 ff 10");
}
