use amber_sensor::board_flash;
use amber_sensor::camera::{
    configuration_frames, read_register_frame, write_register_frame, SCCB_ADDRESS,
    get_default_settings, midh_matches, pack_camera_settings, packed_copy, packed_from_vec, packed_to_vec,
    unpack_camera_settings, CameraControl, PackedSettings, Reg, Settings, State as CameraState,
};
use amber_sensor::comms::Comms;
use amber_sensor::debug_led::{pulses, LedControl, Pattern, Sequence};
use amber_sensor::flash_control::{
    Action as FlashAction, BoardFlashControl, Command as FlashCommand, FlashControl, Operation,
    State as FlashState, Trigger,
};
use amber_sensor::flow::{ChangeSignal, Debouncer, StateLock};
use amber_sensor::fpga::{
    backscatter_message, capture_steps, state_after, CaptureStep, capture_command, line_log, line_request, parse_vessels, Action, Backscatter,
    CaptureSource, Centroid, Command, DataRequest, FpgaControl, Line, RunMode, State, Vessels,
};
use amber_sensor::fpga_flash::{
    self, check_bounds, check_id, erase_plan, page_program_header, sector_erase_header, subsector_erase_header,
    Error, ErrorKind, Id, StatusRegister,
};
use amber_sensor::layout::Segment;
use amber_sensor::nvm::{
    self, default_parameters, parameters_or_default, NvmControl, Parameters, DEFAULT_SUPERCAPACITOR_UF,
};
use amber_sensor::page::make_page;
use amber_sensor::power::{Power, PowerSignal};
use amber_sensor::state_machine::{self, capture_allowed, NormalState, SensorState};

#[test]
fn camera_registers() {
    assert_eq!(Reg::COM7.addr(), 0x12);
    assert_eq!(Reg::SCALING_PCLK_DELAY.addr(), 0xa2);
    assert_eq!(Reg::from_repr(0x12), Some(Reg::COM7));
    assert_eq!(Reg::from_repr(0x13), None);
    assert!(midh_matches(0x7f));
    assert!(!midh_matches(0x7e));
}

#[test]
fn camera_settings_pack_and_unpack() {
    let settings: Settings = heapless::Vec::from_slice(&[(Reg::COM7, 0x80), (Reg::VREF, 0x0a)]).unwrap();
    let packed = pack_camera_settings(&settings);
    assert_eq!(packed.as_slice(), &[0x8012, 0x0a03]);
    assert_eq!(unpack_camera_settings(&packed), settings);
    // Words for unknown registers are skipped.
    let words: PackedSettings = heapless::Vec::from_slice(&[0x55, 0x0111]).unwrap();
    assert_eq!(unpack_camera_settings(&words).as_slice(), &[(Reg::CLKRC, 0x01)]);
    let defaults = get_default_settings();
    assert_eq!(defaults.len(), 18);
    assert_eq!(defaults[0], (Reg::CLKRC, 0x00));
    assert_eq!(defaults[12], (Reg::HSTART, 22));
    assert_eq!(defaults[17], (Reg::VREF, 10));
    assert_eq!(unpack_camera_settings(&pack_camera_settings(&defaults)), defaults);
    assert_eq!(packed_to_vec(&packed), vec![0x8012, 0x0a03]);
    assert_eq!(packed_from_vec(&vec![1, 2, 3]).as_slice(), &[1, 2, 3]);
    assert_eq!(packed_copy(&packed), packed);
}

#[test]
fn camera_power() {
    let mut c = CameraControl::new();
    assert!(c.is_off());
    assert!(!c.is_running());
    assert_eq!(c.get_status().state, CameraState::Off);
    c.turn_on();
    assert_eq!(c.power.pending, Some(Power::On(())));
    c.turn_off();
    assert_eq!(c.power.pending, Some(Power::Off));
}

#[test]
fn default_parameters_hold_default_camera_settings() {
    let p = default_parameters();
    assert_eq!(p.name, "unknown");
    assert_eq!(p.supercapacitor_uf, DEFAULT_SUPERCAPACITOR_UF);
    assert_eq!(unpack_camera_settings(&p.camera_settings), get_default_settings());
    assert_eq!(parameters_or_default(None), p);
    let mine = params("x", 1, &[]);
    assert_eq!(parameters_or_default(Some(mine)).name, "x");
    assert_eq!(p.duplicate(), p);
}

fn params(name: &str, uf: u32, settings: &[u32]) -> Parameters {
    Parameters {
        name: heapless::String::try_from(name).unwrap(),
        supercapacitor_uf: uf,
        camera_settings: heapless::Vec::from_slice(settings).unwrap(),
    }
}

fn nvm_command(action: nvm::Action, new: Option<Parameters>) -> nvm::Command {
    nvm::Command { action: Some(action), new_parameters: new }
}

#[test]
fn parameter_store_commands() {
    let current = params("cam1", 7, &[0x0111]);
    let mut store = NvmControl::new(current);
    assert_eq!(store.get_name(), "cam1");
    assert_eq!(store.get_camera_settings().as_slice(), &[(Reg::CLKRC, 0x01)]);
    assert!(store.get_status().current_parameters.is_none());

    store.handle_command(nvm_command(nvm::Action::Read, None));
    let s = store.get_status();
    assert_eq!(s.current_parameters.unwrap().name, "cam1");
    assert!(store.get_status().current_parameters.is_none());

    store.handle_command(nvm_command(nvm::Action::ResetCamera, None));
    let queued = store.take_new_parameters().unwrap();
    assert_eq!(queued.name, "cam1");
    assert_eq!(queued.supercapacitor_uf, 7);
    assert_eq!(unpack_camera_settings(&queued.camera_settings), get_default_settings());

    let written = params("new", 9, &[]);
    store.handle_command(nvm_command(nvm::Action::Write, Some(written)));
    let w = store.take_new_parameters().unwrap();
    store.commit(w);
    assert_eq!(store.state, nvm::State::Cooldown);
    assert_eq!(store.get_status().current_parameters.unwrap().name, "new");
    // While cooling down, writes are not taken.
    store.handle_command(nvm_command(nvm::Action::ResetAll, None));
    assert!(store.take_new_parameters().is_none());
    store.end_cooldown();
    store.handle_command(nvm_command(nvm::Action::ResetAll, None));
    assert_eq!(store.take_new_parameters(), Some(default_parameters()));
}

#[test]
fn fpga_commands() {
    assert_eq!(capture_command(CaptureSource::Camera), 0x05);
    assert_eq!(capture_command(CaptureSource::FakeVga), 0x04);
    assert_eq!(capture_command(CaptureSource::FakeSram), 0x03);
    assert_eq!(line_request(0), [0x02, 0x00, 0x00]);
    assert_eq!(line_request(1), [0x02, 0x00, 0xa0]);
    assert_eq!(line_request(239), [0x02, 0x95, 0x60]);
    let v = parse_vessels(&[2, 0x34, 0x12, 0x01, 0x00]);
    assert_eq!(v, Vessels { count: 2, centroids: vec![Centroid { x: 0x1234, y: 1 }] });
    assert_eq!(backscatter_message(&v), Backscatter { x: 0x1234, y: 1 });
    assert_eq!(backscatter_message(&Vessels { count: 0, centroids: vec![] }), Backscatter { x: 0, y: 0 });
    let data: Vec<u8> = (0..320u32).map(|i| i as u8).collect();
    assert_eq!(line_log(&data), data[..64].to_vec());
}

fn fpga_command(action: Action, source: Option<CaptureSource>) -> Command {
    Command { action: Some(action), capture_source: source, data_request: None, flash: None }
}

#[test]
fn fpga_control() {
    let mut fpga = FpgaControl::new();
    let mut flash = FlashControl::new();
    assert!(fpga.is_off() && !fpga.is_done());
    fpga.handle_command(&mut flash, fpga_command(Action::Capture, Some(CaptureSource::Unspecified)));
    assert_eq!(fpga.power.pending, None);
    fpga.handle_command(&mut flash, fpga_command(Action::Capture, Some(CaptureSource::FakeVga)));
    assert_eq!(
        fpga.power.pending,
        Some(Power::On(RunMode::Capture(CaptureSource::FakeVga, DataRequest::Vessels)))
    );
    fpga.capture(DataRequest::Image);
    assert_eq!(fpga.power.pending, Some(Power::On(RunMode::Capture(CaptureSource::Camera, DataRequest::Image))));
    fpga.turn_off();
    assert_eq!(fpga.power.pending, Some(Power::Off));

    // Flash commands reach the flash task only in SPI flash mode.
    let flash_cmd = FlashCommand {
        action: Some(FlashAction::Program),
        segment: Some(Segment::User),
        page: None,
        host_page_request: None,
    };
    let cmd = Command { action: None, capture_source: None, data_request: None, flash: Some(flash_cmd.clone()) };
    fpga.handle_command(&mut flash, cmd);
    assert_eq!(flash.operation, None);
    fpga.state = State::SpiFlash;
    let cmd = Command { action: None, capture_source: None, data_request: None, flash: Some(flash_cmd) };
    fpga.handle_command(&mut flash, cmd);
    assert_eq!(flash.operation, Some(Operation::Flash(Segment::User)));

    fpga.lines.push(Line { number: 4, data: vec![1] });
    fpga.log_spi_tx(vec![9]);
    let s = fpga.get_status(flash.get_status());
    assert_eq!(s.line, Some(Line { number: 4, data: vec![1] }));
    assert_eq!(s.spi_tx, Some(vec![9]));
    assert_eq!(s.spi_rx, None);
    assert!(fpga.lines.is_empty());
}

#[test]
fn spi_log_is_bounded() {
    let mut fpga = FpgaControl::new();
    for i in 0..20u8 {
        fpga.log_spi_rx(vec![i]);
    }
    assert_eq!(fpga.spi_rx.len(), 8);
    assert_eq!(fpga.spi_rx[7], vec![7]);
}

#[test]
fn flash_task_requests() {
    let mut flash = FlashControl::new();
    let p1 = make_page(0, vec![1]);
    let p2 = make_page(1, vec![2]);
    flash.handle_command(FlashCommand { action: None, segment: None, page: Some(p1.clone()), host_page_request: Some(3) });
    flash.handle_command(FlashCommand { action: None, segment: None, page: Some(p2), host_page_request: None });
    assert_eq!(flash.readout_request, Some(3));
    assert_eq!(flash.receive_page(), Some(p1));
    assert_eq!(flash.receive_page(), None);
    flash.state = FlashState::Programming;
    flash.rn = 5;
    let s = flash.get_status();
    assert_eq!(s.stm_page_request, Some(5));
    assert_eq!(s.readout_page, None);
    flash.state = FlashState::Readout;
    flash.readout_page = Some(make_page(2, vec![3]));
    let s = flash.get_status();
    assert_eq!(s.stm_page_request, None);
    assert_eq!(s.readout_page, Some(make_page(2, vec![3])));
}

#[test]
fn board_flash_task_requests() {
    let mut b = BoardFlashControl::new();
    assert_eq!(b.get_state(), FlashState::Idle);
    b.start();
    assert_eq!(b.trigger, Some(Trigger::Flash));
    b.start_readout();
    assert_eq!(b.trigger, Some(Trigger::Readout));
    b.accept_page(make_page(0, vec![]));
    b.accept_page(make_page(1, vec![]));
    assert_eq!(b.page_inbox, Some(make_page(0, vec![])));
    b.set_readout_req_number(12);
    assert_eq!(b.readout_request, Some(12));
    b.set_state(FlashState::Done);
    assert!(b.is_done());
    assert_eq!(b.get_status().state, FlashState::Done);
}

#[test]
fn spi_flash_framing() {
    assert_eq!(fpga_flash::header(fpga_flash::Command::PageProgram, 0x0012_3456), [0x02, 0x12, 0x34, 0x56]);
    assert_eq!(board_flash::header(board_flash::Command::PageErase, 0x0001_0200), [0xdb, 0x01, 0x02, 0x00]);
    assert_eq!(page_program_header(0x000f_ff00, 0x100), Ok([0x02, 0x0f, 0xff, 0x00]));
    assert_eq!(page_program_header(0x000f_ff01, 0x100), Err(Error::OutOfBounds));
    assert_eq!(check_bounds(0x10_0000, 0), Ok(()));
    assert_eq!(subsector_erase_header(0x2000), Ok([0x20, 0x00, 0x20, 0x00]));
    assert_eq!(subsector_erase_header(0x2100), Err(Error::NotAligned));
    assert_eq!(sector_erase_header(0x2_0000), Ok([0xd8, 0x02, 0x00, 0x00]));
    assert_eq!(sector_erase_header(0x2000), Err(Error::NotAligned));
    assert_eq!(Error::NotAligned.kind(), ErrorKind::NotAligned);
    assert_eq!(Error::OutOfBounds.kind(), ErrorKind::OutOfBounds);
    assert_eq!(Error::PeripheralFailure(fpga_flash::SpiError::Crc).kind(), ErrorKind::Other);
    assert_eq!(fpga_flash::capacity(), 0x10_0000);
}

#[test]
fn erase_ranges() {
    assert_eq!(erase_plan(0x1000, 0x3001), Ok(vec![0x1000, 0x2000, 0x3000]));
    assert_eq!(erase_plan(0x1000, 0x3000), Ok(vec![0x1000, 0x2000]));
    assert_eq!(erase_plan(0x1000, 0x1000), Ok(vec![]));
    assert_eq!(erase_plan(0x1001, 0x3000), Err(Error::NotAligned));
    assert_eq!(erase_plan(0x1001, 0x1000), Ok(vec![]));
}

#[test]
fn status_register_bits() {
    assert!(StatusRegister(0b01).busy());
    assert!(!StatusRegister(0b10).busy());
    assert!(StatusRegister(0b10).write_enable_latch());
    assert!(!StatusRegister(0b01).write_enable_latch());
    assert!(board_flash::StatusRegister(0b11).busy());
    assert!(board_flash::StatusRegister(0b11).write_enable_latch());
}

#[test]
fn chip_identification() {
    assert_eq!(check_id(Id::from_bytes(&[0xef, 0x40, 0x14])), Ok(()));
    assert_eq!(check_id(Id::from_bytes(&[0xef, 0x40, 0x15])), Err(Error::UnxpectedId));
    assert_eq!(Id::expected(), Id { manufacturer: 0xef, memory_type: 0x40, capacity: 0x14 });
    assert_eq!(board_flash::read_id_request(), [0x9f, 0, 0, 0]);
    assert_eq!(
        board_flash::id_from_response(&[0xff, 0x20, 0x80, 0x11]),
        board_flash::Id::from_bytes(&[0x20, 0x80, 0x11])
    );
    let dev = board_flash::id::Id::expected();
    assert_eq!((dev.manufacturer_id, dev.memory_type, dev.capacity), (0x20, 0x80, 0x11));
    let pcb = board_flash::id::Id::expected_pcb();
    assert_eq!((pcb.manufacturer_id, pcb.memory_type, pcb.capacity), (0x3f, 0x40, 0x14));
}

#[test]
fn sensor_state_forwards_only_in_manual() {
    let mut s = SensorState::new();
    assert_eq!(s.get_state(), state_machine::State::LowCharge);
    assert_eq!(s.get_last_charge_ms(), 0);
    let cmd = state_machine::Command {
        action: Some(state_machine::Action::Manual),
        fpga: Some(fpga_command(Action::Off, None)),
        nvm: None,
    };
    let f = s.handle_command(cmd);
    assert_eq!(f.fpga, None);
    assert_eq!(s.normal_state.take(), Some(NormalState::Manual));
    s.enter_manual();
    let cmd = state_machine::Command { action: None, fpga: Some(fpga_command(Action::Off, None)), nvm: None };
    let f = s.handle_command(cmd);
    assert_eq!(f.fpga, Some(fpga_command(Action::Off, None)));
    // A repeated mode is not announced again.
    let cmd = state_machine::Command { action: Some(state_machine::Action::Manual), fpga: None, nvm: None };
    s.handle_command(cmd);
    assert_eq!(s.normal_state.take(), None);
    s.enter_charging();
    s.record_capture_interval(12_345);
    assert_eq!(s.get_last_charge_ms(), 12_345);
    s.enter_low_power();
    assert_eq!(s.get_last_charge_ms(), 0);
    assert!(capture_allowed(4800));
    assert!(!capture_allowed(4799));
}

#[test]
fn led_patterns() {
    assert_eq!(pulses(0), vec![(true, 1)]);
    assert_eq!(pulses(2), vec![(true, 1), (false, 150), (true, 1)]);
    assert_eq!(Sequence::Toggle.pattern(), Pattern::Repeat(vec![(true, 500), (false, 500)]));
    assert_eq!(Sequence::LowCharge.pattern(), Pattern::Repeat(vec![(true, 1), (false, 2000)]));
    assert_eq!(
        Sequence::Manual.pattern(),
        Pattern::Repeat(vec![(true, 1), (false, 150), (true, 1), (false, 500), (true, 1), (false, 1500)])
    );
    assert_eq!(Sequence::On.pattern(), Pattern::Steady(true));
    let mut led = LedControl::new();
    led.send(Sequence::Monitor);
    led.send(Sequence::Manual);
    led.take_up();
    assert_eq!(led.current, Sequence::Manual);
    assert_eq!(led.pending, None);
}

#[test]
fn signals() {
    let mut p: PowerSignal<u8> = PowerSignal::new();
    p.turn_on(3);
    assert_eq!(p.take_on(), Some(3));
    p.turn_off();
    assert_eq!(p.take_on(), None);
    p.turn_off();
    assert!(p.take_off());
    assert!(!p.take_off());

    let mut c = ChangeSignal::new(1u32);
    c.set(1);
    assert_eq!(c.take(), None);
    c.set(2);
    assert_eq!(c.get(), 2);
    assert_eq!(c.take(), Some(2));

    let mut l = StateLock::new(FlashState::Off);
    l.set(FlashState::Idle);
    assert!(l.is(FlashState::Idle));
    assert_eq!(l.get(), FlashState::Idle);

    let mut comms = Comms::new();
    comms.send(Backscatter { x: 1, y: 2 });
    comms.send(Backscatter { x: 3, y: 4 });
    assert_eq!(comms.take(), Some(Backscatter { x: 3, y: 4 }));
    assert_eq!(comms.take(), None);
}

#[test]
fn capture_runs() {
    let steps = capture_steps(CaptureSource::Camera, DataRequest::Vessels);
    assert_eq!(
        steps,
        vec![
            CaptureStep::Boot,
            CaptureStep::SelectSource(0x05),
            CaptureStep::StartCamera,
            CaptureStep::Trigger,
            CaptureStep::AwaitData,
            CaptureStep::StopCamera,
            CaptureStep::ReadVessels(0x06),
            CaptureStep::Hold,
        ]
    );
    let steps = capture_steps(CaptureSource::FakeVga, DataRequest::Image);
    assert_eq!(steps.len(), 4 + 240);
    assert_eq!(steps[1], CaptureStep::SelectSource(0x04));
    assert_eq!(steps[3], CaptureStep::AwaitData);
    assert_eq!(steps[4], CaptureStep::ReadLine(0));
    assert_eq!(steps[243], CaptureStep::ReadLine(239));
    let steps = capture_steps(CaptureSource::FakeSram, DataRequest::Unspecified);
    assert_eq!(steps.len(), 4);
    assert_eq!(state_after(CaptureStep::Boot), State::Running);
    assert_eq!(state_after(CaptureStep::Trigger), State::Running);
    assert_eq!(state_after(CaptureStep::AwaitData), State::DataReady);
    assert_eq!(state_after(CaptureStep::ReadLine(3)), State::DataReady);
}

#[test]
fn capture_results_for_the_host() {
    let mut fpga = FpgaControl::new();
    assert!(fpga.queue_line(Line { number: 0, data: vec![1] }));
    assert!(fpga.queue_line(Line { number: 1, data: vec![2] }));
    assert!(!fpga.queue_line(Line { number: 2, data: vec![3] }));
    assert_eq!(fpga.lines.len(), 2);
    fpga.publish_vessels(Vessels { count: 1, centroids: vec![Centroid { x: 1, y: 1 }] });
    fpga.publish_vessels(Vessels { count: 2, centroids: vec![Centroid { x: 5, y: 6 }] });
    fpga.set_state(State::DataReady);
    assert!(fpga.is_done());
    let s = fpga.get_status(FlashControl::new().get_status());
    assert_eq!(s.line, Some(Line { number: 0, data: vec![1] }));
    assert_eq!(s.vessels, Some(Vessels { count: 2, centroids: vec![Centroid { x: 5, y: 6 }] }));
    assert!(fpga.vessels.is_none());
}

#[test]
fn camera_bus_frames() {
    assert_eq!(SCCB_ADDRESS, 0x21);
    assert_eq!(write_register_frame(Reg::COM7, 0x80), [0x12, 0x80]);
    assert_eq!(read_register_frame(Reg::MIDH), [0x1c]);
    let frames = configuration_frames(&get_default_settings());
    assert_eq!(frames.len(), 18);
    assert_eq!(frames[0], [0x11, 0x00]);
    assert_eq!(frames[4], [0x40, 0xc0]);
    assert_eq!(frames[17], [0x03, 10]);
}

#[test]
fn edge_debouncing() {
    let mut d = Debouncer::new(150);
    // Edges within the timeout of start-up do not count.
    assert!(!d.rising_edge(100));
    assert!(d.rising_edge(1000));
    assert!(!d.rising_edge(1100));
    assert!(!d.rising_edge(1150));
    assert!(d.rising_edge(1151));
    assert!(d.falling_edge(200));
    assert!(!d.falling_edge(350));
    assert_eq!(d.last_rise, 1151);
    assert_eq!(d.last_fall, 200);
}

#[test]
fn parameter_storage_layout() {
    assert_eq!(nvm::length_field(0x0102_0304), [4, 3, 2, 1, 0, 0, 0, 0]);
    let field = nvm::length_field(77);
    assert_eq!(nvm::read_length(&[field[0], field[1], field[2], field[3]]), 77);
    assert_eq!(nvm::param_size(61), 64);
    assert_eq!(nvm::param_size(64), 64);
    assert_eq!(nvm::erase_range(64), (0x3_8000, 0x3_8400));
    assert_eq!(nvm::erase_range(0x3f8), (0x3_8000, 0x3_8400));
    assert_eq!(nvm::erase_range(0x3f9), (0x3_8000, 0x3_8800));
    assert_eq!(nvm::NVM_ORIGIN - nvm::FLASH_ORIGIN, nvm::NVM_OFFSET);
    assert_eq!(board_flash::SECTOR_SIZE * board_flash::NUM_SECTORS, board_flash::TOTAL_SIZE);
}

#[test]
fn flash_task_bookkeeping() {
    let mut flash = FlashControl::new();
    flash.handle_command(FlashCommand {
        action: Some(FlashAction::Readout),
        segment: Some(Segment::Qvga2),
        page: None,
        host_page_request: Some(4),
    });
    assert_eq!(flash.take_operation(), Some(Operation::Readout(Segment::Qvga2)));
    assert_eq!(flash.take_operation(), None);
    assert_eq!(flash.take_readout_request(), Some(4));
    assert_eq!(flash.take_readout_request(), None);
}
