use amber_sensor::camera::{
    get_default_settings, CameraAction, CameraControl, CameraEvent, CameraRun, Reg, State as CameraState,
};
use amber_sensor::flash_control::{BoardFlashControl, FlashControl, Operation, State, Trigger};
use amber_sensor::flash_task::{Job, JobAction, JobEvent};
use amber_sensor::layout::{get_bounds, Segment, PAGE};
use amber_sensor::page::make_page;
use amber_sensor::state_machine::{Action, Command, ModeAction, ModeEvent, NormalState, SensorState};

fn step_fpga(c: &mut FlashControl, job: Job, e: JobEvent) -> (Job, JobAction) {
    c.on_job_event(job, e)
}

#[test]
fn fpga_flash_erases_then_programs_in_order() {
    let mut c = FlashControl::new();
    let (mut job, action) = c.begin_job(Operation::Flash(Segment::Qvga0));
    let b = get_bounds(Segment::Qvga0);
    assert!(matches!(action, JobAction::Erase { from, to } if from == b.origin && to == b.end()));
    assert_eq!(c.state, State::Erasing);
    // A page before the erase is over is not written.
    let (j, a) = step_fpga(&mut c, job, JobEvent::Page(make_page(0, vec![1; 256])));
    assert!(matches!(a, JobAction::Wait));
    job = j;
    let (j, a) = step_fpga(&mut c, job, JobEvent::Erased);
    assert!(matches!(a, JobAction::AwaitPage { number: 0, timeout_ms: 5000 }));
    assert_eq!(c.state, State::Programming);
    assert_eq!(c.get_status().stm_page_request, Some(0));
    job = j;
    let (j, a) = step_fpga(&mut c, job, JobEvent::Page(make_page(0, vec![1; 256])));
    assert!(matches!(a, JobAction::Write { addr, ref data } if addr == b.origin && data.len() == 256));
    // Still asking for page 0 until the write is done.
    assert_eq!(c.get_status().stm_page_request, Some(0));
    job = j;
    let (j, a) = step_fpga(&mut c, job, JobEvent::Written);
    assert!(matches!(a, JobAction::AwaitPage { number: 1, timeout_ms: 500 }));
    assert_eq!(c.get_status().stm_page_request, Some(1));
    job = j;
    let (j, a) = step_fpga(&mut c, job, JobEvent::Timeout);
    assert!(matches!(a, JobAction::Failed));
    assert_eq!(j, Job::Ended);
    assert_eq!(c.state, State::Idle);
}

#[test]
fn fpga_flash_gives_up_after_bad_pages() {
    let mut c = FlashControl::new();
    let (job, _) = c.begin_job(Operation::Flash(Segment::Fpga));
    let (mut job, _) = c.on_job_event(job, JobEvent::Erased);
    for _ in 0..4 {
        let (j, a) = c.on_job_event(job, JobEvent::Page(make_page(3, vec![0; 256])));
        assert!(matches!(a, JobAction::AwaitPage { number: 0, .. }));
        job = j;
    }
    let (j, a) = c.on_job_event(job, JobEvent::Page(make_page(3, vec![0; 256])));
    assert!(matches!(a, JobAction::Failed));
    assert_eq!(j, Job::Ended);
}

#[test]
fn empty_segment_completes_after_erase() {
    let mut c = FlashControl::new();
    let (job, _) = c.begin_job(Operation::Flash(Segment::Qvga3));
    let (j, a) = c.on_job_event(job, JobEvent::Erased);
    assert!(matches!(a, JobAction::Finished));
    assert_eq!(j, Job::Ended);
    assert_eq!(c.state, State::Idle);
}

#[test]
fn operation_requested_during_a_job_is_dropped_when_it_ends() {
    let mut c = FlashControl::new();
    let (job, _) = c.begin_job(Operation::Flash(Segment::Qvga3));
    c.operation = Some(Operation::Readout(Segment::User));
    let (_, a) = c.on_job_event(job, JobEvent::Erased);
    assert!(matches!(a, JobAction::Finished));
    assert_eq!(c.operation, None);

    let (job, _) = c.begin_job(Operation::Flash(Segment::Fpga));
    c.operation = Some(Operation::Readout(Segment::User));
    let (_, a) = c.on_job_event(job, JobEvent::SpiError);
    assert!(matches!(a, JobAction::Failed));
    assert_eq!(c.operation, None);
    assert_eq!(c.state, State::Idle);
}

#[test]
fn fpga_readout_loads_publishes_and_ends() {
    let mut c = FlashControl::new();
    c.readout_request = Some(7);
    let (job, a) = c.begin_job(Operation::Readout(Segment::User));
    assert!(matches!(a, JobAction::AwaitRequest));
    assert_eq!(c.readout_request, None);
    assert_eq!(c.state, State::Readout);
    let (job, a) = c.on_job_event(job, JobEvent::Request(2));
    let origin = get_bounds(Segment::User).origin;
    assert!(matches!(a, JobAction::Load { number: 2, addr } if addr == origin + 2 * PAGE));
    let (job, a) = c.on_job_event(job, JobEvent::Loaded { number: 2, data: vec![4; 256] });
    assert!(matches!(a, JobAction::Publish(_)));
    assert_eq!(c.get_status().readout_page, Some(make_page(2, vec![4; 256])));
    let (job, a) = c.on_job_event(job, JobEvent::Request(2));
    assert!(matches!(a, JobAction::AwaitRequest));
    let (job, a) = c.on_job_event(job, JobEvent::Request(640));
    assert!(matches!(a, JobAction::Finished));
    assert_eq!(job, Job::Ended);
    assert_eq!(c.state, State::Idle);
    assert_eq!(c.readout_page, None);
}

#[test]
fn board_flash_done_only_after_all_pages() {
    let mut c = BoardFlashControl::new();
    c.start();
    let t = c.take_trigger().unwrap();
    let (mut job, a) = c.begin_job(t);
    assert!(matches!(a, JobAction::EraseChip));
    let (j, _) = c.on_job_event(job, JobEvent::Erased);
    job = j;
    for n in 0..512u32 {
        assert_eq!(c.get_status().stm_page_request, Some(n));
        let (j, a) = c.on_job_event(job, JobEvent::Page(make_page(n, vec![n as u8; 256])));
        assert!(matches!(a, JobAction::Write { addr, .. } if addr == n * 256));
        assert!(!c.is_done());
        let (j, a) = c.on_job_event(j, JobEvent::Written);
        job = j;
        if n < 511 {
            assert!(matches!(a, JobAction::AwaitPage { .. }));
        } else {
            assert!(matches!(a, JobAction::Finished));
        }
    }
    assert!(c.is_done());
}

#[test]
fn board_flash_failure_is_not_done() {
    let mut c = BoardFlashControl::new();
    let (job, _) = c.begin_job(Trigger::Flash);
    let (job, _) = c.on_job_event(job, JobEvent::Erased);
    let (j, a) = c.on_job_event(job, JobEvent::SpiError);
    assert!(matches!(a, JobAction::Failed));
    assert_eq!(j, Job::Ended);
    assert_eq!(c.get_state(), State::Programming);
    assert!(!c.is_done());
}

#[test]
fn board_readout_ends_past_last_page() {
    let mut c = BoardFlashControl::new();
    c.start_readout();
    let trigger = c.take_trigger().unwrap();
    let (job, _) = c.begin_job(trigger);
    c.set_readout_req_number(3);
    c.set_readout_req_number(5);
    let req = c.readout_request.take().unwrap();
    assert_eq!(req, 5);
    let (job, a) = c.on_job_event(job, JobEvent::Request(req));
    assert!(matches!(a, JobAction::Load { number: 5, addr: 0x500 }));
    let (job, _) = c.on_job_event(job, JobEvent::Loaded { number: 5, data: vec![1; 256] });
    assert!(c.get_status().readout_page.is_some());
    let (job, a) = c.on_job_event(job, JobEvent::Request(512));
    assert!(matches!(a, JobAction::Finished));
    assert_eq!(job, Job::Ended);
    assert!(c.is_done());
    assert_eq!(c.readout_page, None);
}

#[test]
fn camera_comes_up_in_order() {
    let settings = get_default_settings();
    let mut cam = CameraControl::new();
    let run = CameraRun { answered: false, written: 0 };
    let (run, a) = cam.on_event(run, &settings, CameraEvent::ResetDone);
    assert_eq!(a, CameraAction::Idle);
    assert_eq!(cam.take_power_event(), None);
    cam.turn_on();
    let powered = cam.take_power_event().unwrap();
    assert_eq!(powered, CameraEvent::PoweredOn);
    let (run, a) = cam.on_event(run, &settings, powered);
    assert_eq!(a, CameraAction::Probe);
    assert_eq!(cam.state, CameraState::Booting);
    let (run, a) = cam.on_event(run, &settings, CameraEvent::Probed(None));
    assert_eq!(a, CameraAction::Probe);
    let (run, a) = cam.on_event(run, &settings, CameraEvent::Probed(Some(0x7e)));
    assert_eq!(a, CameraAction::Probe);
    let (run, a) = cam.on_event(run, &settings, CameraEvent::Probed(Some(0x7f)));
    assert_eq!(a, CameraAction::Reset);
    assert_eq!(cam.state, CameraState::Booting);
    let (mut run, a) = cam.on_event(run, &settings, CameraEvent::ResetDone);
    assert_eq!(a, CameraAction::Write(Reg::CLKRC, 0x00));
    assert_eq!(cam.state, CameraState::Configuring);
    let (r, a) = cam.on_event(run, &settings, CameraEvent::Settled);
    assert_eq!(a, CameraAction::Idle);
    run = r;
    for k in 1..settings.len() {
        let (r, a) = cam.on_event(run, &settings, CameraEvent::Written);
        assert_eq!(a, CameraAction::Write(settings[k].0, settings[k].1));
        run = r;
    }
    let (run, a) = cam.on_event(run, &settings, CameraEvent::Written);
    assert_eq!(a, CameraAction::Settle);
    let (run, _) = cam.on_event(run, &settings, CameraEvent::Settled);
    assert!(cam.is_running());
    cam.turn_off();
    let off = cam.take_power_event().unwrap();
    let (_, _) = cam.on_event(run, &settings, off);
    assert!(cam.is_off());
}

#[test]
fn top_level_mode_follows_battery_and_host() {
    let mut s = SensorState::new();
    assert_eq!(s.on_event(ModeEvent::ModeChanged), ModeAction::Stay);
    assert_eq!(s.on_event(ModeEvent::BatteryOk), ModeAction::RunMonitor);
    assert_eq!(s.get_state(), amber_sensor::state_machine::State::Charging);
    s.record_capture_interval(900);
    s.handle_command(Command { action: Some(Action::Manual), fpga: None, nvm: None });
    assert_eq!(s.on_event(ModeEvent::ModeChanged), ModeAction::RunManual);
    assert_eq!(s.get_state(), amber_sensor::state_machine::State::Manual);
    assert_eq!(s.normal_state.pending, None);
    assert_eq!(s.normal_state.current, NormalState::Manual);
    assert_eq!(s.on_event(ModeEvent::BatteryOk), ModeAction::Stay);
    assert_eq!(s.on_event(ModeEvent::BatteryLow), ModeAction::LowPower);
    assert_eq!(s.get_state(), amber_sensor::state_machine::State::LowCharge);
    assert_eq!(s.get_last_charge_ms(), 0);
    assert_eq!(s.on_event(ModeEvent::BatteryLow), ModeAction::Stay);
    assert_eq!(s.on_event(ModeEvent::BatteryOk), ModeAction::RunManual);
}
