//! The simulated sensor behind the dashboard: its firmware cycle and how a
//! cycle phase shows in a sensor status. The simulated battery and power draw
//! are real-valued and live with the dashboard itself.
use vstd::prelude::*;
use crate::{camera, fpga, state_machine};

verus! {

/// Phases of the simulated firmware cycle.
#[derive(Clone, Copy, Debug, PartialEq, Eq, Structural)]
pub enum FwState {
    Charging,
    Capture,
    Process,
    Transmit,
}

/// How long the capture phase lasts, in ns.
pub const CAPTURE_NS: u64 = 1_000_000_000;
/// How long the processing phase lasts, in ns.
pub const PROCESS_NS: u64 = 2_000_000_000;
/// How long the transmit phase lasts, in ns.
pub const TRANSMIT_NS: u64 = 2_000_000_000;

/// The phase after one tick, given whether the battery is full and how long
/// the phase has lasted; `true` in the second place when a new phase starts.
pub open spec fn next_phase(state: FwState, battery_full: bool, elapsed_ns: u64) -> (FwState, bool) {
    match state {
        FwState::Charging => if battery_full { (FwState::Capture, true) } else { (state, false) },
        FwState::Capture => if elapsed_ns > CAPTURE_NS { (FwState::Process, true) } else { (state, false) },
        FwState::Process => if elapsed_ns > PROCESS_NS { (FwState::Transmit, true) } else { (state, false) },
        FwState::Transmit => if elapsed_ns > TRANSMIT_NS { (FwState::Charging, true) } else { (state, false) },
    }
}

/// One tick of the simulated cycle: charging ends once the battery is full,
/// and each later phase once it has lasted its time.
pub fn step(state: FwState, battery_full: bool, elapsed_ns: u64) -> (r: (FwState, bool))
    ensures
        r == next_phase(state, battery_full, elapsed_ns),
{
    match state {
        FwState::Charging => if battery_full { (FwState::Capture, true) } else { (state, false) },
        FwState::Capture => if elapsed_ns > CAPTURE_NS { (FwState::Process, true) } else { (state, false) },
        FwState::Process => if elapsed_ns > PROCESS_NS { (FwState::Transmit, true) } else { (state, false) },
        FwState::Transmit => if elapsed_ns > TRANSMIT_NS { (FwState::Charging, true) } else { (state, false) },
    }
}

/// The sensor state that a phase reports.
pub fn sensor_state(state: FwState) -> (s: state_machine::State)
    ensures
        s == (if state == FwState::Charging { state_machine::State::Charging } else { state_machine::State::Capture }),
{
    match state {
        FwState::Charging => state_machine::State::Charging,
        _ => state_machine::State::Capture,
    }
}

/// The FPGA state that a phase reports.
pub fn fpga_state(state: FwState) -> (s: fpga::State)
    ensures
        s == (match state {
            FwState::Capture => fpga::State::Booting,
            FwState::Process => fpga::State::Running,
            _ => fpga::State::Off,
        }),
{
    match state {
        FwState::Capture => fpga::State::Booting,
        FwState::Process => fpga::State::Running,
        _ => fpga::State::Off,
    }
}

/// The camera state that a phase reports.
pub fn camera_state(state: FwState) -> (s: camera::State)
    ensures
        s == (if state == FwState::Capture { camera::State::Running } else { camera::State::Off }),
{
    if state == FwState::Capture {
        camera::State::Running
    } else {
        camera::State::Off
    }
}

/// The cycle runs through its phases in order, and leaves a phase only by
/// going to the next: charging, capture, processing, transmit, charging again.
pub proof fn lemma_cycle_order(state: FwState, battery_full: bool, elapsed_ns: u64)
    ensures
        ({
            let (next, started) = next_phase(state, battery_full, elapsed_ns);
            &&& started <==> next != state
            &&& state == FwState::Charging && started ==> next == FwState::Capture
            &&& state == FwState::Capture && started ==> next == FwState::Process
            &&& state == FwState::Process && started ==> next == FwState::Transmit
            &&& state == FwState::Transmit && started ==> next == FwState::Charging
        }),
{
}

/// Each phase lasts as long as it should: charging ends exactly when the
/// battery is full, capture exactly once it has lasted more than 1 s, and
/// processing and transmitting exactly once each has lasted more than 2 s;
/// how full the battery is matters only while charging.
pub proof fn lemma_phase_durations(state: FwState, battery_full: bool, elapsed_ns: u64)
    ensures
        state == FwState::Charging ==> (next_phase(state, battery_full, elapsed_ns).1 <==> battery_full),
        state == FwState::Capture ==> (next_phase(state, battery_full, elapsed_ns).1 <==> elapsed_ns > 1_000_000_000),
        state == FwState::Process ==> (next_phase(state, battery_full, elapsed_ns).1 <==> elapsed_ns > 2_000_000_000),
        state == FwState::Transmit ==> (next_phase(state, battery_full, elapsed_ns).1 <==> elapsed_ns > 2_000_000_000),
        state != FwState::Charging ==> next_phase(state, battery_full, elapsed_ns) == next_phase(
            state,
            !battery_full,
            elapsed_ns,
        ),
{
}

} // verus!
