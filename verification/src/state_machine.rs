//! The sensor's top-level mode: low charge, monitoring, or manual control by the host.
use vstd::prelude::*;
use vstd::std_specs::cmp::PartialEqSpecImpl;
use crate::flow::ChangeSignal;
use crate::{fpga, nvm};

verus! {

/// The sensor's top-level state, as reported to the host.
#[derive(Clone, Copy, Debug, PartialEq, Eq, Structural)]
pub enum State {
    LowCharge,
    Manual,
    Charging,
    Capture,
}

/// The mode to run in while the battery allows.
#[derive(Clone, Copy, Debug)]
pub enum NormalState {
    Monitor,
    Manual,
}

impl PartialEq for NormalState {
    fn eq(&self, other: &Self) -> (r: bool) {
        match (self, other) {
            (NormalState::Monitor, NormalState::Monitor) => true,
            (NormalState::Manual, NormalState::Manual) => true,
            _ => false,
        }
    }
}

impl PartialEqSpecImpl for NormalState {
    open spec fn obeys_eq_spec() -> bool {
        true
    }

    open spec fn eq_spec(&self, other: &NormalState) -> bool {
        *self == *other
    }
}

/// Top-level actions that the host can ask for.
#[derive(Clone, Copy, Debug, PartialEq, Eq, Structural)]
pub enum Action {
    Unspecified,
    Manual,
    Monitor,
}

/// A command from the host to the sensor.
#[derive(Debug, PartialEq, Eq)]
pub struct Command {
    pub action: Option<Action>,
    pub fpga: Option<fpga::Command>,
    pub nvm: Option<nvm::Command>,
}

/// The parts of a host command to hand on to the subsystems.
#[derive(Debug, PartialEq, Eq)]
pub struct Forwarded {
    pub fpga: Option<fpga::Command>,
    pub nvm: Option<nvm::Command>,
}

/// Battery voltage needed to start a capture, in mV.
pub const MIN_CAPTURE_VBAT_MV: u32 = 4800;

/// The sensor's top-level state machine.
#[derive(Clone, Copy, Debug)]
pub struct SensorState {
    pub state: State,
    pub normal_state: ChangeSignal<NormalState>,
    /// Duration of the last charge-and-capture cycle, in ms; 0 when none completed.
    pub last_capture_interval: u32,
}

impl SensorState {
    /// The sensor at power-up: low charge, monitoring when charged.
    pub fn new() -> (s: Self)
        ensures
            s.state == State::LowCharge,
            s.normal_state.current == NormalState::Monitor,
            s.normal_state.pending.is_none(),
            s.last_capture_interval == 0,
    {
        SensorState {
            state: State::LowCharge,
            normal_state: ChangeSignal::new(NormalState::Monitor),
            last_capture_interval: 0,
        }
    }

    pub fn get_state(&self) -> (s: State)
        ensures
            s == self.state,
    {
        self.state
    }

    pub fn get_last_charge_ms(&self) -> (ms: u32)
        ensures
            ms == self.last_capture_interval,
    {
        self.last_capture_interval
    }

    /// Takes in a command from the host: `Manual` and `Monitor` select the
    /// normal mode (a change is announced); the FPGA and parameter-store parts
    /// are handed on only while the sensor is under manual control.
    pub fn handle_command(&mut self, command: Command) -> (f: Forwarded)
        ensures
            final(self).state == old(self).state,
            final(self).last_capture_interval == old(self).last_capture_interval,
            command.action == Some(Action::Manual) ==> {
                &&& final(self).normal_state.current == NormalState::Manual
                &&& old(self).normal_state.current != NormalState::Manual ==> final(self).normal_state.pending
                    == Some(NormalState::Manual)
                &&& old(self).normal_state.current == NormalState::Manual ==> final(self).normal_state
                    == old(self).normal_state
            },
            command.action == Some(Action::Monitor) ==> {
                &&& final(self).normal_state.current == NormalState::Monitor
                &&& old(self).normal_state.current != NormalState::Monitor ==> final(self).normal_state.pending
                    == Some(NormalState::Monitor)
                &&& old(self).normal_state.current == NormalState::Monitor ==> final(self).normal_state
                    == old(self).normal_state
            },
            command.action != Some(Action::Manual) && command.action != Some(Action::Monitor)
                ==> final(self).normal_state == old(self).normal_state,
            old(self).state == State::Manual ==> f.fpga == command.fpga && f.nvm == command.nvm,
            old(self).state != State::Manual ==> f.fpga.is_none() && f.nvm.is_none(),
    {
        match command.action {
            Some(Action::Manual) => self.normal_state.set(NormalState::Manual),
            Some(Action::Monitor) => self.normal_state.set(NormalState::Monitor),
            _ => {},
        }
        if self.state == State::Manual {
            Forwarded { fpga: command.fpga, nvm: command.nvm }
        } else {
            Forwarded { fpga: None, nvm: None }
        }
    }

    /// The battery is too low: stop, and forget the last cycle's duration.
    pub fn enter_low_power(&mut self)
        ensures
            final(self).state == State::LowCharge,
            final(self).last_capture_interval == 0,
            final(self).normal_state == old(self).normal_state,
    {
        self.state = State::LowCharge;
        self.last_capture_interval = 0;
    }

    /// The host has taken control.
    pub fn enter_manual(&mut self)
        ensures
            final(self).state == State::Manual,
            final(self).last_capture_interval == old(self).last_capture_interval,
            final(self).normal_state == old(self).normal_state,
    {
        self.state = State::Manual;
    }

    /// Monitoring: charging until a capture is possible.
    pub fn enter_charging(&mut self)
        ensures
            final(self).state == State::Charging,
            final(self).last_capture_interval == old(self).last_capture_interval,
            final(self).normal_state == old(self).normal_state,
    {
        self.state = State::Charging;
    }

    /// Monitoring: a capture is under way.
    pub fn enter_capture(&mut self)
        ensures
            final(self).state == State::Capture,
            final(self).last_capture_interval == old(self).last_capture_interval,
            final(self).normal_state == old(self).normal_state,
    {
        self.state = State::Capture;
    }

    /// A charge-and-capture cycle finished after `elapsed_ms`.
    pub fn record_capture_interval(&mut self, elapsed_ms: u32)
        ensures
            final(self).last_capture_interval == elapsed_ms,
            final(self).state == old(self).state,
            final(self).normal_state == old(self).normal_state,
    {
        self.last_capture_interval = elapsed_ms;
    }
}

/// Monitoring starts a capture only once the battery holds enough charge.
pub fn capture_allowed(vbat_mv: u32) -> (ok: bool)
    ensures
        ok == (vbat_mv >= MIN_CAPTURE_VBAT_MV),
{
    vbat_mv >= MIN_CAPTURE_VBAT_MV
}

/// What the top-level task learns.
#[derive(Clone, Copy, Debug, PartialEq, Eq, Structural)]
pub enum ModeEvent {
    /// The battery holds enough charge (the charge-good line went high).
    BatteryOk,
    /// The battery ran low (the charge-good line stayed low past its debounce).
    BatteryLow,
    /// The host changed the normal mode (a change was announced).
    ModeChanged,
}

/// What the top-level task does next.
#[derive(Clone, Copy, Debug, PartialEq, Eq, Structural)]
pub enum ModeAction {
    /// Power the FPGA down and show the low-charge LED pattern, repeatedly.
    LowPower,
    /// Power the FPGA down and leave the sensor to the host.
    RunManual,
    /// Power the FPGA down and run the monitoring loop.
    RunMonitor,
    /// Go on as before.
    Stay,
}

/// The top-level state and action for running the normal mode `mode`.
pub open spec fn enter_mode(mode: NormalState) -> (State, ModeAction) {
    match mode {
        NormalState::Manual => (State::Manual, ModeAction::RunManual),
        NormalState::Monitor => (State::Charging, ModeAction::RunMonitor),
    }
}

impl SensorState {
    /// Takes an event of the top-level task. A low battery stops everything
    /// (state LowCharge, last interval forgotten); a good battery, or a new
    /// normal mode while running, (re)starts the normal mode in effect: Manual
    /// for manual control, Charging for monitoring.
    pub fn on_event(&mut self, e: ModeEvent) -> (a: ModeAction)
        ensures
            final(self).state == mode_state_step(old(self).state, old(self).normal_state.current, e),
            e == ModeEvent::BatteryLow && old(self).state != State::LowCharge ==> a == ModeAction::LowPower
                && *final(self) == (SensorState { state: State::LowCharge, last_capture_interval: 0, ..*old(self) }),
            e == ModeEvent::BatteryOk && old(self).state == State::LowCharge ==> a == enter_mode(
                old(self).normal_state.current,
            ).1 && *final(self) == (SensorState { state: enter_mode(old(self).normal_state.current).0, ..*old(self) }),
            e == ModeEvent::ModeChanged && old(self).state != State::LowCharge ==> a == enter_mode(
                old(self).normal_state.current,
            ).1 && *final(self) == (SensorState {
                state: enter_mode(old(self).normal_state.current).0,
                normal_state: ChangeSignal { pending: None, ..old(self).normal_state },
                ..*old(self)
            }),
            (e == ModeEvent::BatteryLow && old(self).state == State::LowCharge) || (e != ModeEvent::BatteryLow
                && (e == ModeEvent::BatteryOk) != (old(self).state == State::LowCharge)) ==> a == ModeAction::Stay
                && *final(self) == *old(self),
    {
        match e {
            ModeEvent::BatteryLow => {
                if self.state != State::LowCharge {
                    self.state = State::LowCharge;
                    self.last_capture_interval = 0;
                    ModeAction::LowPower
                } else {
                    ModeAction::Stay
                }
            },
            ModeEvent::BatteryOk => {
                if self.state == State::LowCharge {
                    self.run_mode()
                } else {
                    ModeAction::Stay
                }
            },
            ModeEvent::ModeChanged => {
                if self.state != State::LowCharge {
                    let _ = self.normal_state.take();
                    self.run_mode()
                } else {
                    ModeAction::Stay
                }
            },
        }
    }

    fn run_mode(&mut self) -> (a: ModeAction)
        ensures
            a == enter_mode(old(self).normal_state.current).1,
            *final(self) == (SensorState { state: enter_mode(old(self).normal_state.current).0, ..*old(self) }),
    {
        match self.normal_state.get() {
            NormalState::Manual => {
                self.state = State::Manual;
                ModeAction::RunManual
            },
            NormalState::Monitor => {
                self.state = State::Charging;
                ModeAction::RunMonitor
            },
        }
    }
}

/// The top-level state after an event, given the normal mode in effect.
pub open spec fn mode_state_step(s: State, mode: NormalState, e: ModeEvent) -> State {
    match e {
        ModeEvent::BatteryLow => State::LowCharge,
        ModeEvent::BatteryOk => if s == State::LowCharge { enter_mode(mode).0 } else { s },
        ModeEvent::ModeChanged => if s != State::LowCharge { enter_mode(mode).0 } else { s },
    }
}

/// The top-level state after a sequence of events, each with the normal mode in effect then.
pub open spec fn run_modes(s: State, events: Seq<(ModeEvent, NormalState)>) -> State
    decreases events.len(),
{
    if events.len() == 0 {
        s
    } else {
        mode_state_step(run_modes(s, events.drop_last()), events.last().1, events.last().0)
    }
}

/// Whether the last battery report among the events says the battery is good.
pub open spec fn battery_ok_last(events: Seq<(ModeEvent, NormalState)>) -> bool
    decreases events.len(),
{
    if events.len() == 0 {
        false
    } else if events.last().0 == ModeEvent::BatteryOk {
        true
    } else if events.last().0 == ModeEvent::BatteryLow {
        false
    } else {
        battery_ok_last(events.drop_last())
    }
}

/// Entering a normal mode honours the mode asked for: manual control puts the
/// sensor in Manual and hands it to the host; monitoring puts it in Charging
/// and runs the monitoring loop. A good battery after low charge, or a mode
/// change while running, lands in that state and never at low charge.
pub proof fn lemma_mode_entered_as_asked(s: State, mode: NormalState)
    ensures
        (enter_mode(mode).0 == State::Manual) <==> (mode is Manual),
        (enter_mode(mode).0 == State::Charging) <==> (mode is Monitor),
        (enter_mode(mode).1 == ModeAction::RunManual) <==> (mode is Manual),
        (enter_mode(mode).1 == ModeAction::RunMonitor) <==> (mode is Monitor),
        mode_state_step(State::LowCharge, mode, ModeEvent::BatteryOk) == enter_mode(mode).0,
        s != State::LowCharge ==> mode_state_step(s, mode, ModeEvent::ModeChanged) == enter_mode(mode).0,
        mode_state_step(s, mode, ModeEvent::BatteryLow) == State::LowCharge,
        s != State::LowCharge ==> mode_state_step(s, mode, ModeEvent::BatteryOk) == s,
        mode_state_step(State::LowCharge, mode, ModeEvent::ModeChanged) == State::LowCharge,
{
}

/// From power-up (low charge), the sensor is at low charge exactly when the
/// battery's last report was low (or none came yet); otherwise it runs a
/// normal mode, Manual or Charging.
pub proof fn lemma_low_charge_follows_battery(events: Seq<(ModeEvent, NormalState)>)
    ensures
        (run_modes(State::LowCharge, events) == State::LowCharge) <==> !battery_ok_last(events),
        battery_ok_last(events) ==> run_modes(State::LowCharge, events) == State::Manual || run_modes(
            State::LowCharge,
            events,
        ) == State::Charging,
    decreases events.len(),
{
    if events.len() > 0 {
        lemma_low_charge_follows_battery(events.drop_last());
    }
}

} // verus!
