//! The flash tasks as the rest of the firmware sees them: their state, the
//! requests waiting for them, and the status they report.
use vstd::prelude::*;
use crate::layout::Segment;
use crate::page::Page;
use crate::power::{Power, PowerSignal};

verus! {

/// What a flash task is doing.
#[derive(Clone, Copy, Debug, PartialEq, Eq, Structural)]
pub enum State {
    Off,
    Idle,
    Erasing,
    Programming,
    Readout,
    Done,
}

/// Operations that the host can ask of the FPGA flash.
#[derive(Clone, Copy, Debug, PartialEq, Eq, Structural)]
pub enum Action {
    Unspecified,
    Program,
    Readout,
}

/// An operation for the flash task to carry out.
#[derive(Clone, Copy, Debug, PartialEq, Eq, Structural)]
pub enum Operation {
    /// Erase the segment, then program it page by page.
    Flash(Segment),
    /// Read the segment back page by page on request.
    Readout(Segment),
}

/// A command from the host to the FPGA flash.
#[derive(Clone, Debug, PartialEq, Eq)]
pub struct Command {
    pub action: Option<Action>,
    pub segment: Option<Segment>,
    pub page: Option<Page>,
    pub host_page_request: Option<u32>,
}

/// What the flash reports to the host.
#[derive(Clone, Debug, PartialEq, Eq)]
pub struct Status {
    pub state: State,
    /// While programming: the page number the sensor waits for.
    pub stm_page_request: Option<u32>,
    /// While reading out: the page last read.
    pub readout_page: Option<Page>,
}

fn make_status(state: State, rn: u32, readout_page: &Option<Page>) -> (s: Status)
    ensures
        s.state == state,
        s.stm_page_request == (if state == State::Programming { Some(rn) } else { None::<u32> }),
        state == State::Readout && readout_page.is_some() ==> s.readout_page.is_some()
            && s.readout_page.unwrap()@ == readout_page.unwrap()@,
        !(state == State::Readout && readout_page.is_some()) ==> s.readout_page.is_none(),
{
    let stm_page_request = if state == State::Programming { Some(rn) } else { None };
    let readout = if state == State::Readout {
        match readout_page {
            Some(p) => Some(p.duplicate()),
            None => None,
        }
    } else {
        None
    };
    Status { state, stm_page_request, readout_page: readout }
}

/// The FPGA flash task and the requests waiting for it.
pub struct FlashControl {
    pub state: State,
    pub power: PowerSignal<()>,
    /// The operation requested last and not yet started.
    pub operation: Option<Operation>,
    /// The page number being programmed.
    pub rn: u32,
    /// A received page waiting to be programmed (room for one).
    pub page_inbox: Option<Page>,
    /// The page number the host asked for last and that is not yet served.
    pub readout_request: Option<u32>,
    /// The page last read and published for the host.
    pub readout_page: Option<Page>,
}

impl FlashControl {
    /// The task before it has been powered: off, nothing pending.
    pub fn new() -> (c: Self)
        ensures
            c.state == State::Off,
            c.power.pending.is_none(),
            c.operation.is_none(),
            c.rn == 0,
            c.page_inbox.is_none(),
            c.readout_request.is_none(),
            c.readout_page.is_none(),
    {
        FlashControl {
            state: State::Off,
            power: PowerSignal::new(),
            operation: None,
            rn: 0,
            page_inbox: None,
            readout_request: None,
            readout_page: None,
        }
    }

    /// Takes in a command from the host: an action together with a segment requests
    /// an operation; a page is kept if there is room for it (otherwise dropped);
    /// a page request replaces any earlier one.
    pub fn handle_command(&mut self, command: Command)
        ensures
            final(self).state == old(self).state,
            final(self).power == old(self).power,
            final(self).rn == old(self).rn,
            final(self).readout_page == old(self).readout_page,
            final(self).operation == match (command.action, command.segment) {
                (Some(Action::Program), Some(s)) => Some(Operation::Flash(s)),
                (Some(Action::Readout), Some(s)) => Some(Operation::Readout(s)),
                _ => old(self).operation,
            },
            final(self).page_inbox == if old(self).page_inbox.is_none() && command.page.is_some() {
                command.page
            } else {
                old(self).page_inbox
            },
            final(self).readout_request == if command.host_page_request.is_some() {
                command.host_page_request
            } else {
                old(self).readout_request
            },
    {
        match (command.action, command.segment) {
            (Some(Action::Program), Some(segment)) => self.operation = Some(Operation::Flash(segment)),
            (Some(Action::Readout), Some(segment)) => self.operation = Some(Operation::Readout(segment)),
            _ => {},
        }
        if let Some(page) = command.page {
            if self.page_inbox.is_none() {
                self.page_inbox = Some(page);
            }
        }
        if let Some(host_pg_req) = command.host_page_request {
            self.readout_request = Some(host_pg_req);
        }
    }

    /// The status for the host: the state, plus the awaited page number while
    /// programming or the published page while reading out.
    pub fn get_status(&self) -> (s: Status)
        ensures
            s.state == self.state,
            s.stm_page_request == (if self.state == State::Programming { Some(self.rn) } else { None::<u32> }),
            self.state == State::Readout && self.readout_page.is_some() ==> s.readout_page.is_some()
                && s.readout_page.unwrap()@ == self.readout_page.unwrap()@,
            !(self.state == State::Readout && self.readout_page.is_some()) ==> s.readout_page.is_none(),
    {
        make_status(self.state, self.rn, &self.readout_page)
    }

    /// Requests the flash circuit to be powered.
    pub fn turn_on(&mut self)
        ensures
            *final(self) == (FlashControl { power: PowerSignal { pending: Some(Power::On(())) }, ..*old(self) }),
    {
        self.power.turn_on(());
    }

    /// Requests the flash circuit to be unpowered.
    pub fn turn_off(&mut self)
        ensures
            *final(self) == (FlashControl { power: PowerSignal { pending: Some(Power::<()>::Off) }, ..*old(self) }),
    {
        self.power.turn_off();
    }

    pub fn is_off(&self) -> (b: bool)
        ensures
            b == (self.state == State::Off),
    {
        self.state == State::Off
    }

    /// Takes the page waiting to be programmed, if any.
    pub fn receive_page(&mut self) -> (p: Option<Page>)
        ensures
            p == old(self).page_inbox,
            *final(self) == (FlashControl { page_inbox: None, ..*old(self) }),
    {
        self.page_inbox.take()
    }

    /// Takes the operation requested last, if any.
    pub fn take_operation(&mut self) -> (op: Option<Operation>)
        ensures
            op == old(self).operation,
            *final(self) == (FlashControl { operation: None, ..*old(self) }),
    {
        self.operation.take()
    }

    /// Takes the page number the host asked for last, if any.
    pub fn take_readout_request(&mut self) -> (r: Option<u32>)
        ensures
            r == old(self).readout_request,
            *final(self) == (FlashControl { readout_request: None, ..*old(self) }),
    {
        self.readout_request.take()
    }

}

/// What starts the board flash task.
#[derive(Clone, Copy, Debug, PartialEq, Eq, Structural)]
pub enum Trigger {
    Flash,
    Readout,
}

/// The sensor board's own flash task and the requests waiting for it.
pub struct BoardFlashControl {
    pub state: State,
    pub trigger: Option<Trigger>,
    pub rn: u32,
    pub page_inbox: Option<Page>,
    pub readout_request: Option<u32>,
    pub readout_page: Option<Page>,
}

/// Number of pages in a file programmed into the board's flash.
pub const PAGE_PER_FILE: u32 = 512;

impl BoardFlashControl {
    /// The task before any request: idle, nothing pending.
    pub fn new() -> (c: Self)
        ensures
            c.state == State::Idle,
            c.trigger.is_none(),
            c.rn == 0,
            c.page_inbox.is_none(),
            c.readout_request.is_none(),
            c.readout_page.is_none(),
    {
        BoardFlashControl {
            state: State::Idle,
            trigger: None,
            rn: 0,
            page_inbox: None,
            readout_request: None,
            readout_page: None,
        }
    }

    pub fn get_status(&self) -> (s: Status)
        ensures
            s.state == self.state,
            s.stm_page_request == (if self.state == State::Programming { Some(self.rn) } else { None::<u32> }),
            self.state == State::Readout && self.readout_page.is_some() ==> s.readout_page.is_some()
                && s.readout_page.unwrap()@ == self.readout_page.unwrap()@,
            !(self.state == State::Readout && self.readout_page.is_some()) ==> s.readout_page.is_none(),
    {
        make_status(self.state, self.rn, &self.readout_page)
    }

    /// Offers a page for programming; it is dropped when one is already waiting.
    pub fn accept_page(&mut self, page: Page)
        ensures
            *final(self) == (BoardFlashControl {
                page_inbox: if old(self).page_inbox.is_none() { Some(page) } else { old(self).page_inbox },
                ..*old(self)
            }),
    {
        if self.page_inbox.is_none() {
            self.page_inbox = Some(page);
        }
    }

    /// The host asks for page `host_pg_req`; replaces any earlier request.
    pub fn set_readout_req_number(&mut self, host_pg_req: u32)
        ensures
            *final(self) == (BoardFlashControl { readout_request: Some(host_pg_req), ..*old(self) }),
    {
        self.readout_request = Some(host_pg_req);
    }

    pub fn get_state(&self) -> (s: State)
        ensures
            s == self.state,
    {
        self.state
    }

    pub fn set_state(&mut self, state: State)
        ensures
            *final(self) == (BoardFlashControl { state, ..*old(self) }),
    {
        self.state = state;
    }

    /// Requests programming a file.
    pub fn start(&mut self)
        ensures
            *final(self) == (BoardFlashControl { trigger: Some(Trigger::Flash), ..*old(self) }),
    {
        self.trigger = Some(Trigger::Flash);
    }

    /// Requests reading the file back.
    pub fn start_readout(&mut self)
        ensures
            *final(self) == (BoardFlashControl { trigger: Some(Trigger::Readout), ..*old(self) }),
    {
        self.trigger = Some(Trigger::Readout);
    }

    /// The last operation has completed.
    pub fn is_done(&self) -> (b: bool)
        ensures
            b == (self.state == State::Done),
    {
        self.state == State::Done
    }
}

/// A file for the board's flash fills the chip exactly.
pub proof fn lemma_file_fills_board_flash()
    ensures
        PAGE_PER_FILE * crate::board_flash::PAGE_SIZE == crate::board_flash::TOTAL_SIZE,
{
}

} // verus!
