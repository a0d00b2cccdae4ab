//! Decisions of the host tools that drive a sensor in manual mode: when a
//! status shows that a requested state was reached, when a programmed page was
//! taken, whether a page read back matches the page sent, and how the lines of
//! a capture add up to an image.
use vstd::prelude::*;
use crate::flash_control;
use crate::fpga::{self, Line, NUM_LINES};
use crate::nvm;
use crate::page::{Page, PageView};
use crate::programmer::PageProgrammer;
use crate::state_machine;

verus! {

/// What the host tools read of a sensor status.
#[derive(Debug, PartialEq, Eq)]
pub struct SensorStatus {
    /// The sensor's name, when it reports one.
    pub name: Option<String>,
    pub state: state_machine::State,
    pub fpga: Option<fpga::Status>,
    pub nvm: Option<nvm::Status>,
}

/// The sensor has left manual mode (after a reset request).
pub fn has_left_manual(s: &SensorStatus) -> (b: bool)
    ensures
        b == (s.state != state_machine::State::Manual),
{
    s.state != state_machine::State::Manual
}

/// The sensor is in manual mode.
pub fn is_manual(s: &SensorStatus) -> (b: bool)
    ensures
        b == (s.state == state_machine::State::Manual),
{
    s.state == state_machine::State::Manual
}

/// The FPGA runs its SPI flash circuit and the flash is being erased.
pub fn is_flash_erasing(s: &SensorStatus) -> (b: bool)
    ensures
        b == (s.fpga matches Some(fp) && fp.state == fpga::State::SpiFlash
            && fp.flash.state == flash_control::State::Erasing),
{
    match &s.fpga {
        Some(fp) => fp.state == fpga::State::SpiFlash && fp.flash.state == flash_control::State::Erasing,
        None => false,
    }
}

/// The FPGA flash reports the given state.
pub fn is_flash_state(s: &SensorStatus, state: flash_control::State) -> (b: bool)
    ensures
        b == (s.fpga matches Some(fp) && fp.flash.state == state),
{
    match &s.fpga {
        Some(fp) => fp.flash.state == state,
        None => false,
    }
}

/// The parameter store reports the parameters in effect.
pub fn has_current_parameters(s: &SensorStatus) -> (b: bool)
    ensures
        b == (s.nvm matches Some(n) && n.current_parameters.is_some()),
{
    match &s.nvm {
        Some(n) => n.current_parameters.is_some(),
        None => false,
    }
}

/// A page's number as a message reader sees it: 0 when missing.
pub open spec fn number_of(p: PageView) -> u32 {
    match p.page_number {
        Some(n) => n,
        None => 0,
    }
}

/// A page's checksum as a message reader sees it: 0 when missing.
pub open spec fn crc_of(p: PageView) -> u32 {
    match p.crc {
        Some(c) => c,
        None => 0,
    }
}

/// The page number of a page, 0 when missing.
pub fn page_number_of(p: &Page) -> (n: u32)
    ensures
        n == number_of(p@),
{
    match p.page_number {
        Some(n) => n,
        None => 0,
    }
}

/// What a flash status says of a page the host is programming.
#[derive(Clone, Copy, Debug, PartialEq, Eq, Structural)]
pub enum PageAck {
    /// The sensor took the page: go on with the next one.
    Taken,
    /// The sensor stopped programming before the last page.
    Aborted,
    /// No answer yet: keep waiting, and send the page again after a while.
    Waiting,
}

/// What a flash status received while page `page_number` of `num_pages` is
/// being programmed says of that page.
pub open spec fn page_ack_of(page_number: u32, num_pages: u32, flash: flash_control::Status) -> PageAck {
    if flash.stm_page_request matches Some(rn) && rn > page_number {
        PageAck::Taken
    } else if flash.state != flash_control::State::Programming {
        if page_number + 1 == num_pages { PageAck::Taken } else { PageAck::Aborted }
    } else {
        PageAck::Waiting
    }
}

/// Reads a flash status received while page `page_number` of `num_pages` is
/// being programmed: the page was taken once the sensor asks for a later page,
/// or once it stopped programming after the last page.
pub fn page_ack(page_number: u32, num_pages: u32, flash: &flash_control::Status) -> (a: PageAck)
    ensures
        a == page_ack_of(page_number, num_pages, *flash),
{
    match flash.stm_page_request {
        Some(rn) => {
            if rn > page_number {
                return PageAck::Taken;
            }
        },
        None => {},
    }
    if flash.state != flash_control::State::Programming {
        if (page_number as u64) + 1 == num_pages as u64 {
            PageAck::Taken
        } else {
            PageAck::Aborted
        }
    } else {
        PageAck::Waiting
    }
}

/// The flash status a sensor reports while it programs with `p`.
pub open spec fn programming_status(p: PageProgrammer) -> flash_control::Status {
    flash_control::Status {
        state: flash_control::State::Programming,
        stm_page_request: Some(p.next_page),
        readout_page: None,
    }
}

/// While the sensor programs, the host moves on from a page exactly when the
/// sensor took it: after a page it accepts, the sensor asks for a later one;
/// after one it rejects, it asks for the same page again.
pub proof fn lemma_host_follows_programmer(p: PageProgrammer, page: PageView, num_pages: u32)
    requires
        p.wf(),
        !p.is_finished(),
    ensures
        page_ack_of(p.next_page, num_pages, programming_status(p.step(page))) == (if p.step(page).next_page
            != p.next_page {
            PageAck::Taken
        } else {
            PageAck::Waiting
        }),
{
}

/// Where the host is in programming an image into the FPGA flash and reading
/// it back: reset, enter manual mode, start the flash circuit, wait out the
/// erase, send the pages, start read-out, request the pages back, leave
/// manual mode.
#[derive(Clone, Copy, Debug, PartialEq, Eq, Structural)]
pub enum FlashPhase {
    Resetting,
    EnteringManual,
    Activating,
    Erasing,
    /// Sending the page with this number.
    Programming(u32),
    StartingReadout,
    /// Waiting for the page with this number to be read back.
    Verifying(u32),
    Exiting,
    Done,
}

/// What the host sends to the sensor in a phase.
#[derive(Clone, Copy, Debug, PartialEq, Eq, Structural)]
pub enum FlashRequest {
    /// Ask for monitor mode (leaving manual mode).
    Monitor,
    /// Ask for manual mode.
    Manual,
    /// Start the SPI flash circuit with a program request.
    StartProgramming,
    /// Send nothing; the sensor is erasing.
    Nothing,
    /// Send the page with this number.
    Page(u32),
    /// Ask for read-out.
    StartReadout,
    /// Ask for the page with this number.
    RequestPage(u32),
}

/// The request of a phase.
pub open spec fn request_of(phase: FlashPhase) -> FlashRequest {
    match phase {
        FlashPhase::Resetting => FlashRequest::Monitor,
        FlashPhase::EnteringManual => FlashRequest::Manual,
        FlashPhase::Activating => FlashRequest::StartProgramming,
        FlashPhase::Erasing => FlashRequest::Nothing,
        FlashPhase::Programming(n) => FlashRequest::Page(n),
        FlashPhase::StartingReadout => FlashRequest::StartReadout,
        FlashPhase::Verifying(n) => FlashRequest::RequestPage(n),
        FlashPhase::Exiting => FlashRequest::Monitor,
        FlashPhase::Done => FlashRequest::Nothing,
    }
}

/// What the host sends in `phase`.
pub fn flash_request(phase: FlashPhase) -> (r: FlashRequest)
    ensures
        r == request_of(phase),
{
    match phase {
        FlashPhase::Resetting => FlashRequest::Monitor,
        FlashPhase::EnteringManual => FlashRequest::Manual,
        FlashPhase::Activating => FlashRequest::StartProgramming,
        FlashPhase::Erasing => FlashRequest::Nothing,
        FlashPhase::Programming(n) => FlashRequest::Page(n),
        FlashPhase::StartingReadout => FlashRequest::StartReadout,
        FlashPhase::Verifying(n) => FlashRequest::RequestPage(n),
        FlashPhase::Exiting => FlashRequest::Monitor,
        FlashPhase::Done => FlashRequest::Nothing,
    }
}

/// The phase that sends page `n` of `num_pages`, or `after` when there is no such page.
pub open spec fn page_phase_or(n: int, num_pages: u32, programming: bool, after: FlashPhase) -> FlashPhase {
    if n < num_pages {
        if programming { FlashPhase::Programming(n as u32) } else { FlashPhase::Verifying(n as u32) }
    } else {
        after
    }
}

/// The phase after a status received in `phase`, for an image of `num_pages`
/// pages: each phase ends when the status shows what it waited for; a page is
/// done once the sensor took it, or once the page read back carries its number.
pub open spec fn flash_phase_after(phase: FlashPhase, num_pages: u32, s: SensorStatus) -> FlashPhase {
    match phase {
        FlashPhase::Resetting => if s.state != state_machine::State::Manual {
            FlashPhase::EnteringManual
        } else {
            phase
        },
        FlashPhase::EnteringManual => if s.state == state_machine::State::Manual {
            FlashPhase::Activating
        } else {
            phase
        },
        FlashPhase::Activating => if s.fpga matches Some(fp) && fp.state == fpga::State::SpiFlash
            && fp.flash.state == flash_control::State::Erasing {
            FlashPhase::Erasing
        } else {
            phase
        },
        FlashPhase::Erasing => if s.fpga matches Some(fp) && fp.flash.state == flash_control::State::Programming {
            page_phase_or(0, num_pages, true, FlashPhase::StartingReadout)
        } else {
            phase
        },
        FlashPhase::Programming(n) => if s.fpga matches Some(fp) && page_ack_of(n, num_pages, fp.flash)
            == PageAck::Taken {
            page_phase_or(n + 1, num_pages, true, FlashPhase::StartingReadout)
        } else {
            phase
        },
        FlashPhase::StartingReadout => if s.fpga matches Some(fp) && fp.flash.state == flash_control::State::Readout {
            page_phase_or(0, num_pages, false, FlashPhase::Exiting)
        } else {
            phase
        },
        FlashPhase::Verifying(n) => if s.fpga matches Some(fp) && fp.flash.readout_page matches Some(pg)
            && number_of(pg@) == n {
            page_phase_or(n + 1, num_pages, false, FlashPhase::Exiting)
        } else {
            phase
        },
        FlashPhase::Exiting => if s.state != state_machine::State::Manual {
            FlashPhase::Done
        } else {
            phase
        },
        FlashPhase::Done => phase,
    }
}

/// The phase after status `s` was received in `phase`, for an image of `num_pages` pages.
pub fn next_flash_phase(phase: FlashPhase, num_pages: u32, s: &SensorStatus) -> (next: FlashPhase)
    ensures
        next == flash_phase_after(phase, num_pages, *s),
{
    match phase {
        FlashPhase::Resetting => if has_left_manual(s) {
            FlashPhase::EnteringManual
        } else {
            phase
        },
        FlashPhase::EnteringManual => if is_manual(s) {
            FlashPhase::Activating
        } else {
            phase
        },
        FlashPhase::Activating => if is_flash_erasing(s) {
            FlashPhase::Erasing
        } else {
            phase
        },
        FlashPhase::Erasing => if is_flash_state(s, flash_control::State::Programming) {
            if 0 < num_pages { FlashPhase::Programming(0) } else { FlashPhase::StartingReadout }
        } else {
            phase
        },
        FlashPhase::Programming(n) => match &s.fpga {
            Some(fp) => match page_ack(n, num_pages, &fp.flash) {
                PageAck::Taken => if (n as u64) + 1 < num_pages as u64 {
                    FlashPhase::Programming(n + 1)
                } else {
                    FlashPhase::StartingReadout
                },
                _ => phase,
            },
            None => phase,
        },
        FlashPhase::StartingReadout => if is_flash_state(s, flash_control::State::Readout) {
            if 0 < num_pages { FlashPhase::Verifying(0) } else { FlashPhase::Exiting }
        } else {
            phase
        },
        FlashPhase::Verifying(n) => {
            let read_back = match &s.fpga {
                Some(fp) => match &fp.flash.readout_page {
                    Some(pg) => page_number_of(pg) == n,
                    None => false,
                },
                None => false,
            };
            if read_back {
                if (n as u64) + 1 < num_pages as u64 {
                    FlashPhase::Verifying(n + 1)
                } else {
                    FlashPhase::Exiting
                }
            } else {
                phase
            }
        },
        FlashPhase::Exiting => if has_left_manual(s) {
            FlashPhase::Done
        } else {
            phase
        },
        FlashPhase::Done => phase,
    }
}

/// The phases a flashing session can be in for an image of `num_pages` pages:
/// page numbers stay below the page count.
pub open spec fn flash_phase_wf(phase: FlashPhase, num_pages: u32) -> bool {
    match phase {
        FlashPhase::Programming(n) => n < num_pages,
        FlashPhase::Verifying(n) => n < num_pages,
        _ => true,
    }
}

/// The position of a phase in the session: the fixed phases in order, with
/// one step for each page sent and each page read back.
pub open spec fn flash_phase_rank(phase: FlashPhase, num_pages: u32) -> int {
    match phase {
        FlashPhase::Resetting => 0,
        FlashPhase::EnteringManual => 1,
        FlashPhase::Activating => 2,
        FlashPhase::Erasing => 3,
        FlashPhase::Programming(n) => 4 + n,
        FlashPhase::StartingReadout => 4 + num_pages,
        FlashPhase::Verifying(n) => 5 + num_pages + n,
        FlashPhase::Exiting => 5 + 2 * num_pages,
        FlashPhase::Done => 6 + 2 * num_pages,
    }
}

/// A flashing session walks its phases in order and skips none: whatever
/// status arrives, it stays where it is or moves one step on, so every page is
/// sent and taken before read-out starts, and every page is read back before
/// the host leaves manual mode.
pub proof fn lemma_flash_phases_in_order(phase: FlashPhase, num_pages: u32, s: SensorStatus)
    requires
        flash_phase_wf(phase, num_pages),
    ensures
        flash_phase_wf(flash_phase_after(phase, num_pages, s), num_pages),
        flash_phase_after(phase, num_pages, s) == phase || flash_phase_rank(
            flash_phase_after(phase, num_pages, s),
            num_pages,
        ) == flash_phase_rank(phase, num_pages) + 1,
{
}

/// While reading back, the session waits for the page it asked for: it moves
/// on exactly when a status carries a read-out page numbered `n`, to the next
/// page or, after the last one, to leaving manual mode. A page with any other
/// number (one left over from an earlier request, or a later one) changes nothing.
pub proof fn lemma_verifying_waits_for_its_page(n: u32, num_pages: u32, s: SensorStatus)
    requires
        n < num_pages,
    ensures
        ({
            let after = flash_phase_after(FlashPhase::Verifying(n), num_pages, s);
            let read_back = s.fpga matches Some(fp) && fp.flash.readout_page matches Some(pg)
                && pg@.page_number.unwrap_or(0) == n;
            &&& read_back ==> after == (if n + 1 < num_pages {
                FlashPhase::Verifying((n + 1) as u32)
            } else {
                FlashPhase::Exiting
            })
            &&& !read_back ==> after == FlashPhase::Verifying(n)
        }),
{
}

/// While programming, the session sends page `n` until the sensor took it: it
/// moves on exactly when a status shows the sensor asking for a later page, or
/// shows it done programming after the last page; otherwise it stays on page `n`.
pub proof fn lemma_programming_waits_until_taken(n: u32, num_pages: u32, s: SensorStatus)
    requires
        n < num_pages,
    ensures
        ({
            let after = flash_phase_after(FlashPhase::Programming(n), num_pages, s);
            let taken = s.fpga matches Some(fp) && ((fp.flash.stm_page_request matches Some(rn) && rn > n) || (
            fp.flash.state != flash_control::State::Programming && n + 1 == num_pages));
            &&& taken ==> after == (if n + 1 < num_pages {
                FlashPhase::Programming((n + 1) as u32)
            } else {
                FlashPhase::StartingReadout
            })
            &&& !taken ==> after == FlashPhase::Programming(n)
        }),
{
}

/// Each waiting phase ends only on the status it waits for: the reset on the
/// sensor leaving manual mode, entering on manual mode, activating on the
/// flash circuit erasing, the erase on programming, starting read-out on
/// read-out, and exiting on the sensor leaving manual mode; once done, the
/// session stays done.
pub proof fn lemma_phases_wait_for_their_status(num_pages: u32, s: SensorStatus)
    ensures
        (flash_phase_after(FlashPhase::Resetting, num_pages, s) != FlashPhase::Resetting) == (s.state
            != state_machine::State::Manual),
        (flash_phase_after(FlashPhase::EnteringManual, num_pages, s) != FlashPhase::EnteringManual) == (s.state
            == state_machine::State::Manual),
        (flash_phase_after(FlashPhase::Activating, num_pages, s) != FlashPhase::Activating) == (s.fpga matches Some(
            fp) && fp.state == fpga::State::SpiFlash && fp.flash.state == flash_control::State::Erasing),
        (flash_phase_after(FlashPhase::Erasing, num_pages, s) != FlashPhase::Erasing) == (s.fpga matches Some(fp)
            && fp.flash.state == flash_control::State::Programming),
        (flash_phase_after(FlashPhase::StartingReadout, num_pages, s) != FlashPhase::StartingReadout) == (s.fpga
            matches Some(fp) && fp.flash.state == flash_control::State::Readout),
        (flash_phase_after(FlashPhase::Exiting, num_pages, s) != FlashPhase::Exiting) == (s.state
            != state_machine::State::Manual),
        flash_phase_after(FlashPhase::Done, num_pages, s) == FlashPhase::Done,
{
}

/// A page read back whose checksum differs from the page sent.
pub struct Mismatch {
    /// The checksum of the page sent.
    pub expected_crc: u32,
    /// The page as read back.
    pub page: Page,
}

/// The outcome of reading an image back, page by page.
pub struct ReadoutCheck {
    /// Pages read back with another checksum than the page sent, in order.
    pub errors: Vec<Mismatch>,
    /// The data read back so far, page after page.
    pub data: Vec<u8>,
}

/// The data a page carries, empty when missing.
pub open spec fn data_of(p: PageView) -> Seq<u8> {
    match p.data {
        Some(d) => d,
        None => Seq::empty(),
    }
}

impl ReadoutCheck {
    /// Nothing read back yet.
    pub fn new() -> (c: Self)
        ensures
            c.errors@.len() == 0,
            c.data@.len() == 0,
    {
        ReadoutCheck { errors: Vec::new(), data: Vec::new() }
    }

    /// Takes a page read back while page `sent` is awaited. A page with another
    /// number is ignored (false); the awaited one adds its data, and a mismatch
    /// when its checksum differs from that of `sent` (true).
    pub fn on_readout_page(&mut self, sent: &Page, received: Page) -> (done: bool)
        ensures
            done == (number_of(received@) == number_of(sent@)),
            !done ==> final(self).data@ == old(self).data@ && final(self).errors@ == old(self).errors@,
            done ==> final(self).data@ == old(self).data@ + data_of(received@),
            done && received@.crc == sent@.crc ==> final(self).errors@ == old(self).errors@,
            done && received@.crc != sent@.crc ==> {
                &&& final(self).errors@.len() == old(self).errors@.len() + 1
                &&& final(self).errors@.drop_last() == old(self).errors@
                &&& final(self).errors@.last().expected_crc == crc_of(sent@)
                &&& final(self).errors@.last().page@ == received@
            },
    {
        if page_number_of(&received) != page_number_of(sent) {
            return false;
        }
        match &received.data {
            Some(d) => {
                let ghost start = self.data@;
                let mut i: usize = 0;
                while i < d.len()
                    invariant
                        i <= d@.len(),
                        self.data@ == start + d@.subrange(0, i as int),
                        self.errors@ == old(self).errors@,
                    decreases d@.len() - i,
                {
                    self.data.push(d[i]);
                    i = i + 1;
                    assert(self.data@ =~= start + d@.subrange(0, i as int));
                }
                assert(d@.subrange(0, d@.len() as int) =~= d@);
            },
            None => {
                assert(old(self).data@ + Seq::<u8>::empty() =~= old(self).data@);
            },
        }
        if received.crc != sent.crc {
            let expected_crc = match sent.crc {
                Some(c) => c,
                None => 0,
            };
            let ghost before = self.errors@;
            self.errors.push(Mismatch { expected_crc, page: received });
            assert(self.errors@.drop_last() =~= before);
        }
        true
    }

    /// Every page read back matched the page sent.
    pub fn succeeded(&self) -> (ok: bool)
        ensures
            ok == (self.errors@.len() == 0),
    {
        self.errors.len() == 0
    }
}

/// The lines of a capture as they arrive in statuses, gathered into an image.
pub struct ImageAssembler {
    /// The line number awaited next.
    pub next_line: u32,
    /// The lines taken so far, one after another.
    pub image: Vec<u8>,
}

/// What became of a line offered to an [`ImageAssembler`].
#[derive(Clone, Copy, Debug, PartialEq, Eq, Structural)]
pub enum LineVerdict {
    /// It was the line awaited, and was added to the image.
    Taken,
    /// It was another line, and was dropped.
    WrongLine,
}

impl ImageAssembler {
    /// An empty image that awaits line 0.
    pub fn new() -> (a: Self)
        ensures
            a.next_line == 0,
            a.image@.len() == 0,
    {
        ImageAssembler { next_line: 0, image: Vec::new() }
    }

    /// All lines of the image were taken.
    pub fn is_complete(&self) -> (b: bool)
        ensures
            b == (self.next_line >= NUM_LINES),
    {
        self.next_line >= NUM_LINES
    }

    /// Offers a line: the awaited one is added to the image, any other dropped.
    pub fn offer(&mut self, line: &Line) -> (v: LineVerdict)
        requires
            old(self).next_line < NUM_LINES,
        ensures
            line.number == old(self).next_line ==> {
                &&& v == LineVerdict::Taken
                &&& final(self).next_line == old(self).next_line + 1
                &&& final(self).image@ == old(self).image@ + line.data@
            },
            line.number != old(self).next_line ==> {
                &&& v == LineVerdict::WrongLine
                &&& final(self).next_line == old(self).next_line
                &&& final(self).image@ == old(self).image@
            },
    {
        if line.number != self.next_line {
            return LineVerdict::WrongLine;
        }
        let ghost start = self.image@;
        let mut i: usize = 0;
        while i < line.data.len()
            invariant
                i <= line.data@.len(),
                self.image@ == start + line.data@.subrange(0, i as int),
                self.next_line == old(self).next_line,
                self.next_line < NUM_LINES,
            decreases line.data@.len() - i,
        {
            self.image.push(line.data[i]);
            i = i + 1;
            assert(self.image@ =~= start + line.data@.subrange(0, i as int));
        }
        assert(line.data@.subrange(0, line.data@.len() as int) =~= line.data@);
        self.next_line = self.next_line + 1;
        LineVerdict::Taken
    }
}

} // verus!
