//! The flash tasks' operations as state machines: what the task does next
//! after each event (erase done, page received, page written, page requested,
//! failure), and the state it reports to the host on the way.
use vstd::prelude::*;
use crate::flash_control::{BoardFlashControl, FlashControl, Operation, PAGE_PER_FILE, State, Trigger};
use crate::layout::{Bounds, PAGE, get_bounds, lemma_segment_fits_chip, segment_bounds};
use crate::page::{Page, PageView, page_crc, page_is_valid};
use crate::programmer::{
    FIRST_PAGE_TIMEOUT_MS, PAGE_MAX_ATTEMPTS, PAGE_TIMEOUT_MS, PageProgrammer, PageReader, ReadoutAction, Verdict,
    published_page, readout_page,
};

verus! {

/// Where an operation of a flash task stands.
#[derive(Clone, Copy, Debug, PartialEq, Eq, Structural)]
pub enum Job {
    /// The range is being erased; programming follows with this programmer.
    Erasing(PageProgrammer),
    /// A page is awaited.
    Programming(PageProgrammer),
    /// An accepted page is being written; the programmer already awaits the next.
    Writing(PageProgrammer),
    /// Pages are read back on request.
    Reading(PageReader),
    /// The operation is over.
    Ended,
}

/// What happens to a flash task during an operation.
#[derive(Debug)]
pub enum JobEvent {
    /// The erase completed.
    Erased,
    /// A page arrived from the host.
    Page(Page),
    /// No page arrived in time.
    Timeout,
    /// The page being written is written.
    Written,
    /// The host asked for page `n`.
    Request(u32),
    /// The data of page `number` was read from the flash.
    Loaded { number: u32, data: Vec<u8> },
    /// The flash chip failed.
    SpiError,
}

/// What a flash task does next.
#[derive(Debug)]
pub enum JobAction {
    /// Erase the range `[from, to)`.
    Erase { from: u32, to: u32 },
    /// Erase the whole chip.
    EraseChip,
    /// Wait for page `number`, at most `timeout_ms` milliseconds.
    AwaitPage { number: u32, timeout_ms: u32 },
    /// Program `data` at `addr`.
    Write { addr: u32, data: Vec<u8> },
    /// Wait for the host's next page request.
    AwaitRequest,
    /// Read page `number` from `addr`.
    Load { number: u32, addr: u32 },
    /// Publish a page read back for the host.
    Publish(Page),
    /// The operation completed.
    Finished,
    /// The operation gave up.
    Failed,
    /// Nothing to do: the event is not one the operation waits for.
    Wait,
}

/// The mathematical content of a [`JobEvent`].
pub enum EventView {
    Erased,
    Page(PageView),
    Timeout,
    Written,
    Request(u32),
    Loaded { number: u32, data: Seq<u8> },
    SpiError,
}

/// The mathematical content of a [`JobAction`].
pub enum ActionView {
    Erase { from: u32, to: u32 },
    EraseChip,
    AwaitPage { number: u32, timeout_ms: u32 },
    Write { addr: u32, data: Seq<u8> },
    AwaitRequest,
    Load { number: u32, addr: u32 },
    Publish(PageView),
    Finished,
    Failed,
    Wait,
}

pub open spec fn event_view(e: JobEvent) -> EventView {
    match e {
        JobEvent::Erased => EventView::Erased,
        JobEvent::Page(p) => EventView::Page(p@),
        JobEvent::Timeout => EventView::Timeout,
        JobEvent::Written => EventView::Written,
        JobEvent::Request(n) => EventView::Request(n),
        JobEvent::Loaded { number, data } => EventView::Loaded { number, data: data@ },
        JobEvent::SpiError => EventView::SpiError,
    }
}

pub open spec fn action_view(a: JobAction) -> ActionView {
    match a {
        JobAction::Erase { from, to } => ActionView::Erase { from, to },
        JobAction::EraseChip => ActionView::EraseChip,
        JobAction::AwaitPage { number, timeout_ms } => ActionView::AwaitPage { number, timeout_ms },
        JobAction::Write { addr, data } => ActionView::Write { addr, data: data@ },
        JobAction::AwaitRequest => ActionView::AwaitRequest,
        JobAction::Load { number, addr } => ActionView::Load { number, addr },
        JobAction::Publish(p) => ActionView::Publish(p@),
        JobAction::Finished => ActionView::Finished,
        JobAction::Failed => ActionView::Failed,
        JobAction::Wait => ActionView::Wait,
    }
}

/// How long to wait for page `n`: longer for the first (the host may still be preparing).
pub open spec fn page_timeout(n: u32) -> u32 {
    if n == 0 { FIRST_PAGE_TIMEOUT_MS } else { PAGE_TIMEOUT_MS }
}

/// Waiting for the page that `p` awaits.
pub open spec fn await_next(p: PageProgrammer) -> ActionView {
    ActionView::AwaitPage { number: p.next_page, timeout_ms: page_timeout(p.next_page) }
}

/// The jobs that can occur.
pub open spec fn job_wf(job: Job) -> bool {
    match job {
        Job::Erasing(p) => p.wf() && p.next_page == 0 && p.attempts == 0,
        Job::Programming(p) => p.wf() && !p.is_finished() && !p.has_failed(),
        Job::Writing(p) => p.wf() && !p.has_failed(),
        Job::Reading(r) => r.wf(),
        Job::Ended => true,
    }
}

/// The job after an event, and what the task does next. Programming starts
/// once the erase is done; each page awaited is written only when valid, and
/// the operation gives up after `PAGE_MAX_ATTEMPTS` bad pages for one page, on
/// a timeout, or on a chip failure; it completes once the last page is written.
/// Read-out loads each newly requested page, publishes what was read, and
/// completes on a request past the last page.
pub open spec fn job_step(job: Job, e: EventView) -> (Job, ActionView) {
    match job {
        Job::Erasing(p) => match e {
            EventView::Erased => if p.is_finished() {
                (Job::Ended, ActionView::Finished)
            } else {
                (Job::Programming(p), await_next(p))
            },
            EventView::SpiError => (Job::Ended, ActionView::Failed),
            _ => (job, ActionView::Wait),
        },
        Job::Programming(p) => match e {
            EventView::Page(pg) => if page_is_valid(pg, p.next_page) {
                (
                    Job::Writing(p.step(pg)),
                    ActionView::Write { addr: p.page_addr(p.next_page as int) as u32, data: pg.data.unwrap() },
                )
            } else if p.step(pg).has_failed() {
                (Job::Ended, ActionView::Failed)
            } else {
                (Job::Programming(p.step(pg)), await_next(p))
            },
            EventView::Timeout => (Job::Ended, ActionView::Failed),
            EventView::SpiError => (Job::Ended, ActionView::Failed),
            _ => (job, ActionView::Wait),
        },
        Job::Writing(p) => match e {
            EventView::Written => if p.is_finished() {
                (Job::Ended, ActionView::Finished)
            } else {
                (Job::Programming(p), await_next(p))
            },
            EventView::SpiError => (Job::Ended, ActionView::Failed),
            _ => (job, ActionView::Wait),
        },
        Job::Reading(r) => match e {
            EventView::Request(n) => if n >= r.num_pages {
                (Job::Ended, ActionView::Finished)
            } else if r.last_page_loaded == Some(n) {
                (job, ActionView::AwaitRequest)
            } else {
                (
                    Job::Reading(PageReader { last_page_loaded: Some(n), ..r }),
                    ActionView::Load { number: n, addr: (r.origin + n * PAGE) as u32 },
                )
            },
            EventView::Loaded { number, data } => (job, ActionView::Publish(published_page(number, data))),
            EventView::SpiError => (Job::Ended, ActionView::Failed),
            _ => (job, ActionView::Wait),
        },
        Job::Ended => (job, ActionView::Wait),
    }
}

/// The next job and action of a flash task after `event`.
pub fn next_job(job: Job, event: JobEvent) -> (r: (Job, JobAction))
    requires
        job_wf(job),
    ensures
        r.0 == job_step(job, event_view(event)).0,
        action_view(r.1) == job_step(job, event_view(event)).1,
        job_wf(r.0),
{
    match job {
        Job::Erasing(p) => match event {
            JobEvent::Erased => if p.next_page == p.num_pages {
                (Job::Ended, JobAction::Finished)
            } else {
                (Job::Programming(p), await_page(&p))
            },
            JobEvent::SpiError => (Job::Ended, JobAction::Failed),
            _ => (job, JobAction::Wait),
        },
        Job::Programming(p) => match event {
            JobEvent::Page(page) => {
                let mut q = p;
                match q.on_page(page) {
                    Verdict::Write { addr, data } => (Job::Writing(q), JobAction::Write { addr, data }),
                    Verdict::Rejected => if q.attempts >= PAGE_MAX_ATTEMPTS {
                        (Job::Ended, JobAction::Failed)
                    } else {
                        (Job::Programming(q), await_page(&p))
                    },
                }
            },
            JobEvent::Timeout => (Job::Ended, JobAction::Failed),
            JobEvent::SpiError => (Job::Ended, JobAction::Failed),
            _ => (job, JobAction::Wait),
        },
        Job::Writing(p) => match event {
            JobEvent::Written => if p.next_page == p.num_pages {
                (Job::Ended, JobAction::Finished)
            } else {
                (Job::Programming(p), await_page(&p))
            },
            JobEvent::SpiError => (Job::Ended, JobAction::Failed),
            _ => (job, JobAction::Wait),
        },
        Job::Reading(r) => match event {
            JobEvent::Request(n) => {
                let mut q = r;
                match q.on_request(n) {
                    ReadoutAction::Finish => (Job::Ended, JobAction::Finished),
                    ReadoutAction::Keep => (job, JobAction::AwaitRequest),
                    ReadoutAction::Load { number, addr } => (Job::Reading(q), JobAction::Load { number, addr }),
                }
            },
            JobEvent::Loaded { number, data } => (job, JobAction::Publish(readout_page(number, data))),
            JobEvent::SpiError => (Job::Ended, JobAction::Failed),
            _ => (job, JobAction::Wait),
        },
        Job::Ended => (job, JobAction::Wait),
    }
}

fn await_page(p: &PageProgrammer) -> (a: JobAction)
    ensures
        action_view(a) == await_next(*p),
{
    let timeout_ms = if p.next_page == 0 { FIRST_PAGE_TIMEOUT_MS } else { PAGE_TIMEOUT_MS };
    JobAction::AwaitPage { number: p.next_page, timeout_ms }
}

/// The programmer and reader of a range.
pub open spec fn range_programmer(b: Bounds) -> PageProgrammer {
    PageProgrammer { origin: b.origin, num_pages: (b.length / PAGE) as u32, next_page: 0, attempts: 0 }
}

pub open spec fn range_reader(b: Bounds) -> PageReader {
    PageReader { origin: b.origin, num_pages: (b.length / PAGE) as u32, last_page_loaded: None }
}

/// How an operation on the FPGA flash starts: erasing the segment before
/// programming it, or waiting for the host's first page request.
pub open spec fn fpga_job_start(op: Operation) -> (Job, ActionView) {
    match op {
        Operation::Flash(s) => (
            Job::Erasing(range_programmer(segment_bounds(s))),
            ActionView::Erase { from: segment_bounds(s).origin, to: segment_bounds(s).spec_end() as u32 },
        ),
        Operation::Readout(s) => (Job::Reading(range_reader(segment_bounds(s))), ActionView::AwaitRequest),
    }
}

/// The range a file occupies on the board's flash: the chip from its start.
pub open spec fn board_range() -> Bounds {
    Bounds { origin: 0, length: (PAGE_PER_FILE * PAGE) as u32 }
}

/// How an operation on the board's flash starts: erasing the chip before
/// programming it, or waiting for the host's first page request.
pub open spec fn board_job_start(t: Trigger) -> (Job, ActionView) {
    match t {
        Trigger::Flash => (Job::Erasing(range_programmer(board_range())), ActionView::EraseChip),
        Trigger::Readout => (Job::Reading(range_reader(board_range())), ActionView::AwaitRequest),
    }
}

impl FlashControl {
    /// Starts an operation: the state becomes Erasing, or Readout with any
    /// earlier page request dropped.
    pub fn begin_job(&mut self, op: Operation) -> (r: (Job, JobAction))
        ensures
            r.0 == fpga_job_start(op).0,
            action_view(r.1) == fpga_job_start(op).1,
            job_wf(r.0),
            op is Flash ==> *final(self) == (FlashControl { state: State::Erasing, ..*old(self) }),
            op is Readout ==> *final(self) == (FlashControl {
                state: State::Readout,
                readout_request: None,
                ..*old(self)
            }),
    {
        match op {
            Operation::Flash(s) => {
                proof {
                    lemma_segment_fits_chip(s);
                }
                let b = get_bounds(s);
                self.state = State::Erasing;
                (Job::Erasing(PageProgrammer::new(b)), JobAction::Erase { from: b.origin, to: b.end() })
            },
            Operation::Readout(s) => {
                proof {
                    lemma_segment_fits_chip(s);
                }
                let b = get_bounds(s);
                self.state = State::Readout;
                self.readout_request = None;
                (Job::Reading(PageReader::new(b)), JobAction::AwaitRequest)
            },
        }
    }

    /// Takes an event of the running operation: the task reports Programming
    /// and the page it awaits while programming, publishes the pages it reads,
    /// and returns to Idle once the operation is over (withdrawing the page
    /// published when read-out completes, and dropping any operation requested
    /// while this one ran).
    pub fn on_job_event(&mut self, job: Job, event: JobEvent) -> (r: (Job, JobAction))
        requires
            job_wf(job),
        ensures
            r.0 == job_step(job, event_view(event)).0,
            action_view(r.1) == job_step(job, event_view(event)).1,
            job_wf(r.0),
            job_step(job, event_view(event)).1 matches ActionView::AwaitPage { number, .. } ==> *final(self)
                == (FlashControl { state: State::Programming, rn: number, ..*old(self) }),
            job_step(job, event_view(event)).1 matches ActionView::Publish(pv) ==> {
                &&& final(self).readout_page matches Some(p) && p@ == pv
                &&& *final(self) == (FlashControl { readout_page: final(self).readout_page, ..*old(self) })
            },
            job_step(job, event_view(event)).1 is Finished ==> *final(self) == (FlashControl {
                state: State::Idle,
                operation: None,
                readout_page: if job is Reading { None } else { old(self).readout_page },
                ..*old(self)
            }),
            job_step(job, event_view(event)).1 is Failed ==> *final(self) == (FlashControl {
                state: State::Idle,
                operation: None,
                ..*old(self)
            }),
            !(job_step(job, event_view(event)).1 is AwaitPage || job_step(job, event_view(event)).1 is Publish
                || job_step(job, event_view(event)).1 is Finished || job_step(job, event_view(event)).1 is Failed)
                ==> *final(self) == *old(self),
    {
        let reading = match job {
            Job::Reading(_) => true,
            _ => false,
        };
        let (next, action) = next_job(job, event);
        let action = match action {
            JobAction::AwaitPage { number, timeout_ms } => {
                self.state = State::Programming;
                self.rn = number;
                JobAction::AwaitPage { number, timeout_ms }
            },
            JobAction::Publish(p) => {
                self.readout_page = Some(p.duplicate());
                JobAction::Publish(p)
            },
            JobAction::Finished => {
                self.state = State::Idle;
                self.operation = None;
                if reading {
                    self.readout_page = None;
                }
                JobAction::Finished
            },
            JobAction::Failed => {
                self.state = State::Idle;
                self.operation = None;
                JobAction::Failed
            },
            other => other,
        };
        (next, action)
    }
}

impl BoardFlashControl {
    /// Takes the operation requested last, if any.
    pub fn take_trigger(&mut self) -> (t: Option<Trigger>)
        ensures
            t == old(self).trigger,
            *final(self) == (BoardFlashControl { trigger: None, ..*old(self) }),
    {
        self.trigger.take()
    }

    /// Starts an operation on the board's flash: the state becomes Erasing or Readout.
    pub fn begin_job(&mut self, t: Trigger) -> (r: (Job, JobAction))
        ensures
            r.0 == board_job_start(t).0,
            action_view(r.1) == board_job_start(t).1,
            job_wf(r.0),
            t is Flash ==> *final(self) == (BoardFlashControl { state: State::Erasing, ..*old(self) }),
            t is Readout ==> *final(self) == (BoardFlashControl { state: State::Readout, ..*old(self) }),
    {
        let b = Bounds { origin: 0, length: PAGE_PER_FILE * PAGE };
        match t {
            Trigger::Flash => {
                self.state = State::Erasing;
                (Job::Erasing(PageProgrammer::new(b)), JobAction::EraseChip)
            },
            Trigger::Readout => {
                self.state = State::Readout;
                (Job::Reading(PageReader::new(b)), JobAction::AwaitRequest)
            },
        }
    }

    /// Takes an event of the running operation: the task reports Programming
    /// and the page it awaits while programming, publishes the pages it reads,
    /// and reports Done once the operation completes (withdrawing the page
    /// published when read-out completes). A failed operation leaves the
    /// state as it was.
    pub fn on_job_event(&mut self, job: Job, event: JobEvent) -> (r: (Job, JobAction))
        requires
            job_wf(job),
        ensures
            r.0 == job_step(job, event_view(event)).0,
            action_view(r.1) == job_step(job, event_view(event)).1,
            job_wf(r.0),
            job_step(job, event_view(event)).1 matches ActionView::AwaitPage { number, .. } ==> *final(self)
                == (BoardFlashControl { state: State::Programming, rn: number, ..*old(self) }),
            job_step(job, event_view(event)).1 matches ActionView::Publish(pv) ==> {
                &&& final(self).readout_page matches Some(p) && p@ == pv
                &&& *final(self) == (BoardFlashControl { readout_page: final(self).readout_page, ..*old(self) })
            },
            job_step(job, event_view(event)).1 is Finished ==> *final(self) == (BoardFlashControl {
                state: State::Done,
                readout_page: if job is Reading { None } else { old(self).readout_page },
                ..*old(self)
            }),
            !(job_step(job, event_view(event)).1 is AwaitPage || job_step(job, event_view(event)).1 is Publish
                || job_step(job, event_view(event)).1 is Finished) ==> *final(self) == *old(self),
    {
        let reading = match job {
            Job::Reading(_) => true,
            _ => false,
        };
        let (next, action) = next_job(job, event);
        let action = match action {
            JobAction::AwaitPage { number, timeout_ms } => {
                self.state = State::Programming;
                self.rn = number;
                JobAction::AwaitPage { number, timeout_ms }
            },
            JobAction::Publish(p) => {
                self.readout_page = Some(p.duplicate());
                JobAction::Publish(p)
            },
            JobAction::Finished => {
                self.state = State::Done;
                if reading {
                    self.readout_page = None;
                }
                JobAction::Finished
            },
            other => other,
        };
        (next, action)
    }
}

/// The job after a sequence of events.
pub open spec fn run_job(job: Job, events: Seq<EventView>) -> Job
    decreases events.len(),
{
    if events.len() == 0 {
        job
    } else {
        job_step(run_job(job, events.drop_last()), events.last()).0
    }
}

/// What the task does on the `i`-th of a sequence of events.
pub open spec fn action_at(job: Job, events: Seq<EventView>, i: int) -> ActionView {
    job_step(run_job(job, events.take(i)), events[i]).1
}

/// Whether the `j`-th event is the end of the erase.
pub open spec fn is_erased_at(events: Seq<EventView>, j: int) -> bool {
    events[j] is Erased
}

proof fn lemma_programming_after_erase(start: Job, events: Seq<EventView>, k: int)
    requires
        start is Erasing,
        0 <= k <= events.len(),
    ensures
        (run_job(start, events.take(k)) is Programming || run_job(start, events.take(k)) is Writing) ==> exists|j: int|
            0 <= j < k && #[trigger] is_erased_at(events, j),
    decreases k,
{
    if k > 0 {
        lemma_programming_after_erase(start, events, k - 1);
        let before = run_job(start, events.take(k - 1));
        assert(events.take(k).drop_last() =~= events.take(k - 1));
        assert(events.take(k).last() == events[k - 1]);
        assert(run_job(start, events.take(k)) == job_step(before, events[k - 1]).0);
        if before is Erasing && (run_job(start, events.take(k)) is Programming) {
            assert(is_erased_at(events, k - 1));
        }
    } else {
        assert(events.take(0) =~= Seq::<EventView>::empty());
    }
}

/// Nothing is programmed before the erase is done: in any run of an operation
/// that starts by erasing, every write answers an event that comes after the
/// end of the erase.
pub proof fn lemma_erase_before_program(start: Job, events: Seq<EventView>)
    requires
        start is Erasing,
    ensures
        forall|i: int| 0 <= i < events.len() && (#[trigger] action_at(start, events, i)) is Write ==> exists|j: int|
            0 <= j < i && #[trigger] is_erased_at(events, j),
{
    assert forall|i: int| 0 <= i < events.len() && (#[trigger] action_at(start, events, i)) is Write implies exists|j: int|
        0 <= j < i && #[trigger] is_erased_at(events, j) by {
        lemma_programming_after_erase(start, events, i);
    }
}

/// An operation completes only when it is done: programming once the last page
/// of the range is written (or the range is empty), read-out on a request past
/// the last page. Everything else that ends an operation is a failure.
pub proof fn lemma_finished_only_when_complete(job: Job, e: EventView)
    requires
        job_wf(job),
    ensures
        job_step(job, e).1 is Finished ==> {
            ||| job matches Job::Writing(p) && e is Written && p.is_finished()
            ||| job matches Job::Erasing(p) && e is Erased && p.num_pages == 0
            ||| job matches Job::Reading(r) && e matches EventView::Request(n) && n >= r.num_pages
        },
        job_step(job, e).0 is Ended ==> (job_step(job, e).1 is Finished || job_step(job, e).1 is Failed
            || job is Ended),
{
}

/// Read-out serves each request: a request for a page of the range that is
/// not the one last loaded loads it from the range's start plus that many
/// pages; a repeated request loads nothing; what was read is published under
/// its number with the checksum of its number and data; read-out goes on
/// until a request past the last page.
pub proof fn lemma_readout_serves_requests(r: PageReader, n: u32, data: Seq<u8>)
    requires
        r.wf(),
    ensures
        n < r.num_pages && r.last_page_loaded != Some(n) ==> job_step(Job::Reading(r), EventView::Request(n)) == (
            Job::Reading(PageReader { last_page_loaded: Some(n), ..r }),
            ActionView::Load { number: n, addr: (r.origin + n * PAGE) as u32 },
        ),
        n < r.num_pages && r.last_page_loaded == Some(n) ==> job_step(Job::Reading(r), EventView::Request(n))
            == (Job::Reading(r), ActionView::AwaitRequest),
        n < r.num_pages ==> job_step(Job::Reading(r), EventView::Request(n)).0 is Reading,
        job_step(Job::Reading(r), EventView::Loaded { number: n, data }).1 == ActionView::Publish(PageView {
            page_number: Some(n),
            data: Some(data),
            crc: Some(page_crc(n, data)),
        }),
{
}

/// The addresses written during a sequence of events, in order.
pub open spec fn write_addrs(job: Job, events: Seq<EventView>) -> Seq<int>
    decreases events.len(),
{
    if events.len() == 0 {
        Seq::empty()
    } else {
        let prev = write_addrs(job, events.drop_last());
        match job_step(run_job(job, events.drop_last()), events.last()).1 {
            ActionView::Write { addr, .. } => prev.push(addr as int),
            _ => prev,
        }
    }
}

proof fn lemma_step_wf(job: Job, e: EventView)
    requires
        job_wf(job),
    ensures
        job_wf(job_step(job, e).0),
{
}

/// The programmer a job carries, if it programs.
pub open spec fn job_programmer(job: Job) -> Option<PageProgrammer> {
    match job {
        Job::Erasing(p) => Some(p),
        Job::Programming(p) => Some(p),
        Job::Writing(p) => Some(p),
        _ => None,
    }
}

/// The writes so far are pages `0, 1, ...` of the range, at their addresses.
pub open spec fn writes_in_order(start: PageProgrammer, w: Seq<int>) -> bool {
    &&& w.len() <= start.num_pages
    &&& forall|m: int| 0 <= m < w.len() ==> #[trigger] w[m] == start.origin + m * PAGE
}

proof fn lemma_programming_run(start: PageProgrammer, events: Seq<EventView>, k: int)
    requires
        job_wf(Job::Erasing(start)),
        0 <= k <= events.len(),
    ensures
        job_wf(run_job(Job::Erasing(start), events.take(k))),
        !(run_job(Job::Erasing(start), events.take(k)) is Reading),
        writes_in_order(start, write_addrs(Job::Erasing(start), events.take(k))),
        job_programmer(run_job(Job::Erasing(start), events.take(k))) matches Some(p) ==> {
            &&& p.origin == start.origin
            &&& p.num_pages == start.num_pages
            &&& write_addrs(Job::Erasing(start), events.take(k)).len() == p.next_page
        },
    decreases k,
{
    let s0 = Job::Erasing(start);
    if k == 0 {
        assert(events.take(0) =~= Seq::<EventView>::empty());
    } else {
        lemma_programming_run(start, events, k - 1);
        let before = run_job(s0, events.take(k - 1));
        let w0 = write_addrs(s0, events.take(k - 1));
        assert(events.take(k).drop_last() =~= events.take(k - 1));
        assert(events.take(k).last() == events[k - 1]);
        lemma_step_wf(before, events[k - 1]);
        let w = write_addrs(s0, events.take(k));
        if job_step(before, events[k - 1]).1 is Write {
            let p = job_programmer(before).unwrap();
            assert(w == w0.push(p.page_addr(p.next_page as int) as u32 as int));
            assert(p.page_addr(p.next_page as int) <= u32::MAX) by (nonlinear_arith)
                requires
                    p.origin + p.num_pages * PAGE <= u32::MAX,
                    p.next_page < p.num_pages,
            ;
            assert forall|m: int| 0 <= m < w.len() implies #[trigger] w[m] == start.origin + m * PAGE by {
                if m < w0.len() {
                    assert(w[m] == w0[m]);
                }
            }
        } else {
            assert(w == w0);
        }
    }
}

/// Programming writes the pages of its range in order, one after another,
/// each at its address; and when it completes, every page of the range has
/// been written.
pub proof fn lemma_programming_writes_pages_in_order(start: PageProgrammer, events: Seq<EventView>)
    requires
        job_wf(Job::Erasing(start)),
    ensures
        writes_in_order(start, write_addrs(Job::Erasing(start), events)),
        forall|i: int| 0 <= i < events.len() && (#[trigger] action_at(Job::Erasing(start), events, i)) is Finished
            ==> write_addrs(Job::Erasing(start), events.take(i + 1)).len() == start.num_pages,
{
    lemma_programming_run(start, events, events.len() as int);
    assert(events.take(events.len() as int) =~= events);
    assert forall|i: int| 0 <= i < events.len() && (#[trigger] action_at(Job::Erasing(start), events, i)) is Finished
        implies write_addrs(Job::Erasing(start), events.take(i + 1)).len() == start.num_pages by {
        lemma_programming_run(start, events, i);
        assert(events.take(i + 1).drop_last() =~= events.take(i));
        assert(events.take(i + 1).last() == events[i]);
    }
}

} // verus!
