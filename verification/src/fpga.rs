//! The FPGA subsystem: power requests, host commands, and the data a capture yields.
use vstd::prelude::*;
use crate::flash_control::{self, FlashControl};
use crate::power::{Power, PowerSignal};

pub mod spi_cmd;

verus! {

/// What the FPGA is doing.
#[derive(Clone, Copy, Debug, PartialEq, Eq, Structural)]
pub enum State {
    Off,
    Booting,
    SpiFlash,
    Running,
    DataReady,
}

/// Operations that the host can ask of the FPGA.
#[derive(Clone, Copy, Debug, PartialEq, Eq, Structural)]
pub enum Action {
    Unspecified,
    Capture,
    SpiFlash,
    Off,
}

/// Where a capture takes its image from.
#[derive(Clone, Copy, Debug, PartialEq, Eq, Structural)]
pub enum CaptureSource {
    Unspecified,
    Camera,
    FakeVga,
    FakeSram,
}

/// What a capture sends back.
#[derive(Clone, Copy, Debug, PartialEq, Eq, Structural)]
pub enum DataRequest {
    Unspecified,
    Image,
    Vessels,
}

/// How the FPGA is to run once powered.
#[derive(Clone, Copy, Debug, PartialEq, Eq, Structural)]
pub enum RunMode {
    Capture(CaptureSource, DataRequest),
    SpiFlash,
}

/// A command from the host to the FPGA.
#[derive(Clone, Debug, PartialEq, Eq)]
pub struct Command {
    pub action: Option<Action>,
    pub capture_source: Option<CaptureSource>,
    pub data_request: Option<DataRequest>,
    pub flash: Option<flash_control::Command>,
}

/// One image line read from the FPGA.
#[derive(Clone, Debug, PartialEq, Eq)]
pub struct Line {
    pub number: u32,
    pub data: Vec<u8>,
}

/// A detected vessel position.
#[derive(Clone, Copy, Debug, PartialEq, Eq, Structural)]
pub struct Centroid {
    pub x: u32,
    pub y: u32,
}

/// The vessels a capture found.
#[derive(Clone, Debug, PartialEq, Eq)]
pub struct Vessels {
    pub count: u32,
    pub centroids: Vec<Centroid>,
}

/// The message sent over the backscatter link: one position.
#[derive(Clone, Copy, Debug, PartialEq, Eq, Structural)]
pub struct Backscatter {
    pub x: u32,
    pub y: u32,
}

/// What the FPGA reports to the host.
#[derive(Clone, Debug, PartialEq, Eq)]
pub struct Status {
    pub state: State,
    pub flash: flash_control::Status,
    pub line: Option<Line>,
    pub spi_tx: Option<Vec<u8>>,
    pub spi_rx: Option<Vec<u8>>,
    pub vessels: Option<Vessels>,
}

/// Lines per image (QVGA).
pub const NUM_LINES: u32 = 240;
/// Bytes per image line.
pub const LINE_LEN: u32 = 320;
/// The FPGA memory is addressed in 16-bit words.
pub const BYTE_PER_ADDR: u32 = 2;
/// At most this many bytes of SPI traffic are logged per transfer.
pub const SPI_PROTO_MAX_BYTES: usize = 64;
/// Room for lines waiting to be reported.
pub const LINES_CAPACITY: usize = 2;
/// Room for logged SPI transfers waiting to be reported, per direction.
pub const SPI_LOG_CAPACITY: usize = 8;

/// The SPI command that starts a capture from `src`.
pub open spec fn capture_code(src: CaptureSource) -> u8 {
    match src {
        CaptureSource::Camera => spi_cmd::code_of(spi_cmd::Command::RealCapture),
        CaptureSource::FakeVga => spi_cmd::code_of(spi_cmd::Command::FakeCaptureVga),
        _ => spi_cmd::code_of(spi_cmd::Command::FakeCaptureWrite),
    }
}

/// The SPI command byte that starts a capture from `src`.
pub fn capture_command(src: CaptureSource) -> (b: u8)
    requires
        src != CaptureSource::Unspecified,
    ensures
        b == capture_code(src),
{
    match src {
        CaptureSource::Camera => spi_cmd::Command::RealCapture.code(),
        CaptureSource::FakeVga => spi_cmd::Command::FakeCaptureVga.code(),
        _ => spi_cmd::Command::FakeCaptureWrite.code(),
    }
}

/// The word address of the start of line `line_no` in the FPGA memory.
pub open spec fn line_address(line_no: u32) -> int {
    line_no * LINE_LEN / BYTE_PER_ADDR as int
}

/// The bytes that request line `line_no`: the read command, then the low
/// 16 bits of the line's address, most significant first.
pub fn line_request(line_no: u32) -> (b: [u8; 3])
    requires
        line_no * LINE_LEN <= u32::MAX,
    ensures
        b@ == seq![
            spi_cmd::code_of(spi_cmd::Command::ReadData),
            ((line_address(line_no) / 0x100) % 0x100) as u8,
            (line_address(line_no) % 0x100) as u8,
        ],
{
    let address = line_no * LINE_LEN / BYTE_PER_ADDR;
    let b = [spi_cmd::Command::ReadData.code(), ((address / 0x100) % 0x100) as u8, (address % 0x100) as u8];
    assert(b@ =~= seq![
        spi_cmd::code_of(spi_cmd::Command::ReadData),
        ((line_address(line_no) / 0x100) % 0x100) as u8,
        (line_address(line_no) % 0x100) as u8,
    ]);
    b
}

/// The vessel report read from the FPGA: a count, then one position as two
/// little-endian 16-bit coordinates.
pub fn parse_vessels(buffer: &[u8; 5]) -> (v: Vessels)
    ensures
        v.count == buffer@[0],
        v.centroids@ == seq![Centroid {
            x: (buffer@[1] + buffer@[2] * 0x100) as u32,
            y: (buffer@[3] + buffer@[4] * 0x100) as u32,
        }],
{
    let count = buffer[0] as u32;
    let x = (buffer[1] as u32) + (buffer[2] as u32) * 0x100;
    let y = (buffer[3] as u32) + (buffer[4] as u32) * 0x100;
    let mut centroids: Vec<Centroid> = Vec::new();
    centroids.push(Centroid { x, y });
    Vessels { count, centroids }
}

/// The backscatter message for a vessel report: the first position, or the origin if none.
pub fn backscatter_message(vessels: &Vessels) -> (m: Backscatter)
    ensures
        vessels.centroids@.len() > 0 ==> m == (Backscatter {
            x: vessels.centroids@[0].x,
            y: vessels.centroids@[0].y,
        }),
        vessels.centroids@.len() == 0 ==> m == (Backscatter { x: 0, y: 0 }),
{
    if vessels.centroids.len() > 0 {
        Backscatter { x: vessels.centroids[0].x, y: vessels.centroids[0].y }
    } else {
        Backscatter { x: 0, y: 0 }
    }
}

/// The part of a line's data that is logged: its first `SPI_PROTO_MAX_BYTES` bytes.
pub fn line_log(data: &Vec<u8>) -> (log: Vec<u8>)
    requires
        data@.len() >= SPI_PROTO_MAX_BYTES,
    ensures
        log@ == data@.subrange(0, SPI_PROTO_MAX_BYTES as int),
{
    let mut log: Vec<u8> = Vec::new();
    let mut i: usize = 0;
    while i < SPI_PROTO_MAX_BYTES
        invariant
            i <= SPI_PROTO_MAX_BYTES <= data@.len(),
            log@ == data@.subrange(0, i as int),
        decreases SPI_PROTO_MAX_BYTES - i,
    {
        log.push(data[i]);
        i = i + 1;
        assert(log@ =~= data@.subrange(0, i as int));
    }
    log
}

/// The FPGA subsystem as the rest of the firmware sees it.
pub struct FpgaControl {
    pub state: State,
    pub power: PowerSignal<RunMode>,
    /// Image lines waiting to be reported, oldest first.
    pub lines: Vec<Line>,
    /// Logged SPI transfers to the FPGA, oldest first.
    pub spi_tx: Vec<Vec<u8>>,
    /// Logged SPI transfers from the FPGA, oldest first.
    pub spi_rx: Vec<Vec<u8>>,
    /// The latest vessel report not yet reported.
    pub vessels: Option<Vessels>,
}

impl FpgaControl {
    /// The FPGA before it has been powered: off, nothing pending.
    pub fn new() -> (c: Self)
        ensures
            c.state == State::Off,
            c.power.pending.is_none(),
            c.lines@.len() == 0,
            c.spi_tx@.len() == 0,
            c.spi_rx@.len() == 0,
            c.vessels.is_none(),
    {
        FpgaControl {
            state: State::Off,
            power: PowerSignal::new(),
            lines: Vec::new(),
            spi_tx: Vec::new(),
            spi_rx: Vec::new(),
            vessels: None,
        }
    }

    /// Asks for a camera capture yielding `data`; ignored unless the FPGA is off.
    pub fn capture(&mut self, data: DataRequest)
        ensures
            old(self).state == State::Off ==> *final(self) == (FpgaControl {
                power: PowerSignal { pending: Some(Power::On(RunMode::Capture(CaptureSource::Camera, data))) },
                ..*old(self)
            }),
            old(self).state != State::Off ==> *final(self) == *old(self),
    {
        if self.state == State::Off {
            self.power.turn_on(RunMode::Capture(CaptureSource::Camera, data));
        }
    }

    /// Asks for the FPGA to be powered down.
    pub fn turn_off(&mut self)
        ensures
            *final(self) == (FpgaControl { power: PowerSignal { pending: Some(Power::<RunMode>::Off) }, ..*old(self) }),
    {
        self.power.turn_off();
    }

    pub fn is_off(&self) -> (b: bool)
        ensures
            b == (self.state == State::Off),
    {
        self.state == State::Off
    }

    /// A capture's data is ready.
    pub fn is_done(&self) -> (b: bool)
        ensures
            b == (self.state == State::DataReady),
    {
        self.state == State::DataReady
    }

    /// Takes in a command from the host. A capture from a real source is started
    /// only while the FPGA is off (yielding vessels unless told otherwise); the SPI
    /// flash mode likewise; power-off only while it is on. A flash command is passed
    /// to the flash task only while the FPGA is in SPI flash mode.
    pub fn handle_command(&mut self, flash: &mut FlashControl, command: Command)
        ensures
            final(self).state == old(self).state,
            final(self).lines == old(self).lines,
            final(self).spi_tx == old(self).spi_tx,
            final(self).spi_rx == old(self).spi_rx,
            final(self).vessels == old(self).vessels,
            final(self).power.pending == match command.action {
                Some(Action::Capture) => {
                    if old(self).state == State::Off && command.capture_source is Some
                        && command.capture_source != Some(CaptureSource::Unspecified) {
                        Some(Power::On(RunMode::Capture(
                            command.capture_source.unwrap(),
                            match command.data_request {
                                Some(d) => d,
                                None => DataRequest::Vessels,
                            },
                        )))
                    } else {
                        old(self).power.pending
                    }
                },
                Some(Action::SpiFlash) => {
                    if old(self).state == State::Off {
                        Some(Power::On(RunMode::SpiFlash))
                    } else {
                        old(self).power.pending
                    }
                },
                Some(Action::Off) => {
                    if old(self).state != State::Off {
                        Some(Power::<RunMode>::Off)
                    } else {
                        old(self).power.pending
                    }
                },
                _ => old(self).power.pending,
            },
            old(self).state == State::SpiFlash && command.flash.is_some() ==> {
                &&& final(flash).operation == match (command.flash.unwrap().action, command.flash.unwrap().segment) {
                    (Some(flash_control::Action::Program), Some(s)) => Some(flash_control::Operation::Flash(s)),
                    (Some(flash_control::Action::Readout), Some(s)) => Some(flash_control::Operation::Readout(s)),
                    _ => old(flash).operation,
                }
                &&& final(flash).page_inbox == if old(flash).page_inbox.is_none() && command.flash.unwrap().page.is_some() {
                    command.flash.unwrap().page
                } else {
                    old(flash).page_inbox
                }
                &&& final(flash).readout_request == if command.flash.unwrap().host_page_request.is_some() {
                    command.flash.unwrap().host_page_request
                } else {
                    old(flash).readout_request
                }
            },
            !(old(self).state == State::SpiFlash && command.flash.is_some()) ==> {
                &&& final(flash).operation == old(flash).operation
                &&& final(flash).page_inbox == old(flash).page_inbox
                &&& final(flash).readout_request == old(flash).readout_request
            },
            final(flash).state == old(flash).state,
            final(flash).power == old(flash).power,
            final(flash).rn == old(flash).rn,
            final(flash).readout_page == old(flash).readout_page,
    {
        match command.action {
            Some(Action::Capture) => {
                if self.state == State::Off {
                    if let Some(src) = command.capture_source {
                        if src != CaptureSource::Unspecified {
                            let data_request = match command.data_request {
                                Some(d) => d,
                                None => DataRequest::Vessels,
                            };
                            self.power.turn_on(RunMode::Capture(src, data_request));
                        }
                    }
                }
            },
            Some(Action::SpiFlash) => {
                if self.state == State::Off {
                    self.power.turn_on(RunMode::SpiFlash);
                }
            },
            Some(Action::Off) => {
                if self.state != State::Off {
                    self.power.turn_off();
                }
            },
            _ => {},
        }
        if let Some(flash_cmd) = command.flash {
            if self.state == State::SpiFlash {
                flash.handle_command(flash_cmd);
            }
        }
    }

    /// Queues a logged SPI transfer to the FPGA; dropped when the queue is full.
    pub fn log_spi_tx(&mut self, bytes: Vec<u8>)
        ensures
            old(self).spi_tx@.len() < SPI_LOG_CAPACITY ==> final(self).spi_tx@ == old(self).spi_tx@.push(bytes),
            old(self).spi_tx@.len() >= SPI_LOG_CAPACITY ==> final(self).spi_tx@ == old(self).spi_tx@,
            final(self).state == old(self).state,
            final(self).power == old(self).power,
            final(self).lines == old(self).lines,
            final(self).spi_rx == old(self).spi_rx,
            final(self).vessels == old(self).vessels,
    {
        if self.spi_tx.len() < SPI_LOG_CAPACITY {
            self.spi_tx.push(bytes);
        }
    }

    /// Queues a logged SPI transfer from the FPGA; dropped when the queue is full.
    pub fn log_spi_rx(&mut self, bytes: Vec<u8>)
        ensures
            old(self).spi_rx@.len() < SPI_LOG_CAPACITY ==> final(self).spi_rx@ == old(self).spi_rx@.push(bytes),
            old(self).spi_rx@.len() >= SPI_LOG_CAPACITY ==> final(self).spi_rx@ == old(self).spi_rx@,
            final(self).state == old(self).state,
            final(self).power == old(self).power,
            final(self).lines == old(self).lines,
            final(self).spi_tx == old(self).spi_tx,
            final(self).vessels == old(self).vessels,
    {
        if self.spi_rx.len() < SPI_LOG_CAPACITY {
            self.spi_rx.push(bytes);
        }
    }

    /// The status for the host: state and flash status, plus the oldest waiting
    /// line and SPI transfers and the latest vessel report, each taken out of its queue.
    pub fn get_status(&mut self, flash: flash_control::Status) -> (s: Status)
        ensures
            s.state == old(self).state,
            s.flash == flash,
            final(self).state == old(self).state,
            final(self).power == old(self).power,
            old(self).lines@.len() > 0 ==> s.line == Some(old(self).lines@[0]) && final(self).lines@ == old(self).lines@.drop_first(),
            old(self).lines@.len() == 0 ==> s.line.is_none() && final(self).lines@.len() == 0,
            old(self).spi_tx@.len() > 0 ==> s.spi_tx == Some(old(self).spi_tx@[0]) && final(self).spi_tx@ == old(self).spi_tx@.drop_first(),
            old(self).spi_tx@.len() == 0 ==> s.spi_tx.is_none() && final(self).spi_tx@.len() == 0,
            old(self).spi_rx@.len() > 0 ==> s.spi_rx == Some(old(self).spi_rx@[0]) && final(self).spi_rx@ == old(self).spi_rx@.drop_first(),
            old(self).spi_rx@.len() == 0 ==> s.spi_rx.is_none() && final(self).spi_rx@.len() == 0,
            s.vessels == old(self).vessels,
            final(self).vessels.is_none(),
    {
        let line = if self.lines.len() > 0 { Some(self.lines.remove(0)) } else { None };
        let spi_tx = if self.spi_tx.len() > 0 { Some(self.spi_tx.remove(0)) } else { None };
        let spi_rx = if self.spi_rx.len() > 0 { Some(self.spi_rx.remove(0)) } else { None };
        let vessels = self.vessels.take();
        Status { state: self.state, flash, line, spi_tx, spi_rx, vessels }
    }
}

/// One step of a capture run, in the order the firmware takes them.
#[derive(Clone, Copy, Debug, PartialEq, Eq, Structural)]
pub enum CaptureStep {
    /// Release the FPGA from reset and wait until it reports its configuration done.
    Boot,
    /// Send the command byte that selects the image source.
    SelectSource(u8),
    /// Power the camera and wait until it runs.
    StartCamera,
    /// Pulse the start-capture line.
    Trigger,
    /// Wait for the FPGA to raise data-ready.
    AwaitData,
    /// Power the camera down.
    StopCamera,
    /// Read image line `n` (see [`line_request`]).
    ReadLine(u32),
    /// Read the vessel report, sending this command byte first.
    ReadVessels(u8),
    /// Hold the data-ready state for a while.
    Hold,
}

/// The steps before the data can be read: boot, select the source, run the
/// camera around the capture when it is the source, trigger, await the data.
pub open spec fn capture_setup(src: CaptureSource) -> Seq<CaptureStep> {
    if src == CaptureSource::Camera {
        seq![
            CaptureStep::Boot,
            CaptureStep::SelectSource(capture_code(src)),
            CaptureStep::StartCamera,
            CaptureStep::Trigger,
            CaptureStep::AwaitData,
            CaptureStep::StopCamera,
        ]
    } else {
        seq![
            CaptureStep::Boot,
            CaptureStep::SelectSource(capture_code(src)),
            CaptureStep::Trigger,
            CaptureStep::AwaitData,
        ]
    }
}

/// The steps that read what was asked for: every line in order for an image;
/// the vessel report, then a hold, for vessels; nothing otherwise.
pub open spec fn capture_reads(data: DataRequest) -> Seq<CaptureStep> {
    match data {
        DataRequest::Image => Seq::new(NUM_LINES as nat, |i: int| CaptureStep::ReadLine(i as u32)),
        DataRequest::Vessels => seq![
            CaptureStep::ReadVessels(spi_cmd::code_of(spi_cmd::Command::GetVessels)),
            CaptureStep::Hold,
        ],
        DataRequest::Unspecified => Seq::empty(),
    }
}

/// The whole run of a capture.
pub open spec fn capture_plan(src: CaptureSource, data: DataRequest) -> Seq<CaptureStep> {
    capture_setup(src) + capture_reads(data)
}

/// The steps of a capture from `src` that yields `data`.
pub fn capture_steps(src: CaptureSource, data: DataRequest) -> (steps: Vec<CaptureStep>)
    requires
        src != CaptureSource::Unspecified,
    ensures
        steps@ == capture_plan(src, data),
{
    let mut steps: Vec<CaptureStep> = Vec::new();
    steps.push(CaptureStep::Boot);
    steps.push(CaptureStep::SelectSource(capture_command(src)));
    if src == CaptureSource::Camera {
        steps.push(CaptureStep::StartCamera);
    }
    steps.push(CaptureStep::Trigger);
    steps.push(CaptureStep::AwaitData);
    if src == CaptureSource::Camera {
        steps.push(CaptureStep::StopCamera);
    }
    let ghost setup = steps@;
    assert(setup =~= capture_setup(src));
    match data {
        DataRequest::Image => {
            let mut line: u32 = 0;
            while line < NUM_LINES
                invariant
                    line <= NUM_LINES,
                    setup == capture_setup(src),
                    steps@ == setup + Seq::new(line as nat, |i: int| CaptureStep::ReadLine(i as u32)),
                decreases NUM_LINES - line,
            {
                steps.push(CaptureStep::ReadLine(line));
                line = line + 1;
                assert(steps@ =~= setup + Seq::new(line as nat, |i: int| CaptureStep::ReadLine(i as u32)));
            }
        },
        DataRequest::Vessels => {
            steps.push(CaptureStep::ReadVessels(spi_cmd::Command::GetVessels.code()));
            steps.push(CaptureStep::Hold);
        },
        DataRequest::Unspecified => {},
    }
    assert(steps@ =~= capture_plan(src, data));
    steps
}

/// The state the FPGA reports once a step is done.
pub fn state_after(step: CaptureStep) -> (s: State)
    ensures
        s == match step {
            CaptureStep::Boot | CaptureStep::SelectSource(_) | CaptureStep::StartCamera | CaptureStep::Trigger => State::Running,
            _ => State::DataReady,
        },
{
    match step {
        CaptureStep::Boot | CaptureStep::SelectSource(_) | CaptureStep::StartCamera | CaptureStep::Trigger => State::Running,
        _ => State::DataReady,
    }
}

/// In every capture the data is read only once it is ready, and a camera that
/// was powered for the capture is powered down before then: every read comes
/// after the step that awaits the data, and after the camera's stop.
pub proof fn lemma_reads_follow_data(src: CaptureSource, data: DataRequest)
    ensures
        ({
            let plan = capture_plan(src, data);
            let ready = if src == CaptureSource::Camera { 4int } else { 3int };
            &&& plan[ready] == CaptureStep::AwaitData
            &&& src == CaptureSource::Camera ==> plan[2] == CaptureStep::StartCamera
                && plan[3] == CaptureStep::Trigger && plan[5] == CaptureStep::StopCamera
            &&& forall|i: int| 0 <= i < plan.len() && (plan[i] is ReadLine || plan[i] is ReadVessels) ==> i
                > ready + if src == CaptureSource::Camera { 1int } else { 0int }
        }),
{
    let plan = capture_plan(src, data);
    let setup = capture_setup(src);
    assert forall|i: int| 0 <= i < plan.len() && (plan[i] is ReadLine || plan[i] is ReadVessels) implies i
        >= setup.len() by {
        if i < setup.len() {
            assert(plan[i] == setup[i]);
        }
    }
}

/// An image capture reads the whole image: after its setup (six steps with
/// the camera as source, four otherwise, none of them a read), it reads the
/// lines 0, 1, ..., `NUM_LINES - 1`, each once and in order, and nothing else.
pub proof fn lemma_image_reads_every_line(src: CaptureSource)
    ensures
        ({
            let plan = capture_plan(src, DataRequest::Image);
            let k = if src == CaptureSource::Camera { 6int } else { 4int };
            &&& plan.len() == k + NUM_LINES
            &&& forall|j: int| 0 <= j < k ==> !(#[trigger] plan[j] is ReadLine) && !(plan[j] is ReadVessels)
            &&& forall|i: int| 0 <= i < NUM_LINES ==> #[trigger] plan[k + i] == CaptureStep::ReadLine(i as u32)
        }),
{
    let plan = capture_plan(src, DataRequest::Image);
    let k = if src == CaptureSource::Camera { 6int } else { 4int };
    assert forall|i: int| 0 <= i < NUM_LINES implies #[trigger] plan[k + i] == CaptureStep::ReadLine(i as u32) by {
        assert(plan[k + i] == capture_reads(DataRequest::Image)[i]);
    }
}

/// Every capture boots the FPGA, then selects its source with the source's
/// own command byte: 0x05 (real capture) for the camera, 0x04 for the fake
/// VGA pattern, 0x03 for the fake SRAM pattern; no two sources share a byte.
pub proof fn lemma_capture_selects_source(src: CaptureSource, data: DataRequest)
    requires
        src != CaptureSource::Unspecified,
    ensures
        capture_plan(src, data)[0] == CaptureStep::Boot,
        capture_plan(src, data)[1] == CaptureStep::SelectSource(
            match src {
                CaptureSource::Camera => 0x05u8,
                CaptureSource::FakeVga => 0x04u8,
                _ => 0x03u8,
            },
        ),
        forall|other: CaptureSource|
            other != CaptureSource::Unspecified && other != src ==> capture_code(other) != capture_code(src),
{
}

/// A vessel capture reads the vessel report, with the command that asks for
/// it, once the data is ready, then holds; an unspecified request reads nothing.
pub proof fn lemma_other_captures_read(src: CaptureSource)
    ensures
        ({
            let plan = capture_plan(src, DataRequest::Vessels);
            let k = if src == CaptureSource::Camera { 6int } else { 4int };
            &&& plan.len() == k + 2
            &&& plan[k] == CaptureStep::ReadVessels(spi_cmd::code_of(spi_cmd::Command::GetVessels))
            &&& plan[k + 1] == CaptureStep::Hold
        }),
        capture_plan(src, DataRequest::Unspecified).len() == if src == CaptureSource::Camera { 6int } else { 4int },
        forall|j: int| 0 <= j < capture_plan(src, DataRequest::Unspecified).len() ==> !(#[trigger] capture_plan(
            src,
            DataRequest::Unspecified,
        )[j] is ReadLine) && !(capture_plan(src, DataRequest::Unspecified)[j] is ReadVessels),
{
}

impl FpgaControl {
    /// Offers a read line for the host: kept while there is room (`true`);
    /// otherwise the capture waits and offers it again (`false`).
    pub fn queue_line(&mut self, line: Line) -> (queued: bool)
        ensures
            queued == (old(self).lines@.len() < LINES_CAPACITY),
            queued ==> final(self).lines@ == old(self).lines@.push(line),
            !queued ==> final(self).lines@ == old(self).lines@,
            final(self).state == old(self).state,
            final(self).power == old(self).power,
            final(self).spi_tx == old(self).spi_tx,
            final(self).spi_rx == old(self).spi_rx,
            final(self).vessels == old(self).vessels,
    {
        if self.lines.len() < LINES_CAPACITY {
            self.lines.push(line);
            true
        } else {
            false
        }
    }

    /// Publishes a vessel report for the host, replacing one not yet reported.
    pub fn publish_vessels(&mut self, vessels: Vessels)
        ensures
            *final(self) == (FpgaControl { vessels: Some(vessels), ..*old(self) }),
    {
        self.vessels = Some(vessels);
    }

    /// Records the state a capture step leaves the FPGA in.
    pub fn set_state(&mut self, state: State)
        ensures
            *final(self) == (FpgaControl { state, ..*old(self) }),
    {
        self.state = state;
    }
}

} // verus!
