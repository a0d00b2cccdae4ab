//! The camera (OV7670): its register set, default settings, settings packing,
//! and the power state of the camera subsystem.
use vstd::prelude::*;
use crate::power::{Power, PowerSignal};

verus! {

/// The camera registers that the firmware addresses.
#[allow(non_camel_case_types)]
#[derive(Clone, Copy, Debug, PartialEq, Eq, Structural)]
pub enum Reg {
    VREF,
    COM3,
    CLKRC,
    COM7,
    COM10,
    HSTART,
    HSTOP,
    VSTRT,
    VSTOP,
    MIDH,
    HREF,
    TSLB,
    COM14,
    COM15,
    SCALING_XSC,
    SCALING_YSC,
    SCALING_DCWCTR,
    SCALING_PCLK_DIV,
    SCALING_PCLK_DELAY,
}

/// Address of a register on the camera's control bus.
pub open spec fn reg_addr(r: Reg) -> u8 {
    match r {
        Reg::VREF => 0x03,
        Reg::COM3 => 0x0c,
        Reg::CLKRC => 0x11,
        Reg::COM7 => 0x12,
        Reg::COM10 => 0x15,
        Reg::HSTART => 0x17,
        Reg::HSTOP => 0x18,
        Reg::VSTRT => 0x19,
        Reg::VSTOP => 0x1a,
        Reg::MIDH => 0x1c,
        Reg::HREF => 0x32,
        Reg::TSLB => 0x3a,
        Reg::COM14 => 0x3e,
        Reg::COM15 => 0x40,
        Reg::SCALING_XSC => 0x70,
        Reg::SCALING_YSC => 0x71,
        Reg::SCALING_DCWCTR => 0x72,
        Reg::SCALING_PCLK_DIV => 0x73,
        Reg::SCALING_PCLK_DELAY => 0xa2,
    }
}

/// The register at an address, if the firmware knows one there.
pub open spec fn reg_at(a: u8) -> Option<Reg> {
    if a == 0x03 { Some(Reg::VREF) }
    else if a == 0x0c { Some(Reg::COM3) }
    else if a == 0x11 { Some(Reg::CLKRC) }
    else if a == 0x12 { Some(Reg::COM7) }
    else if a == 0x15 { Some(Reg::COM10) }
    else if a == 0x17 { Some(Reg::HSTART) }
    else if a == 0x18 { Some(Reg::HSTOP) }
    else if a == 0x19 { Some(Reg::VSTRT) }
    else if a == 0x1a { Some(Reg::VSTOP) }
    else if a == 0x1c { Some(Reg::MIDH) }
    else if a == 0x32 { Some(Reg::HREF) }
    else if a == 0x3a { Some(Reg::TSLB) }
    else if a == 0x3e { Some(Reg::COM14) }
    else if a == 0x40 { Some(Reg::COM15) }
    else if a == 0x70 { Some(Reg::SCALING_XSC) }
    else if a == 0x71 { Some(Reg::SCALING_YSC) }
    else if a == 0x72 { Some(Reg::SCALING_DCWCTR) }
    else if a == 0x73 { Some(Reg::SCALING_PCLK_DIV) }
    else if a == 0xa2 { Some(Reg::SCALING_PCLK_DELAY) }
    else { None }
}

/// Every register is found again at its own address.
pub proof fn lemma_reg_at_addr(r: Reg)
    ensures
        reg_at(reg_addr(r)) == Some(r),
{
}

impl Reg {
    /// The register's address.
    pub fn addr(self) -> (a: u8)
        ensures
            a == reg_addr(self),
    {
        match self {
            Reg::VREF => 0x03,
            Reg::COM3 => 0x0c,
            Reg::CLKRC => 0x11,
            Reg::COM7 => 0x12,
            Reg::COM10 => 0x15,
            Reg::HSTART => 0x17,
            Reg::HSTOP => 0x18,
            Reg::VSTRT => 0x19,
            Reg::VSTOP => 0x1a,
            Reg::MIDH => 0x1c,
            Reg::HREF => 0x32,
            Reg::TSLB => 0x3a,
            Reg::COM14 => 0x3e,
            Reg::COM15 => 0x40,
            Reg::SCALING_XSC => 0x70,
            Reg::SCALING_YSC => 0x71,
            Reg::SCALING_DCWCTR => 0x72,
            Reg::SCALING_PCLK_DIV => 0x73,
            Reg::SCALING_PCLK_DELAY => 0xa2,
        }
    }

    /// The register at address `a`, if any.
    pub fn from_repr(a: u8) -> (r: Option<Reg>)
        ensures
            r == reg_at(a),
    {
        if a == 0x03 { Some(Reg::VREF) }
        else if a == 0x0c { Some(Reg::COM3) }
        else if a == 0x11 { Some(Reg::CLKRC) }
        else if a == 0x12 { Some(Reg::COM7) }
        else if a == 0x15 { Some(Reg::COM10) }
        else if a == 0x17 { Some(Reg::HSTART) }
        else if a == 0x18 { Some(Reg::HSTOP) }
        else if a == 0x19 { Some(Reg::VSTRT) }
        else if a == 0x1a { Some(Reg::VSTOP) }
        else if a == 0x1c { Some(Reg::MIDH) }
        else if a == 0x32 { Some(Reg::HREF) }
        else if a == 0x3a { Some(Reg::TSLB) }
        else if a == 0x3e { Some(Reg::COM14) }
        else if a == 0x40 { Some(Reg::COM15) }
        else if a == 0x70 { Some(Reg::SCALING_XSC) }
        else if a == 0x71 { Some(Reg::SCALING_YSC) }
        else if a == 0x72 { Some(Reg::SCALING_DCWCTR) }
        else if a == 0x73 { Some(Reg::SCALING_PCLK_DIV) }
        else if a == 0xa2 { Some(Reg::SCALING_PCLK_DELAY) }
        else { None }
    }
}

/// The manufacturer identification (high byte) the camera reports in `MIDH`.
pub const MIDH_INITIAL: u8 = 0x7f;

/// The camera answers on its control bus with the right manufacturer identification.
pub fn midh_matches(midh: u8) -> (ok: bool)
    ensures
        ok == (midh == MIDH_INITIAL),
{
    midh == MIDH_INITIAL
}

/// Active sensor width, in pixels.
pub const SENSOR_WIDTH: u16 = 640;
/// Active sensor height, in lines.
pub const SENSOR_HEIGHT: u16 = 480;
/// Columns of horizontal blanking per line.
pub const BLANK_COLUMNS: u16 = 144;

/// First active line of the window.
pub const VSTART: u16 = 10;
/// First active column of the window.
pub const HSTART: u16 = 176;
pub const EDGE_OFFSET: u16 = 0;
pub const PCLK_DELAY: u8 = 2;

/// Room for one setting per register that the firmware knows.
pub const NUM_REGISTERS: usize = 19;

/// `heapless::Vec`, the fixed-capacity vector of the `heapless` crate, made
/// known to contracts; what it holds is given by the names below.
#[verifier::external_type_specification]
#[verifier::external_body]
#[verifier::reject_recursive_types(T)]
pub struct ExHeaplessVec<T, const N: usize>(heapless::Vec<T, N>);

/// Register settings, one entry per setting, with room for every register.
pub type Settings = heapless::Vec<(Reg, u8), NUM_REGISTERS>;

/// Packed register settings, one word per setting, with room for every register.
pub type PackedSettings = heapless::Vec<u32, NUM_REGISTERS>;

/// The settings a [`Settings`] vector holds, in order.
pub uninterp spec fn settings_of(v: heapless::Vec<(Reg, u8), NUM_REGISTERS>) -> Seq<(Reg, u8)>;

/// The words a [`PackedSettings`] vector holds, in order.
pub uninterp spec fn words_of(v: heapless::Vec<u32, NUM_REGISTERS>) -> Seq<u32>;

/// `heapless::Vec::new`: an empty vector.
#[verifier::external_body]
fn settings_new() -> (v: Settings)
    ensures
        settings_of(v) == Seq::<(Reg, u8)>::empty(),
{
    heapless::Vec::new()
}

/// `heapless::Vec::push`: appends when there is room (`true`), else leaves the
/// vector as it was (`false`; the item comes back in an `Err`, dropped here).
#[verifier::external_body]
fn settings_push(v: &mut Settings, s: (Reg, u8)) -> (pushed: bool)
    ensures
        pushed <==> settings_of(*old(v)).len() < NUM_REGISTERS,
        settings_of(*final(v)) == if settings_of(*old(v)).len() < NUM_REGISTERS {
            settings_of(*old(v)).push(s)
        } else {
            settings_of(*old(v))
        },
{
    v.push(s).is_ok()
}

/// `heapless::Vec::len`: the number of items, never above the capacity.
#[verifier::external_body]
fn settings_len(v: &Settings) -> (n: usize)
    ensures
        n == settings_of(*v).len(),
        n <= NUM_REGISTERS,
{
    v.len()
}

/// Indexing a `heapless::Vec` (through its slice): the item at `i`.
#[verifier::external_body]
fn setting_at(v: &Settings, i: usize) -> (s: (Reg, u8))
    requires
        i < settings_of(*v).len(),
    ensures
        s == settings_of(*v)[i as int],
{
    v[i]
}

/// `heapless::Vec::new`: an empty vector.
#[verifier::external_body]
fn words_new() -> (v: PackedSettings)
    ensures
        words_of(v) == Seq::<u32>::empty(),
{
    heapless::Vec::new()
}

/// `heapless::Vec::push`: appends when there is room (`true`), else leaves the
/// vector as it was (`false`; the item comes back in an `Err`, dropped here).
#[verifier::external_body]
fn words_push(v: &mut PackedSettings, w: u32) -> (pushed: bool)
    ensures
        pushed <==> words_of(*old(v)).len() < NUM_REGISTERS,
        words_of(*final(v)) == if words_of(*old(v)).len() < NUM_REGISTERS {
            words_of(*old(v)).push(w)
        } else {
            words_of(*old(v))
        },
{
    v.push(w).is_ok()
}

/// `heapless::Vec::len`: the number of items, never above the capacity.
#[verifier::external_body]
fn words_len(v: &PackedSettings) -> (n: usize)
    ensures
        n == words_of(*v).len(),
        n <= NUM_REGISTERS,
{
    v.len()
}

/// Indexing a `heapless::Vec` (through its slice): the item at `i`.
#[verifier::external_body]
fn word_at(v: &PackedSettings, i: usize) -> (w: u32)
    requires
        i < words_of(*v).len(),
    ensures
        w == words_of(*v)[i as int],
{
    v[i]
}

/// The register writes that configure the camera for capture, in order.
pub open spec fn default_settings() -> Seq<(Reg, u8)> {
    seq![
        (Reg::CLKRC, 0x00u8),
        (Reg::TSLB, 0x00u8),
        (Reg::COM10, 0x00u8),
        (Reg::COM7, 0x00u8),
        (Reg::COM15, 0xc0u8),
        (Reg::COM3, 0x04u8),
        (Reg::COM14, 0x19u8),
        (Reg::SCALING_XSC, 0x3au8),
        (Reg::SCALING_YSC, 0x35u8),
        (Reg::SCALING_DCWCTR, 0x11u8),
        (Reg::SCALING_PCLK_DIV, 0xf1u8),
        (Reg::SCALING_PCLK_DELAY, PCLK_DELAY),
        (Reg::HSTART, 22u8),
        (Reg::HSTOP, 4u8),
        (Reg::HREF, 0u8),
        (Reg::VSTRT, 2u8),
        (Reg::VSTOP, 122u8),
        (Reg::VREF, 10u8),
    ]
}

/// The camera's default settings: YUV output with a free-running pixel clock,
/// windowed from `HSTART`/`VSTART` over the full sensor.
pub fn get_default_settings() -> (v: Settings)
    ensures
        settings_of(v) == default_settings(),
{
    let vstop: u16 = VSTART + SENSOR_HEIGHT;
    let hstop: u16 = (HSTART + SENSOR_WIDTH) % (SENSOR_WIDTH + BLANK_COLUMNS);
    assert(vstop == 490 && hstop == 32);
    let href = ((EDGE_OFFSET << 6u16) as u8) | (((hstop & 0b111) << 3u16) as u8) | ((HSTART & 0b111) as u8);
    assert(href == 0) by (bit_vector)
        requires hstop == 32u16, EDGE_OFFSET == 0u16, HSTART == 176u16,
            href == ((EDGE_OFFSET << 6u16) as u8) | (((hstop & 0b111) << 3u16) as u8) | ((HSTART & 0b111) as u8);
    let hstart_reg = (HSTART >> 3u16) as u8;
    let hstop_reg = (hstop >> 3u16) as u8;
    let vstart_reg = (VSTART >> 2u16) as u8;
    let vstop_reg = (vstop >> 2u16) as u8;
    let vref = (((vstop & 0b11) << 2u16) as u8) | ((VSTART & 0b11) as u8);
    assert(hstart_reg == 22 && hstop_reg == 4 && vstart_reg == 2 && vstop_reg == 122 && vref == 10) by (bit_vector)
        requires hstop == 32u16, vstop == 490u16, HSTART == 176u16, VSTART == 10u16,
            hstart_reg == (HSTART >> 3u16) as u8, hstop_reg == (hstop >> 3u16) as u8,
            vstart_reg == (VSTART >> 2u16) as u8, vstop_reg == (vstop >> 2u16) as u8,
            vref == (((vstop & 0b11) << 2u16) as u8) | ((VSTART & 0b11) as u8);
    let mut v = settings_new();
    settings_push(&mut v, (Reg::CLKRC, 0x00));
    settings_push(&mut v, (Reg::TSLB, 0x00));
    settings_push(&mut v, (Reg::COM10, 0x00));
    settings_push(&mut v, (Reg::COM7, 0x00));
    settings_push(&mut v, (Reg::COM15, 0xc0));
    settings_push(&mut v, (Reg::COM3, 0x04));
    settings_push(&mut v, (Reg::COM14, 0x19));
    settings_push(&mut v, (Reg::SCALING_XSC, 0x3a));
    settings_push(&mut v, (Reg::SCALING_YSC, 0x35));
    settings_push(&mut v, (Reg::SCALING_DCWCTR, 0x11));
    settings_push(&mut v, (Reg::SCALING_PCLK_DIV, 0xf1));
    settings_push(&mut v, (Reg::SCALING_PCLK_DELAY, PCLK_DELAY));
    settings_push(&mut v, (Reg::HSTART, hstart_reg));
    settings_push(&mut v, (Reg::HSTOP, hstop_reg));
    settings_push(&mut v, (Reg::HREF, href));
    settings_push(&mut v, (Reg::VSTRT, vstart_reg));
    settings_push(&mut v, (Reg::VSTOP, vstop_reg));
    settings_push(&mut v, (Reg::VREF, vref));
    assert(settings_of(v) =~= default_settings());
    v
}

/// A setting packed into a word: register address in the low byte, value in the next.
pub open spec fn packed_setting(s: (Reg, u8)) -> u32 {
    (reg_addr(s.0) + s.1 * 0x100) as u32
}

/// Settings packed one word per setting, in order.
pub open spec fn packed_settings(settings: Seq<(Reg, u8)>) -> Seq<u32> {
    settings.map_values(|s: (Reg, u8)| packed_setting(s))
}

/// The setting a word holds, if its low byte addresses a known register.
pub open spec fn unpacked_setting(u: u32) -> Option<(Reg, u8)> {
    match reg_at((u % 0x100) as u8) {
        Some(r) => Some((r, ((u / 0x100) % 0x100) as u8)),
        None => None,
    }
}

/// The settings a list of words holds, in order, skipping words for unknown registers.
pub open spec fn unpacked_settings(packed: Seq<u32>) -> Seq<(Reg, u8)>
    decreases packed.len(),
{
    if packed.len() == 0 {
        Seq::empty()
    } else {
        let rest = unpacked_settings(packed.drop_last());
        match unpacked_setting(packed.last()) {
            Some(s) => rest.push(s),
            None => rest,
        }
    }
}

/// Packs settings for storage: `[register, value, 0, 0]` as a little-endian word each.
pub fn pack_camera_settings(settings: &Settings) -> (packed: PackedSettings)
    ensures
        words_of(packed) == packed_settings(settings_of(*settings)),
{
    let ghost s = settings_of(*settings);
    let n = settings_len(settings);
    let mut packed = words_new();
    let mut i: usize = 0;
    while i < n
        invariant
            n == s.len(),
            n <= NUM_REGISTERS,
            s == settings_of(*settings),
            i <= n,
            words_of(packed) == packed_settings(s.take(i as int)),
        decreases n - i,
    {
        let (reg, val) = setting_at(settings, i);
        words_push(&mut packed, (reg.addr() as u32) + (val as u32) * 0x100);
        assert(s.take(i as int + 1) =~= s.take(i as int).push(s[i as int]));
        i = i + 1;
        assert(words_of(packed) =~= packed_settings(s.take(i as int)));
    }
    assert(s.take(n as int) =~= s);
    packed
}

/// Unpacks stored settings, dropping words whose register is unknown.
pub fn unpack_camera_settings(packed: &PackedSettings) -> (settings: Settings)
    ensures
        settings_of(settings) == unpacked_settings(words_of(*packed)),
{
    let ghost w = words_of(*packed);
    let n = words_len(packed);
    let mut settings = settings_new();
    let mut i: usize = 0;
    while i < n
        invariant
            n == w.len(),
            n <= NUM_REGISTERS,
            w == words_of(*packed),
            i <= n,
            settings_of(settings) == unpacked_settings(w.take(i as int)),
            settings_of(settings).len() <= i,
        decreases n - i,
    {
        let u = word_at(packed, i);
        let reg = (u % 0x100) as u8;
        let val = ((u / 0x100) % 0x100) as u8;
        assert(w.take(i as int + 1).drop_last() =~= w.take(i as int));
        match Reg::from_repr(reg) {
            Some(r) => {
                settings_push(&mut settings, (r, val));
            },
            None => {},
        }
        i = i + 1;
    }
    assert(w.take(n as int) =~= w);
    settings
}

/// The words of packed settings, in a growable vector.
pub fn packed_to_vec(packed: &PackedSettings) -> (v: Vec<u32>)
    ensures
        v@ == words_of(*packed),
{
    let ghost w = words_of(*packed);
    let n = words_len(packed);
    let mut v: Vec<u32> = Vec::new();
    let mut i: usize = 0;
    while i < n
        invariant
            n == w.len(),
            w == words_of(*packed),
            i <= n,
            v@ == w.take(i as int),
        decreases n - i,
    {
        v.push(word_at(packed, i));
        i = i + 1;
        assert(v@ =~= w.take(i as int));
    }
    assert(w.take(n as int) =~= w);
    v
}

/// A copy of packed settings.
pub fn packed_copy(packed: &PackedSettings) -> (c: PackedSettings)
    ensures
        words_of(c) == words_of(*packed),
{
    let ghost w = words_of(*packed);
    let n = words_len(packed);
    let mut c = words_new();
    let mut i: usize = 0;
    while i < n
        invariant
            n == w.len(),
            n <= NUM_REGISTERS,
            w == words_of(*packed),
            i <= n,
            words_of(c) == w.take(i as int),
        decreases n - i,
    {
        words_push(&mut c, word_at(packed, i));
        i = i + 1;
        assert(words_of(c) =~= w.take(i as int));
    }
    assert(w.take(n as int) =~= w);
    c
}

/// Words that fit, as packed settings.
pub fn packed_from_vec(v: &Vec<u32>) -> (packed: PackedSettings)
    requires
        v@.len() <= NUM_REGISTERS,
    ensures
        words_of(packed) == v@,
{
    let mut packed = words_new();
    let mut i: usize = 0;
    while i < v.len()
        invariant
            v@.len() <= NUM_REGISTERS,
            i <= v@.len(),
            words_of(packed) == v@.take(i as int),
        decreases v@.len() - i,
    {
        words_push(&mut packed, v[i]);
        i = i + 1;
        assert(words_of(packed) =~= v@.take(i as int));
    }
    assert(v@.take(v@.len() as int) =~= v@);
    packed
}

/// Address of the camera on its control bus.
pub const SCCB_ADDRESS: u8 = 0x21;

/// The bytes that write `data` into register `reg`: the register's address, then the value.
pub fn write_register_frame(reg: Reg, data: u8) -> (b: [u8; 2])
    ensures
        b@ == seq![reg_addr(reg), data],
{
    let b = [reg.addr(), data];
    assert(b@ =~= seq![reg_addr(reg), data]);
    b
}

/// The byte written before reading register `reg` back: the register's address.
pub fn read_register_frame(reg: Reg) -> (b: [u8; 1])
    ensures
        b@ == seq![reg_addr(reg)],
{
    let b = [reg.addr()];
    assert(b@ =~= seq![reg_addr(reg)]);
    b
}

/// The bus writes that apply settings, one per setting, in order.
pub open spec fn configuration_writes(settings: Seq<(Reg, u8)>) -> Seq<Seq<u8>> {
    settings.map_values(|s: (Reg, u8)| seq![reg_addr(s.0), s.1])
}

/// The bus writes that configure the camera with `settings`.
pub fn configuration_frames(settings: &Settings) -> (frames: Vec<[u8; 2]>)
    ensures
        frames@.len() == settings_of(*settings).len(),
        forall|i: int| 0 <= i < frames@.len() ==> #[trigger] frames@[i]@ == configuration_writes(settings_of(*settings))[i],
{
    let ghost s = settings_of(*settings);
    let n = settings_len(settings);
    let mut frames: Vec<[u8; 2]> = Vec::new();
    let mut i: usize = 0;
    while i < n
        invariant
            n == s.len(),
            s == settings_of(*settings),
            i <= n,
            frames@.len() == i,
            forall|k: int| 0 <= k < i ==> #[trigger] frames@[k]@ == configuration_writes(s)[k],
        decreases n - i,
    {
        let (reg, val) = setting_at(settings, i);
        frames.push(write_register_frame(reg, val));
        i = i + 1;
    }
    frames
}

/// What happens to the camera task.
#[derive(Clone, Copy, Debug, PartialEq, Eq, Structural)]
pub enum CameraEvent {
    /// Power was switched on.
    PoweredOn,
    /// `MIDH` was read back (`None`: the bus did not answer).
    Probed(Option<u8>),
    /// The hard reset pulse is over.
    ResetDone,
    /// The last register write is over (whether or not the camera took it).
    Written,
    /// The settings have had time to apply.
    Settled,
    /// Power was switched off.
    PoweredOff,
}

/// What the camera task does next.
#[derive(Clone, Copy, Debug, PartialEq, Eq, Structural)]
pub enum CameraAction {
    /// Read `MIDH` over the control bus (again).
    Probe,
    /// Pulse the camera's reset line.
    Reset,
    /// Write a register (see [`write_register_frame`]).
    Write(Reg, u8),
    /// Wait for the settings to apply.
    Settle,
    /// Nothing to do.
    Idle,
}

/// Progress of bringing the camera up.
#[derive(Clone, Copy, Debug, PartialEq, Eq, Structural)]
pub struct CameraRun {
    /// The camera answered with the right identification.
    pub answered: bool,
    /// How many settings have been written.
    pub written: usize,
}

/// The camera's state and progress after an event, and what the task does
/// next: after power-on it boots, probing `MIDH` until the camera answers with
/// the right identification; then it is reset, configured with `settings` one
/// register after another, given time to apply them, and runs. Power-off
/// stops everything.
pub open spec fn camera_step(state: State, run: CameraRun, settings: Seq<(Reg, u8)>, e: CameraEvent) -> (
    State,
    CameraRun,
    CameraAction,
) {
    let idle = (state, run, CameraAction::Idle);
    match e {
        CameraEvent::PoweredOff => (State::Off, CameraRun { answered: false, written: 0 }, CameraAction::Idle),
        CameraEvent::PoweredOn => if state == State::Off {
            (State::Booting, CameraRun { answered: false, written: 0 }, CameraAction::Probe)
        } else {
            idle
        },
        CameraEvent::Probed(m) => if state == State::Booting && !run.answered {
            if m == Some(MIDH_INITIAL) {
                (state, CameraRun { answered: true, ..run }, CameraAction::Reset)
            } else {
                (state, run, CameraAction::Probe)
            }
        } else {
            idle
        },
        CameraEvent::ResetDone => if state == State::Booting && run.answered {
            (
                State::Configuring,
                CameraRun { written: 0, ..run },
                if settings.len() > 0 { CameraAction::Write(settings[0].0, settings[0].1) } else { CameraAction::Settle },
            )
        } else {
            idle
        },
        CameraEvent::Written => if state == State::Configuring && run.written < settings.len() {
            let n = (run.written + 1) as usize;
            (
                state,
                CameraRun { written: n, ..run },
                if n < settings.len() { CameraAction::Write(settings[n as int].0, settings[n as int].1) } else { CameraAction::Settle },
            )
        } else {
            idle
        },
        CameraEvent::Settled => if state == State::Configuring && run.written == settings.len() {
            (State::Running, run, CameraAction::Idle)
        } else {
            idle
        },
    }
}

impl CameraControl {
    /// The power request the camera task takes next, as an event.
    pub fn take_power_event(&mut self) -> (e: Option<CameraEvent>)
        ensures
            old(self).power.pending == Some(Power::On(())) ==> e == Some(CameraEvent::PoweredOn),
            old(self).power.pending == Some(Power::<()>::Off) ==> e == Some(CameraEvent::PoweredOff),
            old(self).power.pending.is_none() ==> e.is_none(),
            *final(self) == (CameraControl { power: PowerSignal { pending: None }, ..*old(self) }),
    {
        match self.power.pending.take() {
            Some(Power::On(())) => Some(CameraEvent::PoweredOn),
            Some(Power::Off) => Some(CameraEvent::PoweredOff),
            None => None,
        }
    }

    /// Takes an event of the camera task, with the settings in effect.
    pub fn on_event(&mut self, run: CameraRun, settings: &Settings, e: CameraEvent) -> (r: (CameraRun, CameraAction))
        requires
            run.written <= settings_of(*settings).len(),
        ensures
            (final(self).state, r.0, r.1) == camera_step(old(self).state, run, settings_of(*settings), e),
            final(self).power == old(self).power,
            r.0.written <= settings_of(*settings).len(),
    {
        let n = settings_len(settings);
        match e {
            CameraEvent::PoweredOff => {
                self.state = State::Off;
                (CameraRun { answered: false, written: 0 }, CameraAction::Idle)
            },
            CameraEvent::PoweredOn => if self.state == State::Off {
                self.state = State::Booting;
                (CameraRun { answered: false, written: 0 }, CameraAction::Probe)
            } else {
                (run, CameraAction::Idle)
            },
            CameraEvent::Probed(m) => if self.state == State::Booting && !run.answered {
                let matches = match m {
                    Some(v) => midh_matches(v),
                    None => false,
                };
                if matches {
                    (CameraRun { answered: true, ..run }, CameraAction::Reset)
                } else {
                    (run, CameraAction::Probe)
                }
            } else {
                (run, CameraAction::Idle)
            },
            CameraEvent::ResetDone => if self.state == State::Booting && run.answered {
                self.state = State::Configuring;
                let a = if n > 0 {
                    let (reg, val) = setting_at(settings, 0);
                    CameraAction::Write(reg, val)
                } else {
                    CameraAction::Settle
                };
                (CameraRun { written: 0, ..run }, a)
            } else {
                (run, CameraAction::Idle)
            },
            CameraEvent::Written => if self.state == State::Configuring && run.written < n {
                let w = run.written + 1;
                let a = if w < n {
                    let (reg, val) = setting_at(settings, w);
                    CameraAction::Write(reg, val)
                } else {
                    CameraAction::Settle
                };
                (CameraRun { written: w, ..run }, a)
            } else {
                (run, CameraAction::Idle)
            },
            CameraEvent::Settled => if self.state == State::Configuring && run.written == n {
                self.state = State::Running;
                (run, CameraAction::Idle)
            } else {
                (run, CameraAction::Idle)
            },
        }
    }
}

/// The camera runs only once it is configured: it enters Running only from
/// Configuring, after every setting was written and given time to apply; it
/// enters Configuring only from Booting after it answered with the right
/// identification; and it leaves Off only on power-on, for Booting.
pub proof fn lemma_camera_run_order(state: State, run: CameraRun, settings: Seq<(Reg, u8)>, e: CameraEvent)
    ensures
        ({
            let (next, next_run, _) = camera_step(state, run, settings, e);
            &&& next == State::Running && state != State::Running ==> state == State::Configuring
                && run.written == settings.len() && e == CameraEvent::Settled
            &&& next == State::Configuring && state != State::Configuring ==> state == State::Booting && run.answered
                && next_run.written == 0
            &&& state == State::Off && next != State::Off ==> next == State::Booting && e == CameraEvent::PoweredOn
            &&& e == CameraEvent::PoweredOff ==> next == State::Off
        }),
{
}

/// The camera after its reset is acknowledged and `k` writes are reported done.
pub open spec fn after_writes(settings: Seq<(Reg, u8)>, k: nat) -> (State, CameraRun, CameraAction)
    decreases k,
{
    if k == 0 {
        camera_step(State::Booting, CameraRun { answered: true, written: 0 }, settings, CameraEvent::ResetDone)
    } else {
        let (st, run, _) = after_writes(settings, (k - 1) as nat);
        camera_step(st, run, settings, CameraEvent::Written)
    }
}

/// Configuration writes every setting once, in the order given: once the
/// reset is done and `k` writes were reported, the camera is configuring with
/// `k` settings written, and writes setting `k` next, or, after the last one,
/// waits for the settings to apply; it then runs. An identification probe
/// that does not answer `MIDH_INITIAL` is probed again.
pub proof fn lemma_camera_writes_settings_in_order(settings: Seq<(Reg, u8)>, k: nat, m: Option<u8>)
    requires
        k <= settings.len(),
        settings.len() <= NUM_REGISTERS,
    ensures
        after_writes(settings, k) == (
            State::Configuring,
            CameraRun { answered: true, written: k as usize },
            if k < settings.len() { CameraAction::Write(settings[k as int].0, settings[k as int].1) } else { CameraAction::Settle },
        ),
        k == settings.len() ==> camera_step(
            State::Configuring,
            CameraRun { answered: true, written: k as usize },
            settings,
            CameraEvent::Settled,
        ).0 == State::Running,
        m != Some(MIDH_INITIAL) ==> camera_step(
            State::Booting,
            CameraRun { answered: false, written: 0 },
            settings,
            CameraEvent::Probed(m),
        ) == (State::Booting, CameraRun { answered: false, written: 0 }, CameraAction::Probe),
    decreases k,
{
    if k > 0 {
        lemma_camera_writes_settings_in_order(settings, (k - 1) as nat, m);
        assert(((k - 1) as usize + 1) as usize == k as usize);
    }
}

/// Packing settings and unpacking them again gives the same settings, in the same order.
pub proof fn lemma_unpack_pack(settings: Seq<(Reg, u8)>)
    ensures
        unpacked_settings(packed_settings(settings)) == settings,
    decreases settings.len(),
{
    if settings.len() > 0 {
        let s = settings.last();
        lemma_unpack_pack(settings.drop_last());
        assert(packed_settings(settings).drop_last() =~= packed_settings(settings.drop_last()));
        lemma_reg_at_addr(s.0);
        assert(unpacked_setting(packed_setting(s)) == Some(s));
        assert(settings.drop_last().push(s) =~= settings);
    }
}

/// The power states of the camera subsystem.
#[derive(Clone, Copy, Debug, PartialEq, Eq, Structural)]
pub enum State {
    Off,
    Booting,
    Configuring,
    Running,
}

/// The camera subsystem as other parts of the firmware see it.
#[derive(Clone, Copy, Debug, PartialEq, Eq)]
pub struct CameraControl {
    pub state: State,
    pub power: PowerSignal<()>,
}

/// What the camera reports about itself.
#[derive(Clone, Copy, Debug, PartialEq, Eq, Structural)]
pub struct Status {
    pub state: State,
}

impl CameraControl {
    /// The camera starts powered off with no request pending.
    pub fn new() -> (c: Self)
        ensures
            c.state == State::Off,
            c.power.pending.is_none(),
    {
        CameraControl { state: State::Off, power: PowerSignal::new() }
    }

    pub fn get_status(&self) -> (s: Status)
        ensures
            s.state == self.state,
    {
        Status { state: self.state }
    }

    /// Requests the camera to power up.
    pub fn turn_on(&mut self)
        ensures
            *final(self) == (CameraControl { power: PowerSignal { pending: Some(Power::On(())) }, ..*old(self) }),
    {
        self.power.turn_on(());
    }

    /// Requests the camera to power down.
    pub fn turn_off(&mut self)
        ensures
            *final(self) == (CameraControl { power: PowerSignal { pending: Some(Power::<()>::Off) }, ..*old(self) }),
    {
        self.power.turn_off();
    }

    pub fn is_off(&self) -> (b: bool)
        ensures
            b == (self.state == State::Off),
    {
        self.state == State::Off
    }

    pub fn is_running(&self) -> (b: bool)
        ensures
            b == (self.state == State::Running),
    {
        self.state == State::Running
    }
}

} // verus!
