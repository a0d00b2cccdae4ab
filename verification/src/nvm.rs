//! The sensor's stored parameters: what is kept in non-volatile memory, how it
//! is laid out there, and how host commands change it.
use vstd::prelude::*;
use vstd::utf8::{encode_utf8, is_ascii_chars, is_ascii_chars_encode_utf8};
use crate::camera::{PackedSettings, Settings, default_settings, packed_copy, get_default_settings, pack_camera_settings,
    packed_settings, settings_of, unpack_camera_settings, unpacked_settings, words_of, packed_from_vec, packed_to_vec,
    NUM_REGISTERS};
use crate::user_params::Parameters as HostParameters;

verus! {

/// Whether the parameter store can take a new write.
#[derive(Clone, Copy, Debug, PartialEq, Eq, Structural)]
pub enum State {
    Ready,
    /// A write happened recently; writes wait to spare the flash.
    Cooldown,
}

/// Operations that the host can ask of the parameter store.
#[derive(Clone, Copy, Debug, PartialEq, Eq, Structural)]
pub enum Action {
    Unspecified,
    Read,
    Write,
    ResetAll,
    ResetCamera,
}

/// Longest name, in bytes, that the sensor stores.
pub const NAME_CAPACITY: usize = 7;

/// `heapless::String`, the fixed-capacity string of the `heapless` crate, made
/// known to contracts; its text is given by [`name_text`].
#[verifier::external_type_specification]
#[verifier::external_body]
pub struct ExHeaplessString<const N: usize>(heapless::String<N>);

/// The sensor's name, with room for [`NAME_CAPACITY`] bytes.
pub type Name = heapless::String<NAME_CAPACITY>;

/// The text of a name.
pub uninterp spec fn name_text(n: heapless::String<NAME_CAPACITY>) -> Seq<char>;

/// `heapless::String::try_from(&str)`: the text as a name when its UTF-8 bytes
/// fit the capacity, else nothing (the string is left empty and dropped).
#[verifier::external_body]
fn name_from_str(s: &str) -> (n: Option<Name>)
    ensures
        n.is_some() <==> encode_utf8(s@).len() <= NAME_CAPACITY,
        n.is_some() ==> name_text(n.unwrap()) == s@,
{
    heapless::String::try_from(s).ok()
}

/// `Clone` of `heapless::String`: the same text.
#[verifier::external_body]
fn name_clone(n: &Name) -> (c: Name)
    ensures
        name_text(c) == name_text(*n),
{
    n.clone()
}

/// The sensor's stored parameters.
#[derive(Debug, PartialEq, Eq)]
pub struct Parameters {
    pub name: Name,
    pub supercapacitor_uf: u32,
    /// Camera register settings, packed one word each.
    pub camera_settings: PackedSettings,
}

/// The mathematical content of [`Parameters`].
pub struct ParametersView {
    pub name: Seq<char>,
    pub supercapacitor_uf: u32,
    pub camera_settings: Seq<u32>,
}

impl View for Parameters {
    type V = ParametersView;

    open spec fn view(&self) -> ParametersView {
        ParametersView {
            name: name_text(self.name),
            supercapacitor_uf: self.supercapacitor_uf,
            camera_settings: words_of(self.camera_settings),
        }
    }
}

impl Parameters {
    /// A copy of the parameters.
    pub fn duplicate(&self) -> (p: Parameters)
        ensures
            p@ == self@,
    {
        let settings = packed_copy(&self.camera_settings);
        Parameters {
            name: name_clone(&self.name),
            supercapacitor_uf: self.supercapacitor_uf,
            camera_settings: settings,
        }
    }
}

/// A command from the host to the parameter store.
#[derive(Debug, PartialEq, Eq)]
pub struct Command {
    pub action: Option<Action>,
    pub new_parameters: Option<Parameters>,
}

/// What the parameter store reports to the host.
#[derive(Debug, PartialEq, Eq)]
pub struct Status {
    pub state: State,
    /// Present once after a read or a write was requested.
    pub current_parameters: Option<Parameters>,
}

/// Supercapacitor capacitance assumed when nothing is stored, in µF.
pub const DEFAULT_SUPERCAPACITOR_UF: u32 = 200_000;

/// The parameters used when the store holds nothing valid.
pub open spec fn is_default_parameters(p: ParametersView) -> bool {
    &&& p.name == "unknown"@
    &&& p.supercapacitor_uf == DEFAULT_SUPERCAPACITOR_UF
    &&& p.camera_settings == packed_settings(default_settings())
}

/// The parameters used when the store holds nothing valid: no name, the default
/// supercapacitor, and the camera's default settings.
pub fn default_parameters() -> (p: Parameters)
    ensures
        is_default_parameters(p@),
{
    let settings = get_default_settings();
    proof {
        reveal_strlit("unknown");
        assert(is_ascii_chars("unknown"@));
        is_ascii_chars_encode_utf8("unknown"@);
    }
    let name = name_from_str("unknown").unwrap();
    Parameters {
        name,
        supercapacitor_uf: DEFAULT_SUPERCAPACITOR_UF,
        camera_settings: pack_camera_settings(&settings),
    }
}

/// `heapless::String::as_str`, copied into a `String`: the same text.
#[verifier::external_body]
fn name_to_string(n: &Name) -> (s: String)
    ensures
        s@ == name_text(*n),
{
    n.as_str().to_string()
}

/// Whether parameters as the host sends them fit the sensor's storage: a name
/// of at most [`NAME_CAPACITY`] UTF-8 bytes and no more settings than registers.
pub open spec fn fits_sensor(p: ParametersView) -> bool {
    &&& encode_utf8(p.name).len() <= NAME_CAPACITY
    &&& p.camera_settings.len() <= NUM_REGISTERS
}

impl Parameters {
    /// The parameters as the sensor stores them, from those the host sends;
    /// `None` when they do not fit its storage.
    pub fn from_host(p: &HostParameters) -> (r: Option<Parameters>)
        ensures
            r.is_some() <==> fits_sensor(p@),
            r matches Some(q) ==> q@ == p@,
    {
        if p.camera_settings.len() > NUM_REGISTERS {
            return None;
        }
        match name_from_str(p.name.as_str()) {
            Some(name) => Some(Parameters {
                name,
                supercapacitor_uf: p.supercapacitor_uf,
                camera_settings: packed_from_vec(&p.camera_settings),
            }),
            None => None,
        }
    }

    /// The parameters as the host receives them.
    pub fn to_host(&self) -> (p: HostParameters)
        ensures
            p@ == self@,
    {
        HostParameters {
            name: name_to_string(&self.name),
            supercapacitor_uf: self.supercapacitor_uf,
            camera_settings: packed_to_vec(&self.camera_settings),
        }
    }
}

/// The parameters read at start-up: the decoded ones, or the defaults when
/// reading or decoding failed.
pub fn parameters_or_default(decoded: Option<Parameters>) -> (p: Parameters)
    ensures
        decoded.is_some() ==> p@ == decoded.unwrap()@,
        decoded.is_none() ==> is_default_parameters(p@),
{
    match decoded {
        Some(p) => p,
        None => default_parameters(),
    }
}

/// The parameter store and the requests waiting for it.
pub struct NvmControl {
    pub state: State,
    /// The parameters in effect.
    pub current: Parameters,
    /// Parameters waiting to be written.
    pub new_params: Option<Parameters>,
    /// The host asked to see the parameters.
    pub readout_request: bool,
}

/// What a command asks to be written, given the store's state and current parameters.
pub open spec fn requested_write(state: State, current: ParametersView, command: Command) -> Option<ParametersView> {
    if state != State::Ready {
        None
    } else {
        match command.action {
            Some(Action::Write) => match command.new_parameters {
                Some(p) => Some(p@),
                None => None,
            },
            Some(Action::ResetAll) => Some(ParametersView {
                name: "unknown"@,
                supercapacitor_uf: DEFAULT_SUPERCAPACITOR_UF,
                camera_settings: packed_settings(default_settings()),
            }),
            Some(Action::ResetCamera) => Some(ParametersView {
                name: current.name,
                supercapacitor_uf: current.supercapacitor_uf,
                camera_settings: packed_settings(default_settings()),
            }),
            _ => None,
        }
    }
}

/// Writes wait for the store: while it cools down after a write, no command
/// of any kind queues parameters; while it is ready, exactly a write that
/// carries parameters and the two resets queue something, and a write queues
/// the parameters it carries. A read never queues anything.
pub proof fn lemma_writes_only_when_ready(state: State, current: ParametersView, command: Command)
    ensures
        state != State::Ready ==> requested_write(state, current, command).is_none(),
        state == State::Ready ==> (requested_write(state, current, command).is_some() <==> (
        (command.action == Some(Action::Write) && command.new_parameters.is_some())
            || command.action == Some(Action::ResetAll) || command.action == Some(Action::ResetCamera))),
        state == State::Ready && command.action == Some(Action::Write) && command.new_parameters.is_some()
            ==> requested_write(state, current, command) == Some(command.new_parameters.unwrap()@),
        command.action == Some(Action::Read) ==> requested_write(state, current, command).is_none(),
{
}

/// A reset to defaults queues the default parameters, whatever is in effect;
/// a reset of the camera queues the default camera settings and keeps the
/// name and capacitance in effect.
pub proof fn lemma_resets_queue_defaults(current: ParametersView, command: Command)
    ensures
        command.action == Some(Action::ResetAll) ==> is_default_parameters(
            requested_write(State::Ready, current, command).unwrap(),
        ),
        command.action == Some(Action::ResetCamera) ==> {
            let w = requested_write(State::Ready, current, command).unwrap();
            &&& w.name == current.name
            &&& w.supercapacitor_uf == current.supercapacitor_uf
            &&& w.camera_settings == packed_settings(default_settings())
        },
{
}

impl NvmControl {
    /// The store once the parameters have been read at start-up.
    pub fn new(current: Parameters) -> (c: Self)
        ensures
            c.state == State::Ready,
            c.current@ == current@,
            c.new_params.is_none(),
            !c.readout_request,
    {
        NvmControl { state: State::Ready, current, new_params: None, readout_request: false }
    }

    /// A copy of the parameters in effect.
    pub fn get_parameters(&self) -> (p: Parameters)
        ensures
            p@ == self.current@,
    {
        self.current.duplicate()
    }

    /// The sensor's name.
    pub fn get_name(&self) -> (n: Name)
        ensures
            name_text(n) == self.current@.name,
    {
        name_clone(&self.current.name)
    }

    /// The camera settings in effect, unpacked.
    pub fn get_camera_settings(&self) -> (s: Settings)
        ensures
            settings_of(s) == unpacked_settings(self.current@.camera_settings),
    {
        unpack_camera_settings(&self.current.camera_settings)
    }

    /// Takes in a command from the host. A read request is always noted; a write,
    /// a reset to defaults, or a reset of the camera settings (keeping name and
    /// capacitance) is queued only while the store is ready.
    pub fn handle_command(&mut self, command: Command)
        ensures
            final(self).state == old(self).state,
            final(self).current@ == old(self).current@,
            final(self).readout_request == (old(self).readout_request || command.action == Some(Action::Read)),
            ({
                let w = requested_write(old(self).state, old(self).current@, command);
                &&& w.is_some() ==> final(self).new_params.is_some() && final(self).new_params.unwrap()@ == w.unwrap()
                &&& w.is_none() ==> final(self).new_params == old(self).new_params
            }),
    {
        let ghost w = requested_write(self.state, self.current@, command);
        match command.action {
            Some(Action::Read) => {
                self.readout_request = true;
            },
            Some(Action::Write) => {
                if self.state == State::Ready {
                    if let Some(new_params) = command.new_parameters {
                        self.new_params = Some(new_params);
                    }
                }
            },
            Some(Action::ResetAll) => {
                if self.state == State::Ready {
                    let p = default_parameters();
                    self.new_params = Some(p);
                }
            },
            Some(Action::ResetCamera) => {
                if self.state == State::Ready {
                    let mut new_params = self.get_parameters();
                    let defaults = get_default_settings();
                    new_params.camera_settings = pack_camera_settings(&defaults);
                    new_params.name = self.get_name();
                    self.new_params = Some(new_params);
                }
            },
            _ => {},
        }
    }

    /// The status for the host: the state, and the parameters once after each request to see them.
    pub fn get_status(&mut self) -> (s: Status)
        ensures
            s.state == old(self).state,
            old(self).readout_request ==> s.current_parameters.is_some()
                && s.current_parameters.unwrap()@ == old(self).current@,
            !old(self).readout_request ==> s.current_parameters.is_none(),
            !final(self).readout_request,
            final(self).state == old(self).state,
            final(self).current@ == old(self).current@,
            final(self).new_params == old(self).new_params,
    {
        let current_parameters = if self.readout_request {
            self.readout_request = false;
            Some(self.get_parameters())
        } else {
            None
        };
        Status { state: self.state, current_parameters }
    }

    /// Takes the parameters waiting to be written, if any.
    pub fn take_new_parameters(&mut self) -> (p: Option<Parameters>)
        ensures
            p == old(self).new_params,
            final(self).new_params.is_none(),
            final(self).state == old(self).state,
            final(self).current@ == old(self).current@,
            final(self).readout_request == old(self).readout_request,
    {
        self.new_params.take()
    }

    /// After a write: the written parameters take effect, the host gets to see
    /// them, and further writes wait for the cool-down.
    pub fn commit(&mut self, written: Parameters)
        ensures
            final(self).current@ == written@,
            final(self).readout_request,
            final(self).state == State::Cooldown,
            final(self).new_params == old(self).new_params,
    {
        self.current = written;
        self.readout_request = true;
        self.state = State::Cooldown;
    }

    /// The cool-down is over; writes are taken again.
    pub fn end_cooldown(&mut self)
        ensures
            final(self).state == State::Ready,
            final(self).current@ == old(self).current@,
            final(self).new_params == old(self).new_params,
            final(self).readout_request == old(self).readout_request,
    {
        self.state = State::Ready;
    }
}

/// Start of the microcontroller's flash in its address space.
pub const FLASH_ORIGIN: u32 = 0x0800_0000;
/// Start of the parameter area.
pub const NVM_ORIGIN: u32 = 0x0803_8000;
/// Offset of the parameter area within the flash.
pub const NVM_OFFSET: u32 = 0x3_8000;
/// Erase unit of the microcontroller's flash, in bytes.
pub const PAGE_SIZE: u32 = 0x400;
/// Write unit of the microcontroller's flash, in bytes.
pub const WRITE_SIZE: usize = 8;
/// Where the length of the stored encoding is kept.
pub const LENGTH_OFFSET: u32 = 0x3_8000;
/// Where the stored encoding starts.
pub const PROTO_OFFSET: u32 = 0x3_8008;

/// The layout constants agree with one another.
pub proof fn lemma_layout_consistent()
    ensures
        NVM_OFFSET == NVM_ORIGIN - FLASH_ORIGIN,
        LENGTH_OFFSET == NVM_OFFSET,
        PROTO_OFFSET == NVM_OFFSET + WRITE_SIZE,
        NVM_OFFSET % PAGE_SIZE == 0,
{
}

/// Smallest multiple of `m` that is at least `n`.
pub open spec fn next_multiple_of(n: int, m: int) -> int {
    if n % m == 0 { n } else { n + (m - n % m) }
}

/// Room reserved for the encoding: its largest size, rounded up to the write unit.
pub fn param_size(max_encoded_size: usize) -> (n: usize)
    requires
        max_encoded_size + WRITE_SIZE <= usize::MAX,
    ensures
        n == next_multiple_of(max_encoded_size as int, WRITE_SIZE as int),
{
    if max_encoded_size % WRITE_SIZE == 0 {
        max_encoded_size
    } else {
        max_encoded_size + (WRITE_SIZE - max_encoded_size % WRITE_SIZE)
    }
}

/// The range erased before a write: from the length field to the end of the
/// page that holds the last reserved byte.
pub fn erase_range(param_size: u32) -> (r: (u32, u32))
    requires
        PROTO_OFFSET + param_size + PAGE_SIZE <= u32::MAX,
    ensures
        r.0 == LENGTH_OFFSET,
        r.1 == next_multiple_of(PROTO_OFFSET + param_size, PAGE_SIZE as int),
        r.1 % PAGE_SIZE == 0,
        r.1 >= PROTO_OFFSET + param_size,
{
    let end = PROTO_OFFSET + param_size;
    let end = if end % PAGE_SIZE == 0 { end } else { end + (PAGE_SIZE - end % PAGE_SIZE) };
    (LENGTH_OFFSET, end)
}

/// The length field as written: the length in little-endian order, padded with zeros to the write unit.
pub fn length_field(len: u32) -> (b: [u8; 8])
    ensures
        b@ == crate::page::le_bytes(len) + seq![0u8, 0u8, 0u8, 0u8],
{
    let le = crate::page::u32_to_le_bytes(len);
    let b = [le[0], le[1], le[2], le[3], 0, 0, 0, 0];
    assert(b@ =~= crate::page::le_bytes(len) + seq![0u8, 0u8, 0u8, 0u8]);
    b
}

/// The length read back from the first four bytes of the length field.
pub fn read_length(bytes: &[u8; 4]) -> (len: u32)
    ensures
        len == bytes@[0] + bytes@[1] * 0x100 + bytes@[2] * 0x1_0000 + bytes@[3] * 0x100_0000,
{
    (bytes[0] as u32) + (bytes[1] as u32) * 0x100 + (bytes[2] as u32) * 0x1_0000 + (bytes[3] as u32) * 0x100_0000
}

/// Reading the length field back gives the length that was written.
pub proof fn lemma_length_roundtrip(len: u32)
    ensures
        ({
            let b = crate::page::le_bytes(len);
            b[0] + b[1] * 0x100 + b[2] * 0x1_0000 + b[3] * 0x100_0000 == len
        }),
{
}

} // verus!
