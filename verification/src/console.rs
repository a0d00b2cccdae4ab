//! What the host's terminal tools decide and show: which key quits, how far
//! the status view scrolls, titles, which serial port is a board, and the text
//! of logged SPI traffic.
use vstd::prelude::*;
use vstd::string::StringExecFns;
use crate::user_params::{hex_char, two_hex_digits};

verus! {

/// A key as the terminal tools tell keys apart.
#[derive(Clone, Copy, Debug, PartialEq, Eq, Structural)]
pub enum Key {
    Char(char),
    Esc,
    Other,
}

/// The status views quit on `q`, Esc, or Ctrl-C.
pub fn quits_view(key: Key, control: bool) -> (q: bool)
    ensures
        q == (key == Key::Char('q') || key == Key::Esc || (key == Key::Char('c') && control)),
{
    match key {
        Key::Char('q') | Key::Esc => true,
        Key::Char('c') => control,
        _ => false,
    }
}

/// The base station's input handler quits on `q` or Ctrl-C.
pub fn quits_input(key: Key, control: bool) -> (q: bool)
    ensures
        q == (key == Key::Char('q') || (key == Key::Char('c') && control)),
{
    match key {
        Key::Char('q') => true,
        Key::Char('c') => control,
        _ => false,
    }
}

/// Lines scrolled per mouse wheel step.
pub const SCROLL_STEP: u16 = 3;

/// The scroll offset after a wheel step, held within `0..=u16::MAX`.
pub fn scrolled(scroll: u16, down: bool) -> (s: u16)
    ensures
        down ==> s == (if scroll + SCROLL_STEP > u16::MAX { u16::MAX as int } else { scroll + SCROLL_STEP }),
        !down ==> s == (if scroll < SCROLL_STEP { 0 } else { scroll - SCROLL_STEP }),
{
    if down {
        scroll.saturating_add(SCROLL_STEP)
    } else {
        scroll.saturating_sub(SCROLL_STEP)
    }
}

/// The title of the sensor status view: the sensor's name once a status
/// arrived ("-" when it has none), else that no board is connected.
pub fn sensor_title(status_name: Option<Option<String>>) -> (t: String)
    ensures
        status_name matches None ==> t@ == "No Sensor Boards connected"@,
        status_name matches Some(None) ==> t@ == "Connected to "@ + "-"@,
        status_name matches Some(Some(n)) ==> t@ == "Connected to "@ + n@,
{
    match status_name {
        None => String::from_str("No Sensor Boards connected"),
        Some(name) => {
            let mut t = String::from_str("Connected to ");
            match name {
                Some(n) => t.append(n.as_str()),
                None => t.append("-"),
            }
            t
        },
    }
}

/// The source a status is logged under: the sensor's name, or "unknown".
pub fn log_source(name: Option<String>) -> (s: String)
    ensures
        name matches Some(n) ==> s@ == n@,
        name matches None ==> s@ == "unknown"@,
{
    match name {
        Some(n) => n,
        None => String::from_str("unknown"),
    }
}

/// A string is present and holds exactly `text`.
pub open spec fn holds_text(s: Option<String>, text: Seq<char>) -> bool {
    s matches Some(v) && v@ == text
}

fn is_text(s: &Option<String>, text: &str) -> (b: bool)
    ensures
        b == holds_text(*s, text@),
{
    match s {
        Some(v) => {
            let t = String::from_str(text);
            *v == t
        },
        None => false,
    }
}

/// A USB serial port is a sensor board when it says so.
pub fn is_sensor_board(manufacturer: &Option<String>, product: &Option<String>) -> (b: bool)
    ensures
        b == (holds_text(*manufacturer, "amber"@) && holds_text(*product, "Sensor Board"@)),
{
    is_text(manufacturer, "amber") && is_text(product, "Sensor Board")
}

/// A USB serial port is the base station when it says so.
pub fn is_base_station(manufacturer: &Option<String>, product: &Option<String>) -> (b: bool)
    ensures
        b == (holds_text(*manufacturer, "Amber"@) && holds_text(*product, "Base Station"@)),
{
    is_text(manufacturer, "Amber") && is_text(product, "Base Station")
}

/// A byte as two lowercase hex digits.
pub open spec fn byte_text(b: u8) -> Seq<char> {
    seq![hex_char(b / 16), hex_char(b % 16)]
}

/// Bytes as two-digit hex numbers separated by single spaces.
pub open spec fn dump_text(bytes: Seq<u8>) -> Seq<char>
    decreases bytes.len(),
{
    if bytes.len() == 0 {
        Seq::empty()
    } else if bytes.len() == 1 {
        byte_text(bytes[0])
    } else {
        dump_text(bytes.drop_last()) + " "@ + byte_text(bytes.last())
    }
}

/// The text of logged SPI traffic: the bytes in hex, separated by spaces.
pub fn hex_dump(bytes: &Vec<u8>) -> (s: String)
    ensures
        s@ == dump_text(bytes@),
{
    let mut s = String::new();
    let mut i: usize = 0;
    while i < bytes.len()
        invariant
            i <= bytes@.len(),
            s@ == dump_text(bytes@.take(i as int)),
        decreases bytes@.len() - i,
    {
        let piece = two_hex_digits(bytes[i]);
        if i > 0 {
            s.append(" ");
        }
        s.append(piece.as_str());
        let ghost t = bytes@.take(i + 1);
        assert(t.drop_last() =~= bytes@.take(i as int));
        if i == 0 {
            assert(s@ =~= byte_text(bytes@[0]));
        } else {
            assert(s@ =~= dump_text(bytes@.take(i as int)) + " "@ + byte_text(bytes@[i as int]));
        }
        i = i + 1;
    }
    assert(bytes@.take(bytes@.len() as int) =~= bytes@);
    s
}

} // verus!
