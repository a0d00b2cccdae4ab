//! The host's editable form of the sensor parameters: register values written
//! as hex text ("0x1a"), a readable name, and conversion to and from the packed
//! form that the sensor stores.
use vstd::prelude::*;
use vstd::string::StringExecFns;
use vstd::utf8::{encode_utf8, is_ascii_chars, is_ascii_chars_encode_utf8};
use crate::camera::{Reg, packed_setting, reg_addr, reg_at, unpacked_setting};
use crate::nvm::ParametersView;

verus! {

/// Longest name, in bytes, that the sensor can store.
pub const MAX_NAME_LEN: usize = 7;

/// Why user parameters cannot be stored.
#[derive(Debug, PartialEq, Eq)]
pub enum ConversionError {
    /// The name is longer than [`MAX_NAME_LEN`] bytes.
    NameTooLong,
    /// A register value is not of the form "0x1A"; the text is kept.
    InvalidHex(String),
}

/// The value of an ASCII hex digit (either case), if the byte is one.
pub open spec fn hex_digit(b: u8) -> Option<u8> {
    if 0x30 <= b <= 0x39 {
        Some((b - 0x30) as u8)
    } else if 0x61 <= b <= 0x66 {
        Some((b - 0x61 + 10) as u8)
    } else if 0x41 <= b <= 0x46 {
        Some((b - 0x41 + 10) as u8)
    } else {
        None
    }
}

/// Whether every byte is a hex digit.
pub open spec fn all_hex_digits(digits: Seq<u8>) -> bool {
    forall|i: int| 0 <= i < digits.len() ==> (#[trigger] hex_digit(digits[i])).is_some()
}

/// The number that hex digits spell, most significant first.
pub open spec fn hex_number(digits: Seq<u8>) -> nat
    decreases digits.len(),
{
    if digits.len() == 0 {
        0
    } else {
        let d = match hex_digit(digits.last()) {
            Some(v) => v as nat,
            None => 0,
        };
        16 * hex_number(digits.drop_last()) + d
    }
}

/// The byte that hex text denotes: "0x", an optional "+", then at least one
/// hex digit, with a value that fits a byte.
pub open spec fn hex_byte(text: Seq<u8>) -> Option<u8> {
    if text.len() < 2 || text[0] != 0x30 || text[1] != 0x78 {
        None
    } else {
        let rest = text.skip(2);
        let digits = if rest.len() > 0 && rest[0] == 0x2b { rest.skip(1) } else { rest };
        if digits.len() >= 1 && all_hex_digits(digits) && hex_number(digits) <= 0xff {
            Some(hex_number(digits) as u8)
        } else {
            None
        }
    }
}

/// A byte with a lowercase hex letter (a..f) turned uppercase (A..F); any other byte as it is.
pub open spec fn upper_hex(b: u8) -> u8 {
    if 0x61 <= b <= 0x66 { (b - 0x20) as u8 } else { b }
}

/// Text with its hex letters spelled in uppercase.
pub open spec fn upper_hex_text(text: Seq<u8>) -> Seq<u8> {
    text.map_values(|b: u8| upper_hex(b))
}

/// Hex digits read in either case: 0..9 are 0 to 9, and both a..f and A..F
/// are 10 to 15; no other byte is a digit. A letter and its uppercase
/// spelling are the same digit.
pub proof fn lemma_hex_digit_either_case(b: u8)
    ensures
        0x30 <= b <= 0x39 ==> hex_digit(b) == Some((b - 0x30) as u8),
        0x61 <= b <= 0x66 ==> hex_digit(b) == Some((b - 0x57) as u8),
        0x41 <= b <= 0x46 ==> hex_digit(b) == Some((b - 0x37) as u8),
        !(0x30 <= b <= 0x39 || 0x61 <= b <= 0x66 || 0x41 <= b <= 0x46) ==> hex_digit(b).is_none(),
        hex_digit(upper_hex(b)) == hex_digit(b),
{
}

proof fn lemma_hex_number_upper(digits: Seq<u8>)
    ensures
        hex_number(upper_hex_text(digits)) == hex_number(digits),
        all_hex_digits(upper_hex_text(digits)) == all_hex_digits(digits),
    decreases digits.len(),
{
    let u = upper_hex_text(digits);
    assert forall|i: int| 0 <= i < digits.len() implies #[trigger] hex_digit(u[i]) == hex_digit(digits[i]) by {
        lemma_hex_digit_either_case(digits[i]);
    }
    if !all_hex_digits(digits) {
        let i = choose|i: int| 0 <= i < digits.len() && !(#[trigger] hex_digit(digits[i])).is_some();
        assert(!hex_digit(u[i]).is_some());
    }
    if digits.len() > 0 {
        lemma_hex_number_upper(digits.drop_last());
        assert(u.drop_last() =~= upper_hex_text(digits.drop_last()));
        lemma_hex_digit_either_case(digits.last());
    }
}

/// Register values read the same in either case: text parses to the same
/// byte (or fails the same way) as its spelling with uppercase hex letters,
/// so "0xff", "0xFF" and "0xfF" all give 255.
pub proof fn lemma_hex_byte_either_case(text: Seq<u8>)
    ensures
        hex_byte(upper_hex_text(text)) == hex_byte(text),
{
    let u = upper_hex_text(text);
    if text.len() >= 2 {
        let rest = text.skip(2);
        assert(u.skip(2) =~= upper_hex_text(rest));
        if rest.len() > 0 {
            assert(upper_hex_text(rest).skip(1) =~= upper_hex_text(rest.skip(1)));
        }
        lemma_hex_number_upper(rest);
        if rest.len() > 0 {
            lemma_hex_number_upper(rest.skip(1));
        }
    }
}

/// Leading zeros do not change a value: hex digits with a zero in front spell
/// the same number, and are hex digits exactly when they were.
proof fn lemma_leading_zero(digits: Seq<u8>)
    ensures
        hex_number(seq![0x30u8] + digits) == hex_number(digits),
        all_hex_digits(seq![0x30u8] + digits) == (hex_digit(0x30) is Some && all_hex_digits(digits)),
    decreases digits.len(),
{
    let z = seq![0x30u8] + digits;
    assert forall|i: int| 0 <= i < digits.len() implies #[trigger] z[i + 1] == digits[i] by {}
    if !all_hex_digits(digits) {
        let i = choose|i: int| 0 <= i < digits.len() && !(#[trigger] hex_digit(digits[i])).is_some();
        assert(!hex_digit(z[i + 1]).is_some());
    }
    if all_hex_digits(digits) {
        assert forall|i: int| 0 <= i < z.len() implies (#[trigger] hex_digit(z[i])).is_some() by {
            if i > 0 {
                assert(z[i] == digits[i - 1]);
            }
        }
    }
    if digits.len() == 0 {
        assert(z.drop_last() =~= Seq::<u8>::empty());
        assert(hex_number(Seq::<u8>::empty()) == 0);
        assert(z.last() == 0x30u8);
        assert(hex_number(z) == 16 * hex_number(z.drop_last()) + 0);
    } else {
        lemma_leading_zero(digits.drop_last());
        assert(z.drop_last() =~= seq![0x30u8] + digits.drop_last());
        assert(z.last() == digits.last());
    }
}

/// Register text reads the same with a zero or a "+" after "0x": "0x0ff",
/// "0x+ff" and "0xff" all give 255, and "0x0" is 0.
pub proof fn lemma_hex_byte_padding(digits: Seq<u8>)
    requires
        digits.len() >= 1,
        digits[0] != 0x2b,
    ensures
        hex_byte(seq![0x30u8, 0x78u8] + seq![0x30u8] + digits) == hex_byte(seq![0x30u8, 0x78u8] + digits),
        hex_byte(seq![0x30u8, 0x78u8, 0x2bu8] + digits) == hex_byte(seq![0x30u8, 0x78u8] + digits),
        hex_byte(seq![0x30u8, 0x78u8, 0x30u8]) == Some(0u8),
{
    let pre = seq![0x30u8, 0x78u8];
    assert((pre + seq![0x30u8] + digits).skip(2) =~= seq![0x30u8] + digits);
    assert((pre + digits).skip(2) =~= digits);
    assert((seq![0x30u8, 0x78u8, 0x2bu8] + digits).skip(2).skip(1) =~= digits);
    lemma_leading_zero(digits);
    assert(seq![0x30u8, 0x78u8, 0x30u8].skip(2) =~= seq![0x30u8]);
    lemma_leading_zero(Seq::empty());
    assert(seq![0x30u8] + Seq::<u8>::empty() =~= seq![0x30u8]);
}

/// The lowercase hex digit for a value below 16.
pub open spec fn hex_char(d: u8) -> char {
    if d < 10 {
        (0x30 + d) as char
    } else {
        (0x61 + d - 10) as char
    }
}

/// How a register value is written for the user: "0x" and two lowercase hex digits.
pub open spec fn hex_text(val: u8) -> Seq<char> {
    seq!['0', 'x', hex_char(val / 16), hex_char(val % 16)]
}

proof fn lemma_hex_number_grows(digits: Seq<u8>, d: u8)
    requires
        hex_digit(d).is_some(),
    ensures
        hex_number(digits.push(d)) == 16 * hex_number(digits) + hex_digit(d).unwrap(),
{
    assert(digits.push(d).drop_last() =~= digits);
}

/// Reads a register value written as hex text.
pub fn parse_hex(text: &String) -> (r: Result<u8, ConversionError>)
    ensures
        match hex_byte(encode_utf8(text@)) {
            Some(v) => r == Ok::<u8, ConversionError>(v),
            None => r matches Err(ConversionError::InvalidHex(t)) && t@ == text@,
        },
{
    let bytes = text.as_str().as_bytes();
    let ghost b = encode_utf8(text@);
    assert(bytes@ == b);
    let n = bytes.len();
    if n < 2 || bytes[0] != 0x30 || bytes[1] != 0x78 {
        return Err(ConversionError::InvalidHex(text.clone()));
    }
    let mut start: usize = 2;
    if n > 2 && bytes[2] == 0x2b {
        start = 3;
    }
    let ghost digits = b.skip(start as int);
    assert(digits =~= (if b.skip(2).len() > 0 && b.skip(2)[0] == 0x2b { b.skip(2).skip(1) } else { b.skip(2) }));
    if start >= n {
        return Err(ConversionError::InvalidHex(text.clone()));
    }
    // The value read so far, held at 0x100 once it no longer fits a byte.
    let mut acc: u32 = 0;
    let mut i: usize = start;
    while i < n
        invariant
            start <= i <= n,
            n == b.len(),
            bytes@ == b,
            b == encode_utf8(text@),
            digits == b.skip(start as int),
            b.len() >= 2 && b[0] == 0x30 && b[1] == 0x78,
            digits == (if b.skip(2).len() > 0 && b.skip(2)[0] == 0x2b { b.skip(2).skip(1) } else { b.skip(2) }),
            all_hex_digits(b.subrange(start as int, i as int)),
            acc as nat == if hex_number(b.subrange(start as int, i as int)) <= 0xff {
                hex_number(b.subrange(start as int, i as int))
            } else {
                0x100
            },
        decreases n - i,
    {
        let c = bytes[i];
        let v: u32 = if 0x30 <= c && c <= 0x39 {
            (c - 0x30) as u32
        } else if 0x61 <= c && c <= 0x66 {
            (c - 0x61 + 10) as u32
        } else if 0x41 <= c && c <= 0x46 {
            (c - 0x41 + 10) as u32
        } else {
            assert(digits[i - start] == c);
            assert(hex_digit(digits[i - start]).is_none());
            assert(!all_hex_digits(digits));
            return Err(ConversionError::InvalidHex(text.clone()));
        };
        let ghost prefix = b.subrange(start as int, i as int);
        proof {
            lemma_hex_number_grows(prefix, c);
            assert(b.subrange(start as int, i + 1) =~= prefix.push(c));
        }
        acc = if acc > 0xff { 0x100 } else {
            let next = acc * 16 + v;
            if next > 0xff { 0x100 } else { next }
        };
        i = i + 1;
        assert(all_hex_digits(b.subrange(start as int, i as int))) by {
            assert forall|k: int| 0 <= k < b.subrange(start as int, i as int).len() implies
                (#[trigger] hex_digit(b.subrange(start as int, i as int)[k])).is_some() by {
                if k < prefix.len() {
                    assert(b.subrange(start as int, i as int)[k] == prefix[k]);
                }
            }
        }
    }
    assert(b.subrange(start as int, n as int) =~= digits);
    if acc > 0xff {
        Err(ConversionError::InvalidHex(text.clone()))
    } else {
        Ok(acc as u8)
    }
}

/// The hex digit `d` (below 16) as text: a lowercase digit.
fn hex_digit_text(d: u8) -> (s: &'static str)
    requires
        d < 16,
    ensures
        s@ == seq![hex_char(d)],
{
    match d {
        0 => {
            proof {
                reveal_strlit("0");
            }
            "0"
        },
        1 => {
            proof {
                reveal_strlit("1");
            }
            "1"
        },
        2 => {
            proof {
                reveal_strlit("2");
            }
            "2"
        },
        3 => {
            proof {
                reveal_strlit("3");
            }
            "3"
        },
        4 => {
            proof {
                reveal_strlit("4");
            }
            "4"
        },
        5 => {
            proof {
                reveal_strlit("5");
            }
            "5"
        },
        6 => {
            proof {
                reveal_strlit("6");
            }
            "6"
        },
        7 => {
            proof {
                reveal_strlit("7");
            }
            "7"
        },
        8 => {
            proof {
                reveal_strlit("8");
            }
            "8"
        },
        9 => {
            proof {
                reveal_strlit("9");
            }
            "9"
        },
        10 => {
            proof {
                reveal_strlit("a");
            }
            "a"
        },
        11 => {
            proof {
                reveal_strlit("b");
            }
            "b"
        },
        12 => {
            proof {
                reveal_strlit("c");
            }
            "c"
        },
        13 => {
            proof {
                reveal_strlit("d");
            }
            "d"
        },
        14 => {
            proof {
                reveal_strlit("e");
            }
            "e"
        },
        _ => {
            proof {
                reveal_strlit("f");
            }
            "f"
        },
    }
}

/// A byte as two lowercase hex digits.
pub(crate) fn two_hex_digits(b: u8) -> (s: String)
    ensures
        s@ == seq![hex_char(b / 16), hex_char(b % 16)],
{
    let mut s = String::new();
    s.append(hex_digit_text(b / 16));
    s.append(hex_digit_text(b % 16));
    s
}

/// Writes a register value as hex text for the user.
pub fn to_hex(val: u8) -> (s: String)
    ensures
        s@ == hex_text(val),
{
    let mut s = String::new();
    proof {
        reveal_strlit("0x");
    }
    s.append("0x");
    let digits = two_hex_digits(val);
    s.append(digits.as_str());
    assert(s@ =~= hex_text(val));
    s
}

proof fn lemma_hex_char_digit(d: u8)
    requires
        d < 16,
    ensures
        (hex_char(d) as u32) < 0x80,
        hex_digit(hex_char(d) as u8) == Some(d),
{
}

/// Hex text written for a value reads back as that value.
pub proof fn lemma_hex_roundtrip(val: u8)
    ensures
        hex_byte(encode_utf8(hex_text(val))) == Some(val),
{
    let t = hex_text(val);
    lemma_hex_char_digit(val / 16);
    lemma_hex_char_digit(val % 16);
    assert(is_ascii_chars(t));
    is_ascii_chars_encode_utf8(t);
    let b = encode_utf8(t);
    assert(b.len() == 4);
    assert(b[0] == 0x30 && b[1] == 0x78);
    let digits = b.skip(2);
    assert(digits[0] == hex_char(val / 16) as u8);
    assert(digits[1] == hex_char(val % 16) as u8);
    let d1 = digits.drop_last();
    assert(d1.len() == 1 && d1.last() == digits[0]);
    assert(d1.drop_last() =~= Seq::<u8>::empty());
    assert(hex_number(d1.drop_last()) == 0);
    assert(hex_number(d1) == (val / 16) as nat);
    assert(hex_number(digits) == 16 * (val / 16) as nat + (val % 16) as nat);
}

/// The sensor parameters as the host exchanges them with the sensor.
#[derive(Debug, PartialEq, Eq)]
pub struct Parameters {
    pub name: String,
    pub supercapacitor_uf: u32,
    /// Camera register settings, packed one word each.
    pub camera_settings: Vec<u32>,
}

impl View for Parameters {
    type V = ParametersView;

    open spec fn view(&self) -> ParametersView {
        ParametersView {
            name: self.name@,
            supercapacitor_uf: self.supercapacitor_uf,
            camera_settings: self.camera_settings@,
        }
    }
}

/// The parameters as the user edits them.
#[derive(Debug, PartialEq, Eq)]
pub struct UserParameters {
    pub name: String,
    pub supercapacitor_uf: u32,
    /// Register values as hex text, one entry per register, in the order the
    /// registers were first set.
    pub camera_settings: Vec<(Reg, String)>,
}

/// The mathematical content of [`UserParameters`].
pub struct UserParametersView {
    pub name: Seq<char>,
    pub supercapacitor_uf: u32,
    pub camera_settings: Seq<(Reg, Seq<char>)>,
}

/// Register settings with their text taken by value.
pub open spec fn settings_view(settings: Seq<(Reg, String)>) -> Seq<(Reg, Seq<char>)> {
    settings.map_values(|s: (Reg, String)| (s.0, s.1@))
}

impl View for UserParameters {
    type V = UserParametersView;

    open spec fn view(&self) -> UserParametersView {
        UserParametersView {
            name: self.name@,
            supercapacitor_uf: self.supercapacitor_uf,
            camera_settings: settings_view(self.camera_settings@),
        }
    }
}

/// The value that a setting's text denotes, if it is valid hex text.
pub open spec fn text_value(text: Seq<char>) -> Option<u8> {
    hex_byte(encode_utf8(text))
}

/// Whether the setting at `i` has valid hex text.
pub open spec fn valid_setting(settings: Seq<(Reg, Seq<char>)>, i: int) -> bool {
    text_value(settings[i].1).is_some()
}

/// Whether every setting has valid hex text.
pub open spec fn all_valid(settings: Seq<(Reg, Seq<char>)>) -> bool {
    forall|i: int| 0 <= i < settings.len() ==> #[trigger] valid_setting(settings, i)
}

/// Whether `k` is the first setting whose text is not valid hex.
pub open spec fn first_invalid(settings: Seq<(Reg, Seq<char>)>, k: int) -> bool {
    &&& 0 <= k < settings.len()
    &&& !valid_setting(settings, k)
    &&& forall|j: int| 0 <= j < k ==> #[trigger] valid_setting(settings, j)
}

/// Valid settings packed one word each, in order.
pub open spec fn packed_user_settings(settings: Seq<(Reg, Seq<char>)>) -> Seq<u32> {
    settings.map_values(|s: (Reg, Seq<char>)| packed_setting((s.0, text_value(s.1).unwrap())))
}

/// The last position of a register among settings, or -1.
pub open spec fn index_of_reg(settings: Seq<(Reg, Seq<char>)>, r: Reg) -> int
    decreases settings.len(),
{
    if settings.len() == 0 {
        -1
    } else if settings.last().0 == r {
        settings.len() - 1
    } else {
        index_of_reg(settings.drop_last(), r)
    }
}

/// Settings with register `r` set to `text`: replaced where it is, else added at the end.
pub open spec fn with_setting(settings: Seq<(Reg, Seq<char>)>, r: Reg, text: Seq<char>) -> Seq<(Reg, Seq<char>)> {
    let i = index_of_reg(settings, r);
    if i >= 0 {
        settings.update(i, (r, text))
    } else {
        settings.push((r, text))
    }
}

/// The user's settings for packed words, in order: words for unknown registers
/// are dropped, and a later word for a register replaces an earlier one.
pub open spec fn user_settings(packed: Seq<u32>) -> Seq<(Reg, Seq<char>)>
    decreases packed.len(),
{
    if packed.len() == 0 {
        Seq::empty()
    } else {
        let rest = user_settings(packed.drop_last());
        match unpacked_setting(packed.last()) {
            Some(s) => with_setting(rest, s.0, hex_text(s.1)),
            None => rest,
        }
    }
}

/// No register has two entries.
pub open spec fn distinct_regs(settings: Seq<(Reg, Seq<char>)>) -> bool {
    forall|i: int, j: int| 0 <= i < j < settings.len() ==> #[trigger] settings[i].0 != #[trigger] settings[j].0
}

proof fn lemma_with_setting_distinct(settings: Seq<(Reg, Seq<char>)>, r: Reg, text: Seq<char>)
    requires
        distinct_regs(settings),
    ensures
        distinct_regs(with_setting(settings, r, text)),
{
    lemma_index_of_reg(settings, r);
    let n = with_setting(settings, r, text);
    let k = index_of_reg(settings, r);
    assert forall|i: int, j: int| 0 <= i < j < n.len() implies #[trigger] n[i].0 != #[trigger] n[j].0 by {
        if k < 0 {
            if j == settings.len() {
                assert(n[i] == settings[i]);
                if settings[i].0 == r {
                    assert(false);
                }
            } else {
                assert(n[i] == settings[i] && n[j] == settings[j]);
            }
        } else if i == k {
            assert(n[j] == settings[j]);
        } else if j == k {
            assert(n[i] == settings[i]);
        } else {
            assert(n[i] == settings[i] && n[j] == settings[j]);
        }
    }
}

proof fn lemma_index_of_reg(settings: Seq<(Reg, Seq<char>)>, r: Reg)
    ensures
        -1 <= index_of_reg(settings, r) < settings.len(),
        index_of_reg(settings, r) >= 0 ==> settings[index_of_reg(settings, r)].0 == r,
        forall|j: int| index_of_reg(settings, r) < j < settings.len() ==> settings[j].0 != r,
    decreases settings.len(),
{
    if settings.len() > 0 && settings.last().0 != r {
        lemma_index_of_reg(settings.drop_last(), r);
        assert forall|j: int| index_of_reg(settings, r) < j < settings.len() implies settings[j].0 != r by {
            if j < settings.len() - 1 {
                assert(settings[j] == settings.drop_last()[j]);
            }
        }
    }
}

/// Finds the last entry for register `r`.
fn find_reg(settings: &Vec<(Reg, String)>, r: Reg) -> (i: Option<usize>)
    ensures
        match i {
            Some(k) => k < settings@.len() && k as int == index_of_reg(settings_view(settings@), r),
            None => index_of_reg(settings_view(settings@), r) == -1,
        },
{
    let ghost sv = settings_view(settings@);
    proof {
        lemma_index_of_reg(sv, r);
    }
    assert(sv.take(settings.len() as int) =~= sv);
    let mut k: usize = settings.len();
    while k > 0
        invariant
            k <= settings@.len(),
            sv == settings_view(settings@),
            sv.len() == settings@.len(),
            index_of_reg(sv, r) == index_of_reg(sv.take(k as int), r),
        decreases k,
    {
        assert(sv.take(k as int).drop_last() =~= sv.take(k - 1));
        if settings[k - 1].0 == r {
            return Some(k - 1);
        }
        k = k - 1;
    }
    assert(sv.take(0) =~= Seq::<(Reg, Seq<char>)>::empty());
    None
}

impl UserParameters {
    /// The user's form of stored parameters: each known register's value as hex text.
    pub fn from(value: Parameters) -> (u: UserParameters)
        ensures
            u@.name == value@.name,
            u@.supercapacitor_uf == value@.supercapacitor_uf,
            u@.camera_settings == user_settings(value@.camera_settings),
            distinct_regs(u@.camera_settings),
    {
        let packed = &value.camera_settings;
        let mut settings: Vec<(Reg, String)> = Vec::new();
        let mut i: usize = 0;
        while i < packed.len()
            invariant
                i <= packed@.len(),
                settings_view(settings@) == user_settings(packed@.take(i as int)),
                distinct_regs(settings_view(settings@)),
            decreases packed@.len() - i,
        {
            let u = packed[i];
            let reg = (u % 0x100) as u8;
            let val = ((u / 0x100) % 0x100) as u8;
            assert(packed@.take(i as int + 1).drop_last() =~= packed@.take(i as int));
            assert(packed@.take(i as int + 1).last() == u);
            match Reg::from_repr(reg) {
                Some(r) => {
                    let text = to_hex(val);
                    let ghost before = settings_view(settings@);
                    proof {
                        lemma_with_setting_distinct(before, r, hex_text(val));
                    }
                    match find_reg(&settings, r) {
                        Some(k) => {
                            settings.set(k, (r, text));
                            assert(settings_view(settings@) =~= before.update(k as int, (r, hex_text(val))));
                        },
                        None => {
                            settings.push((r, text));
                            assert(settings_view(settings@) =~= before.push((r, hex_text(val))));
                        },
                    }
                },
                None => {},
            }
            i = i + 1;
        }
        assert(packed@.take(packed@.len() as int) =~= packed@);
        UserParameters {
            name: value.name,
            supercapacitor_uf: value.supercapacitor_uf,
            camera_settings: settings,
        }
    }
}

impl Parameters {
    /// The stored form of user parameters. The name must fit in
    /// [`MAX_NAME_LEN`] bytes, and every register value must be valid hex text;
    /// else the error names the first setting, in order, that is not.
    pub fn try_from(value: UserParameters) -> (r: Result<Parameters, ConversionError>)
        ensures
            encode_utf8(value@.name).len() > MAX_NAME_LEN ==> r == Err::<Parameters, ConversionError>(
                ConversionError::NameTooLong,
            ),
            encode_utf8(value@.name).len() <= MAX_NAME_LEN && all_valid(value@.camera_settings) ==> (
            r matches Ok(p) && p@ == (ParametersView {
                name: value@.name,
                supercapacitor_uf: value@.supercapacitor_uf,
                camera_settings: packed_user_settings(value@.camera_settings),
            })),
            encode_utf8(value@.name).len() <= MAX_NAME_LEN && !all_valid(value@.camera_settings) ==> (
            r matches Err(ConversionError::InvalidHex(t)) && exists|k: int|
                first_invalid(value@.camera_settings, k) && t@ == #[trigger] value@.camera_settings[k].1),
    {
        if value.name.as_str().as_bytes().len() > MAX_NAME_LEN {
            return Err(ConversionError::NameTooLong);
        }
        let ghost sv = value@.camera_settings;
        let mut packed: Vec<u32> = Vec::new();
        let mut i: usize = 0;
        while i < value.camera_settings.len()
            invariant
                i <= sv.len(),
                encode_utf8(value@.name).len() <= MAX_NAME_LEN,
                sv == settings_view(value.camera_settings@),
                forall|j: int| 0 <= j < i ==> #[trigger] valid_setting(sv, j),
                packed@ == packed_user_settings(sv.take(i as int)),
            decreases sv.len() - i,
        {
            let reg = value.camera_settings[i].0;
            match parse_hex(&value.camera_settings[i].1) {
                Ok(v) => {
                    assert(valid_setting(sv, i as int));
                    packed.push((reg.addr() as u32) + (v as u32) * 0x100);
                    assert(sv.take(i + 1) =~= sv.take(i as int).push(sv[i as int]));
                    assert(packed@ =~= packed_user_settings(sv.take(i + 1)));
                },
                Err(e) => {
                    assert(first_invalid(sv, i as int));
                    return Err(e);
                },
            }
            i = i + 1;
        }
        assert(sv.take(sv.len() as int) =~= sv);
        Ok(Parameters {
            name: value.name,
            supercapacitor_uf: value.supercapacitor_uf,
            camera_settings: packed,
        })
    }
}

proof fn lemma_reg_at_inverse(a: u8)
    ensures
        reg_at(a) matches Some(r) ==> reg_addr(r) == a,
{
}

/// Packed settings as the sensor writes them: each word sets a known register,
/// holds nothing above its value byte, and no register is set twice.
pub open spec fn plain_settings(packed: Seq<u32>) -> bool {
    &&& forall|i: int| 0 <= i < packed.len() ==> (#[trigger] unpacked_setting(packed[i])).is_some()
    &&& forall|i: int| 0 <= i < packed.len() ==> #[trigger] packed[i] < 0x10000
    &&& forall|i: int, j: int| 0 <= i < j < packed.len() ==> #[trigger] (packed[i] % 0x100) != #[trigger] (packed[j] % 0x100)
}

/// Plain stored settings shown to the user are all valid hex, one entry per
/// word in the same order, and storing them again gives the same words.
pub proof fn lemma_user_settings_roundtrip(packed: Seq<u32>)
    requires
        plain_settings(packed),
    ensures
        user_settings(packed).len() == packed.len(),
        forall|i: int| 0 <= i < packed.len() ==> reg_at((packed[i] % 0x100) as u8) == Some(
            #[trigger] user_settings(packed)[i].0,
        ),
        all_valid(user_settings(packed)),
        packed_user_settings(user_settings(packed)) == packed,
    decreases packed.len(),
{
    if packed.len() > 0 {
        let front = packed.drop_last();
        let w = packed.last();
        assert(plain_settings(front)) by {
            assert forall|i: int, j: int| 0 <= i < j < front.len() implies
                #[trigger] (front[i] % 0x100) != #[trigger] (front[j] % 0x100) by {
                assert(front[i] == packed[i] && front[j] == packed[j]);
            }
            assert forall|i: int| 0 <= i < front.len() implies (#[trigger] unpacked_setting(front[i])).is_some() by {
                assert(front[i] == packed[i]);
            }
            assert forall|i: int| 0 <= i < front.len() implies #[trigger] front[i] < 0x10000 by {
                assert(front[i] == packed[i]);
            }
        }
        lemma_user_settings_roundtrip(front);
        let rest = user_settings(front);
        assert(unpacked_setting(packed[packed.len() - 1]).is_some());
        let setting = unpacked_setting(w).unwrap();
        let r = setting.0;
        let v = setting.1;
        lemma_reg_at_inverse((w % 0x100) as u8);
        lemma_index_of_reg(rest, r);
        if index_of_reg(rest, r) >= 0 {
            let k = index_of_reg(rest, r);
            assert(reg_at((front[k] % 0x100) as u8) == Some(rest[k].0));
            lemma_reg_at_inverse((front[k] % 0x100) as u8);
            assert(front[k] == packed[k]);
            assert(packed[k] % 0x100 != packed[packed.len() - 1] % 0x100);
            assert(false);
        }
        assert(user_settings(packed) == rest.push((r, hex_text(v))));
        lemma_hex_roundtrip(v);
        assert(packed[packed.len() - 1] < 0x10000);
        assert(w % 0x100 + ((w / 0x100) % 0x100) * 0x100 == w) by (nonlinear_arith)
            requires
                w < 0x10000,
        ;
        assert(packed_setting((r, v)) == w);
        let us = user_settings(packed);
        assert forall|i: int| 0 <= i < us.len() implies #[trigger] valid_setting(us, i) by {
            if i < rest.len() {
                assert(valid_setting(rest, i));
            }
        }
        assert(packed_user_settings(us) =~= packed_user_settings(rest).push(w));
        assert(front.push(w) =~= packed);
        assert forall|i: int| 0 <= i < packed.len() implies reg_at((packed[i] % 0x100) as u8) == Some(
            #[trigger] us[i].0,
        ) by {
            if i < front.len() {
                assert(packed[i] == front[i]);
            }
        }
    }
}

} // verus!
