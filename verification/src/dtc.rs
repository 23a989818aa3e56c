//! Diagnostic trouble codes.
//!
//! A DTC arrives as three raw bytes: two code bytes and a status byte.  The
//! top two bits of the high byte select the category letter (P, C, B or U);
//! the remaining fourteen bits render as four uppercase hexadecimal digits.
//! The status byte decodes bit-wise into eight flags.

use vstd::prelude::*;
use vstd::string::StringExecFns;

verus! {

/// Bit `i` of a byte, counted from the least significant bit.
pub open spec fn nth_bit(b: u8, i: u8) -> bool
    recommends
        i < 8,
{
    (b >> i) & 1 == 1
}

/// DTC status byte decoded into its eight flags; the raw byte is kept.
#[derive(Debug, Clone)]
pub struct DtcStatus {
    pub test_failed: bool,
    pub test_failed_this_cycle: bool,
    pub pending: bool,
    pub confirmed: bool,
    pub test_not_completed_since_clear: bool,
    pub test_failed_since_clear: bool,
    pub test_not_completed_this_cycle: bool,
    pub warning_indicator_requested: bool,
    pub raw: u8,
}

/// The decoding of a status byte.
pub open spec fn status_from_byte(b: u8) -> DtcStatus {
    DtcStatus {
        test_failed: b & 0x01 != 0,
        test_failed_this_cycle: b & 0x02 != 0,
        pending: b & 0x04 != 0,
        confirmed: b & 0x08 != 0,
        test_not_completed_since_clear: b & 0x10 != 0,
        test_failed_since_clear: b & 0x20 != 0,
        test_not_completed_this_cycle: b & 0x40 != 0,
        warning_indicator_requested: b & 0x80 != 0,
        raw: b,
    }
}

impl DtcStatus {
    /// Decodes the status byte into its flags.
    pub fn from_byte(byte: u8) -> (r: Self)
        ensures
            r == status_from_byte(byte),
    {
        Self {
            test_failed: (byte & 0x01) != 0,
            test_failed_this_cycle: (byte & 0x02) != 0,
            pending: (byte & 0x04) != 0,
            confirmed: (byte & 0x08) != 0,
            test_not_completed_since_clear: (byte & 0x10) != 0,
            test_failed_since_clear: (byte & 0x20) != 0,
            test_not_completed_this_cycle: (byte & 0x40) != 0,
            warning_indicator_requested: (byte & 0x80) != 0,
            raw: byte,
        }
    }
}

/// The decoded status preserves the raw byte, and its eight flags are
/// exactly the eight bits of the byte, least significant first.
pub proof fn lemma_status_flags_are_bits(b: u8)
    ensures
        status_from_byte(b).raw == b,
        status_from_byte(b).test_failed == nth_bit(b, 0),
        status_from_byte(b).test_failed_this_cycle == nth_bit(b, 1),
        status_from_byte(b).pending == nth_bit(b, 2),
        status_from_byte(b).confirmed == nth_bit(b, 3),
        status_from_byte(b).test_not_completed_since_clear == nth_bit(b, 4),
        status_from_byte(b).test_failed_since_clear == nth_bit(b, 5),
        status_from_byte(b).test_not_completed_this_cycle == nth_bit(b, 6),
        status_from_byte(b).warning_indicator_requested == nth_bit(b, 7),
{
    assert((b & 0x01 != 0) == ((b >> 0u8) & 1 == 1) && (b & 0x02 != 0) == ((b >> 1u8) & 1 == 1)
        && (b & 0x04 != 0) == ((b >> 2u8) & 1 == 1) && (b & 0x08 != 0) == ((b >> 3u8) & 1 == 1)
        && (b & 0x10 != 0) == ((b >> 4u8) & 1 == 1) && (b & 0x20 != 0) == ((b >> 5u8) & 1 == 1)
        && (b & 0x40 != 0) == ((b >> 6u8) & 1 == 1) && (b & 0x80 != 0) == ((b >> 7u8) & 1 == 1))
        by (bit_vector);
}

/// The character for one hexadecimal digit, uppercase.
pub open spec fn hex_char(n: u8) -> char
    recommends
        n < 16,
{
    if n == 0 {
        '0'
    } else if n == 1 {
        '1'
    } else if n == 2 {
        '2'
    } else if n == 3 {
        '3'
    } else if n == 4 {
        '4'
    } else if n == 5 {
        '5'
    } else if n == 6 {
        '6'
    } else if n == 7 {
        '7'
    } else if n == 8 {
        '8'
    } else if n == 9 {
        '9'
    } else if n == 10 {
        'A'
    } else if n == 11 {
        'B'
    } else if n == 12 {
        'C'
    } else if n == 13 {
        'D'
    } else if n == 14 {
        'E'
    } else {
        'F'
    }
}

/// The category letter selected by the top two bits of the high code byte.
pub open spec fn dtc_category_char(high: u8) -> char {
    if high / 64 == 0 {
        'P'
    } else if high / 64 == 1 {
        'C'
    } else if high / 64 == 2 {
        'B'
    } else {
        'U'
    }
}

/// The five characters of a decoded DTC: the category letter and the four
/// hexadecimal digits of the remaining fourteen bits.
pub open spec fn dtc_code_chars(high: u8, low: u8) -> Seq<char> {
    seq![
        dtc_category_char(high),
        hex_char((high / 16) % 4),
        hex_char(high % 16),
        hex_char(low / 16),
        hex_char(low % 16),
    ]
}

/// A character that can appear in the digit positions of a DTC.
pub open spec fn is_uppercase_hex_digit(c: char) -> bool {
    ('0' <= c && c <= '9') || ('A' <= c && c <= 'F')
}

fn hex_digit_str(n: u8) -> (r: &'static str)
    requires
        n < 16,
    ensures
        r@ == seq![hex_char(n)],
{
    proof {
        reveal_strlit("0");
        reveal_strlit("1");
        reveal_strlit("2");
        reveal_strlit("3");
        reveal_strlit("4");
        reveal_strlit("5");
        reveal_strlit("6");
        reveal_strlit("7");
        reveal_strlit("8");
        reveal_strlit("9");
        reveal_strlit("A");
        reveal_strlit("B");
        reveal_strlit("C");
        reveal_strlit("D");
        reveal_strlit("E");
        reveal_strlit("F");
    }
    match n {
        0 => "0",
        1 => "1",
        2 => "2",
        3 => "3",
        4 => "4",
        5 => "5",
        6 => "6",
        7 => "7",
        8 => "8",
        9 => "9",
        10 => "A",
        11 => "B",
        12 => "C",
        13 => "D",
        14 => "E",
        _ => "F",
    }
}

fn category_str(high: u8) -> (r: &'static str)
    ensures
        r@ == seq![dtc_category_char(high)],
{
    proof {
        reveal_strlit("P");
        reveal_strlit("C");
        reveal_strlit("B");
        reveal_strlit("U");
    }
    let sel = high / 64;
    if sel == 0 {
        "P"
    } else if sel == 1 {
        "C"
    } else if sel == 2 {
        "B"
    } else {
        "U"
    }
}

/// A diagnostic trouble code with its decoded text, status, and the raw
/// bytes it came from.
#[derive(Debug, Clone)]
pub struct Dtc {
    pub code: String,
    pub status: DtcStatus,
    pub description: Option<String>,
    pub raw_bytes: Vec<u8>,
}

impl Dtc {
    /// Renders the two code bytes as the five-character code text.
    pub fn bytes_to_code(high: u8, low: u8) -> (r: String)
        ensures
            r@ == dtc_code_chars(high, low),
    {
        let mut code = String::new();
        code.append(category_str(high));
        code.append(hex_digit_str((high / 16) % 4));
        code.append(hex_digit_str(high % 16));
        code.append(hex_digit_str(low / 16));
        code.append(hex_digit_str(low % 16));
        proof {
            assert(code@ =~= dtc_code_chars(high, low));
        }
        code
    }

    /// Parses one DTC from three raw bytes: code high, code low, status.
    pub fn from_bytes(bytes: &[u8]) -> (r: Option<Self>)
        ensures
            bytes@.len() >= 3 ==> (r matches Some(d) && d.code@ == dtc_code_chars(
                bytes@[0],
                bytes@[1],
            ) && d.status == status_from_byte(bytes@[2]) && d.description is None
                && d.raw_bytes@ == bytes@.take(3)),
            bytes@.len() < 3 ==> r is None,
    {
        if bytes.len() < 3 {
            return None;
        }
        let high = bytes[0];
        let low = bytes[1];
        let status = bytes[2];
        let raw = vstd::slice::slice_to_vec(vstd::slice::slice_subrange(bytes, 0, 3));
        proof {
            assert(raw@ =~= bytes@.take(3));
        }
        Some(Self {
            code: Self::bytes_to_code(high, low),
            status: DtcStatus::from_byte(status),
            description: None,
            raw_bytes: raw,
        })
    }
}

/// Renders a sixteen-bit DTC (high byte first) as its code text.
pub fn decode_dtc(code: u16) -> (r: String)
    ensures
        r@ == dtc_code_chars((code / 256) as u8, (code % 256) as u8),
{
    Dtc::bytes_to_code((code / 256) as u8, (code % 256) as u8)
}

/// The decoded code text is always a single letter from {P, C, B, U}
/// followed by exactly four uppercase hexadecimal digits.
pub proof fn lemma_dtc_code_shape(high: u8, low: u8)
    ensures
        dtc_code_chars(high, low).len() == 5,
        dtc_code_chars(high, low)[0] == 'P' || dtc_code_chars(high, low)[0] == 'C'
            || dtc_code_chars(high, low)[0] == 'B' || dtc_code_chars(high, low)[0] == 'U',
        forall|i: int| 1 <= i < 5 ==> is_uppercase_hex_digit(#[trigger] dtc_code_chars(high, low)[i]),
{
    let cs = dtc_code_chars(high, low);
    assert(is_uppercase_hex_digit(cs[1]));
    assert(is_uppercase_hex_digit(cs[2]));
    assert(is_uppercase_hex_digit(cs[3]));
    assert(is_uppercase_hex_digit(cs[4]));
}

} // verus!
