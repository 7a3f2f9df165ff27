//! The device-identifier codec: a 32-byte binary identifier and its
//! 64-character hexadecimal text form.
use vstd::prelude::*;

use crate::errors::Error;

verus! {

/// True of the characters that the hexadecimal text form may hold:
/// decimal digits and the letters `a` to `f` in either case.
pub open spec fn is_hex_char(c: char) -> bool {
    (0x30 <= c as u32 && (c as u32) <= 0x39) || (0x61 <= c as u32 && (c as u32) <= 0x66) || (0x41
        <= c as u32 && (c as u32) <= 0x46)
}

/// The value of one hexadecimal character, between 0 and 15.
pub open spec fn hex_char_val(c: char) -> u8
    recommends
        is_hex_char(c),
{
    if (c as u32) <= 0x39 {
        (c as u32 - 0x30) as u8
    } else if 0x61 <= c as u32 {
        (c as u32 - 0x57) as u8
    } else {
        (c as u32 - 0x37) as u8
    }
}

/// The ASCII code of the lowercase hexadecimal digit for a nibble.
pub open spec fn hex_nibble_byte(n: u8) -> u8
    recommends
        n < 16,
{
    if n < 10 {
        (0x30 + n) as u8
    } else {
        (0x57 + n) as u8
    }
}

/// The lowercase hexadecimal digit for a nibble.
pub open spec fn hex_nibble_char(n: u8) -> char
    recommends
        n < 16,
{
    hex_nibble_byte(n) as char
}

/// True when every character of the text is a hexadecimal digit.
pub open spec fn all_hex_chars(s: Seq<char>) -> bool {
    forall|i: int| 0 <= i < s.len() ==> is_hex_char(#[trigger] s[i])
}

/// The hexadecimal text of a byte sequence: two lowercase digits per byte,
/// most-significant nibble first.
pub open spec fn spec_hex_str(b: Seq<u8>) -> Seq<char> {
    Seq::new(
        b.len() * 2,
        |i: int|
            if i % 2 == 0 {
                hex_nibble_char((b[i / 2] / 16) as u8)
            } else {
                hex_nibble_char((b[i / 2] % 16) as u8)
            },
    )
}

/// The bytes that a hexadecimal text denotes, one byte per character pair.
pub open spec fn spec_hex_decode(s: Seq<char>) -> Seq<u8>
    recommends
        s.len() % 2 == 0,
        all_hex_chars(s),
{
    Seq::new(s.len() / 2, |i: int| (hex_char_val(s[2 * i]) * 16 + hex_char_val(s[2 * i + 1])) as u8)
}

/// Case normalization of a hexadecimal text: the uppercase letters `A` to
/// `F` become lowercase, every other character stays.
pub open spec fn spec_lower_hex(s: Seq<char>) -> Seq<char> {
    Seq::new(
        s.len(),
        |i: int|
            if 0x41 <= s[i] as u32 && (s[i] as u32) <= 0x46 {
                (s[i] as u32 + 0x20) as char
            } else {
                s[i]
            },
    )
}

/// True of the ASCII codes of hexadecimal digits.
pub open spec fn is_hex_byte(b: u8) -> bool {
    (0x30 <= b && b <= 0x39) || (0x61 <= b && b <= 0x66) || (0x41 <= b && b <= 0x46)
}

/// The value of the hexadecimal digit with a given ASCII code.
pub open spec fn hex_byte_val(b: u8) -> u8
    recommends
        is_hex_byte(b),
{
    if b <= 0x39 {
        (b - 0x30) as u8
    } else if 0x61 <= b {
        (b - 0x57) as u8
    } else {
        (b - 0x37) as u8
    }
}

/// A character whose code is below 128 lies in the ASCII range.
proof fn lemma_ascii_char_bound(c: char)
    requires
        (c as u32) < 128,
    ensures
        '\0' <= c <= '\u{7f}',
{
}

/// An ASCII character and its code agree on being a hexadecimal digit and
/// on the digit's value.
pub proof fn lemma_hex_char_byte(c: char)
    requires
        (c as u32) < 128,
    ensures
        is_hex_byte(c as u8) == is_hex_char(c),
        is_hex_char(c) ==> hex_byte_val(c as u8) == hex_char_val(c),
{
}

/// Relies on `String::from_utf8`: bytes below 128 decode to the characters
/// with the same code, one each.
#[verifier::external_body]
fn ascii_to_string(bytes: Vec<u8>) -> (r: String)
    requires
        forall|i: int| 0 <= i < bytes@.len() ==> bytes@[i] < 128,
    ensures
        r@ == bytes@.map(|_i: int, b: u8| b as char),
{
    match String::from_utf8(bytes) {
        Ok(s) => s,
        Err(_) => String::new(),
    }
}

/// The lowercase hexadecimal digit of a nibble, as an ASCII code.
fn hex_digit(n: u8) -> (r: u8)
    requires
        n < 16,
    ensures
        r == hex_nibble_byte(n),
{
    if n < 10 {
        0x30 + n
    } else {
        0x57 + n
    }
}

/// The value of the hexadecimal digit with a given ASCII code, or nothing
/// when the code is no hexadecimal digit.
fn hex_val(b: u8) -> (r: Option<u8>)
    ensures
        match r {
            Some(v) => is_hex_byte(b) && v == hex_byte_val(b),
            None => !is_hex_byte(b),
        },
{
    if 0x30 <= b && b <= 0x39 {
        Some(b - 0x30)
    } else if 0x61 <= b && b <= 0x66 {
        Some(b - 0x57)
    } else if 0x41 <= b && b <= 0x46 {
        Some(b - 0x37)
    } else {
        None
    }
}

/// Formats a byte sequence as its hexadecimal text: two lowercase digits
/// per byte, most-significant nibble first.
pub fn convert_to_token(binary: &[u8]) -> (r: String)
    ensures
        r@ == spec_hex_str(binary@),
{
    let mut digits: Vec<u8> = Vec::new();
    let mut i: usize = 0;
    while i < binary.len()
        invariant
            i <= binary@.len(),
            digits@.len() == 2 * i,
            forall|j: int|
                0 <= j < 2 * i ==> digits@[j] == hex_nibble_byte(
                    if j % 2 == 0 {
                        (binary@[j / 2] / 16) as u8
                    } else {
                        (binary@[j / 2] % 16) as u8
                    },
                ),
        decreases binary@.len() - i,
    {
        let b = binary[i];
        digits.push(hex_digit(b / 16));
        digits.push(hex_digit(b % 16));
        i = i + 1;
    }
    proof {
        assert(forall|j: int| 0 <= j < digits@.len() ==> digits@[j] < 128);
    }
    let r = ascii_to_string(digits);
    proof {
        assert(r@ =~= spec_hex_str(binary@));
    }
    r
}

/// A device identifier: exactly 32 raw bytes, written on the wire as they
/// stand and in text as 64 hexadecimal characters.
#[derive(Clone, Debug)]
pub struct DeviceToken {
    bytes: Vec<u8>,
}

impl View for DeviceToken {
    type V = Seq<u8>;

    closed spec fn view(&self) -> Seq<u8> {
        self.bytes@
    }
}

impl DeviceToken {
    /// Well-formedness: the identifier holds exactly 32 bytes.
    pub open spec fn wf(&self) -> bool {
        self@.len() == 32
    }

    /// Wraps 32 raw identifier bytes.
    pub fn from_bytes(bytes: Vec<u8>) -> (r: DeviceToken)
        requires
            bytes@.len() == 32,
        ensures
            r.wf(),
            r@ == bytes@,
    {
        DeviceToken { bytes }
    }

    /// The raw identifier bytes.
    pub fn as_bytes(&self) -> (r: &Vec<u8>)
        ensures
            r@ == self@,
    {
        &self.bytes
    }

    /// Parses the text form of an identifier: exactly 64 hexadecimal
    /// characters, most-significant nibble of each byte first. Any other
    /// text is rejected with `InvalidIdentifier`.
    pub fn from_str(s: &str) -> (r: Result<DeviceToken, Error>)
        ensures
            match r {
                Ok(t) => s@.len() == 64 && all_hex_chars(s@) && t.wf() && t@ == spec_hex_decode(
                    s@,
                ),
                Err(e) => e == Error::InvalidIdentifier && !(s@.len() == 64 && all_hex_chars(s@)),
            },
    {
        proof {
            broadcast use vstd::string::is_ascii_spec_bytes;

        }
        if !s.is_ascii() {
            proof {
                if s@.len() == 64 && all_hex_chars(s@) {
                    assert forall|i: int| 0 <= i < s@.len() implies '\0' <= #[trigger] s@[i]
                        <= '\u{7f}' by {
                        assert(is_hex_char(s@[i]));
                        lemma_ascii_char_bound(s@[i]);
                    }
                    assert(s.is_ascii());
                }
            }
            return Err(Error::InvalidIdentifier);
        }
        let bytes = s.as_bytes_vec();
        proof {
            assert(bytes@.len() == s@.len());
            assert(forall|i: int| 0 <= i < s@.len() ==> bytes@[i] == #[trigger] s@[i] as u8);
        }
        if bytes.len() != 64 {
            return Err(Error::InvalidIdentifier);
        }
        let mut out: Vec<u8> = Vec::new();
        let mut i: usize = 0;
        while i < 32
            invariant
                i <= 32,
                out@.len() == i,
                s@.len() == 64,
                bytes@.len() == 64,
                forall|j: int| 0 <= j < 64 ==> bytes@[j] == #[trigger] s@[j] as u8,
                forall|j: int| 0 <= j < 64 ==> '\0' <= #[trigger] s@[j] <= '\u{7f}',
                forall|j: int| 0 <= j < 2 * i ==> is_hex_char(#[trigger] s@[j]),
                forall|j: int|
                    0 <= j < i ==> out@[j] == (hex_char_val(s@[2 * j]) * 16 + hex_char_val(
                        s@[2 * j + 1],
                    )) as u8,
            decreases 32 - i,
        {
            let hi = hex_val(bytes[2 * i]);
            let lo = hex_val(bytes[2 * i + 1]);
            proof {
                lemma_hex_char_byte(s@[2 * i as int]);
                lemma_hex_char_byte(s@[2 * i as int + 1]);
            }
            match (hi, lo) {
                (Some(h), Some(l)) => {
                    out.push(h * 16 + l);
                },
                _ => {
                    return Err(Error::InvalidIdentifier);
                },
            }
            i = i + 1;
        }
        let t = DeviceToken { bytes: out };
        proof {
            assert(t@ =~= spec_hex_decode(s@));
        }
        Ok(t)
    }

    /// The text form of the identifier: its 64 lowercase hexadecimal
    /// characters.
    pub fn to_hex(&self) -> (r: String)
        ensures
            r@ == spec_hex_str(self@),
    {
        convert_to_token(self.bytes.as_slice())
    }
}

/// A nibble survives being written as a hexadecimal digit and read back.
pub proof fn lemma_hex_nibble_roundtrip(n: u8)
    requires
        n < 16,
    ensures
        is_hex_char(hex_nibble_char(n)),
        hex_char_val(hex_nibble_char(n)) == n,
{
}

/// Writing the value of a hexadecimal character back as a digit gives the
/// character itself, up to case normalization.
pub proof fn lemma_hex_char_canonical(c: char)
    requires
        is_hex_char(c),
    ensures
        hex_nibble_char(hex_char_val(c)) == (if 0x41 <= c as u32 && (c as u32) <= 0x46 {
            (c as u32 + 0x20) as char
        } else {
            c
        }),
{
    broadcast use vstd::utf8::char_u32_cast;

    let v = hex_char_val(c);
    let b = hex_nibble_byte(v);
    assert(b as u32 == (if 0x41 <= c as u32 && (c as u32) <= 0x46 {
        c as u32 + 0x20
    } else {
        c as u32 as int
    }));
}

/// Parsing the hexadecimal text of a byte sequence recovers the bytes:
/// the text is well formed, and decodes to the sequence it was written
/// from.
pub proof fn lemma_parse_format_roundtrip(b: Seq<u8>)
    ensures
        spec_hex_str(b).len() == 2 * b.len(),
        all_hex_chars(spec_hex_str(b)),
        spec_hex_decode(spec_hex_str(b)) == b,
{
    let s = spec_hex_str(b);
    assert forall|i: int| 0 <= i < s.len() implies is_hex_char(#[trigger] s[i]) by {
        lemma_hex_nibble_roundtrip(
            if i % 2 == 0 {
                (b[i / 2] / 16) as u8
            } else {
                (b[i / 2] % 16) as u8
            },
        );
    }
    assert forall|i: int| 0 <= i < b.len() implies spec_hex_decode(s)[i] == b[i] by {
        lemma_hex_nibble_roundtrip((b[i] / 16) as u8);
        lemma_hex_nibble_roundtrip((b[i] % 16) as u8);
        assert(s[2 * i] == hex_nibble_char((b[i] / 16) as u8));
        assert(s[2 * i + 1] == hex_nibble_char((b[i] % 16) as u8));
        assert(b[i] / 16 * 16 + b[i] % 16 == b[i]) by (nonlinear_arith);
    }
    assert(spec_hex_decode(s) =~= b);
}

/// Formatting the bytes that a well-formed hexadecimal text denotes
/// reproduces the text up to case normalization.
pub proof fn lemma_format_parse_roundtrip(s: Seq<char>)
    requires
        s.len() % 2 == 0,
        all_hex_chars(s),
    ensures
        spec_hex_str(spec_hex_decode(s)) == spec_lower_hex(s),
{
    let b = spec_hex_decode(s);
    let t = spec_hex_str(b);
    assert(b.len() == s.len() / 2);
    assert(t.len() == s.len()) by {
        assert(s.len() / 2 * 2 == s.len());
    }
    assert forall|i: int| 0 <= i < s.len() implies t[i] == spec_lower_hex(s)[i] by {
        let k = i / 2;
        assert(0 <= k < b.len());
        let hi = hex_char_val(s[2 * k]);
        let lo = hex_char_val(s[2 * k + 1]);
        assert(is_hex_char(s[2 * k]));
        assert(is_hex_char(s[2 * k + 1]));
        assert(hi < 16 && lo < 16);
        assert(b[k] == (hi * 16 + lo) as u8);
        assert((hi * 16 + lo) / 16 == hi && (hi * 16 + lo) % 16 == lo) by (nonlinear_arith)
            requires
                hi < 16 && lo < 16,
        ;
        if i % 2 == 0 {
            assert(i == 2 * k);
            assert(t[i] == hex_nibble_char(hi));
            lemma_hex_char_canonical(s[2 * k]);
        } else {
            assert(i == 2 * k + 1);
            assert(t[i] == hex_nibble_char(lo));
            lemma_hex_char_canonical(s[2 * k + 1]);
        }
    }
    assert(t =~= spec_lower_hex(s));
}

} // verus!
