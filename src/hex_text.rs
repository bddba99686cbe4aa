//! Hexadecimal text: the codes and values of custom commands are typed by the
//! operator as hex digits.

use vstd::prelude::*;

verus! {

/// A hex digit, in either case.
pub open spec fn is_hex_digit(c: char) -> bool {
    ('0' <= c && c <= '9') || ('a' <= c && c <= 'f') || ('A' <= c && c <= 'F')
}

/// The value of a hex digit.
pub open spec fn hex_value(c: char) -> nat {
    if '0' <= c && c <= '9' {
        (c as nat - '0' as nat) as nat
    } else if 'a' <= c && c <= 'f' {
        (c as nat - 'a' as nat + 10) as nat
    } else {
        (c as nat - 'A' as nat + 10) as nat
    }
}

/// An even number of hex digits, two per byte.
pub open spec fn is_hex_text(s: Seq<char>) -> bool {
    &&& s.len() % 2 == 0
    &&& forall|i: int| 0 <= i < s.len() ==> #[trigger] is_hex_digit(s[i])
}

/// The bytes that hex text stands for, high digit first.
pub open spec fn hex_bytes(s: Seq<char>) -> Seq<u8> {
    Seq::new(s.len() / 2, |i: int| (16 * hex_value(s[2 * i]) + hex_value(s[2 * i + 1])) as u8)
}

/// The lowercase digit for a value below sixteen.
pub open spec fn digit_char(n: nat) -> char {
    if n < 10 {
        ((n + '0' as nat) as u8) as char
    } else {
        ((n - 10 + 'a' as nat) as u8) as char
    }
}

/// Bytes written as lowercase hex text, two digits per byte.
pub open spec fn hex_text(b: Seq<u8>) -> Seq<char> {
    Seq::new(
        2 * b.len(),
        |i: int|
            if i % 2 == 0 {
                digit_char(b[i / 2] as nat / 16)
            } else {
                digit_char(b[i / 2] as nat % 16)
            },
    )
}

/// Hex text with its uppercase digits lowered.
pub open spec fn lower_hex(s: Seq<char>) -> Seq<char> {
    s.map_values(|c: char| if 'A' <= c && c <= 'F' { ((c as nat + 32) as u8) as char } else { c })
}

/// Relies on hex::decode: it accepts an even number of hex digits of either
/// case and gives one byte for each pair, high digit first.
#[verifier::external_body]
fn decode_hex(s: &str) -> (r: Result<Vec<u8>, hex::FromHexError>)
    ensures
        r is Ok <==> is_hex_text(s@),
        r matches Ok(v) ==> v@ == hex_bytes(s@),
{
    hex::decode(s)
}

/// Relies on hex::encode: two lowercase digits for each byte.
#[verifier::external_body]
pub(crate) fn encode_hex(b: &[u8]) -> (r: String)
    ensures
        r@ == hex_text(b@),
{
    hex::encode(b)
}

#[verifier::external_type_specification]
#[verifier::external_body]
pub struct ExFromHexError(hex::FromHexError);

/// Hex text that could not be decoded.
#[derive(Debug, Clone, Copy, PartialEq, Eq, Structural)]
pub enum HexError {
    /// Not an even number of hex digits.
    NotHex,
    /// Hex text, but not exactly one byte.
    NotOneByte,
}

/// Reads a byte written as exactly two hex digits, of either case.
pub fn parse_code(s: &str) -> (r: Result<u8, HexError>)
    ensures
        r is Ok <==> (s@.len() == 2 && is_hex_text(s@)),
        r matches Ok(b) ==> b == hex_bytes(s@)[0],
{
    match decode_hex(s) {
        Ok(v) => {
            if v.len() == 1 {
                Ok(v[0])
            } else {
                Err(HexError::NotOneByte)
            }
        },
        Err(_) => Err(HexError::NotHex),
    }
}

/// Reads an optional hex value; an absent value is empty.
pub fn parse_value(s: Option<&str>) -> (r: Result<Vec<u8>, HexError>)
    ensures
        match s {
            None => r matches Ok(v) && v@.len() == 0,
            Some(t) => {
                &&& r is Ok <==> is_hex_text(t@)
                &&& r matches Ok(v) ==> v@ == hex_bytes(t@)
            },
        },
{
    match s {
        None => Ok(Vec::new()),
        Some(t) => match decode_hex(t) {
            Ok(v) => Ok(v),
            Err(_) => Err(HexError::NotHex),
        },
    }
}

/// Writes a byte as two lowercase hex digits.
pub fn encode_code(b: u8) -> (r: String)
    ensures
        r@ == hex_text(seq![b]),
{
    let v: Vec<u8> = vec![b];
    proof {
        assert(v@ =~= seq![b]);
    }
    encode_hex(v.as_slice())
}

/// A hex digit, read and written again, comes back lowered.
proof fn lemma_digit_round_trip(c: char)
    requires
        is_hex_digit(c),
    ensures
        hex_value(c) < 16,
        digit_char(hex_value(c)) == (if 'A' <= c && c <= 'F' { ((c as nat + 32) as u8) as char } else { c }),
{
}

/// A byte written as two hex digits and read back, and two hex digits read as
/// a byte and written back, agree up to the case of the digits.
pub proof fn lemma_code_round_trip(c: Seq<char>)
    requires
        c.len() == 2,
        is_hex_text(c),
    ensures
        hex_bytes(c).len() == 1,
        hex_text(seq![hex_bytes(c)[0]]) == lower_hex(c),
{
    let hi = hex_value(c[0]);
    let lo = hex_value(c[1]);
    assert(is_hex_digit(c[0]) && is_hex_digit(c[1]));
    lemma_digit_round_trip(c[0]);
    lemma_digit_round_trip(c[1]);
    let b = (16 * hi + lo) as u8;
    assert(hex_bytes(c)[0] == b);
    assert(b as nat / 16 == hi && b as nat % 16 == lo) by (nonlinear_arith)
        requires hi < 16, lo < 16, b as nat == 16 * hi + lo;
    assert(hex_text(seq![b]) =~= lower_hex(c));
}

} // verus!
