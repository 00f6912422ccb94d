//! Decoding of the hexadecimal text of one Intel HEX record line.
use vstd::prelude::*;

verus! {

/// The character that starts every record line.
pub const RECORD_START: u8 = 58;  // ':'

/// The value of one ASCII hexadecimal digit, of either case.
pub open spec fn hex_digit_value(c: u8) -> Option<u8> {
    if 48 <= c <= 57 {
        Some((c - 48) as u8)
    } else if 97 <= c <= 102 {
        Some((c - 87) as u8)
    } else if 65 <= c <= 70 {
        Some((c - 55) as u8)
    } else {
        None
    }
}

/// The byte that a two-character field denotes when read as an unsigned
/// base-16 number: two digits, or a `+` sign and one digit. Anything else
/// decodes to zero.
pub open spec fn hex_pair_value(hi: u8, lo: u8) -> u8 {
    match (hex_digit_value(hi), hex_digit_value(lo)) {
        (Some(h), Some(l)) => (h * 16 + l) as u8,
        (None, Some(l)) => if hi == 43 { l } else { 0 },
        _ => 0,
    }
}

/// The bytes encoded by a record line: the character pairs that follow the
/// start character, as long as a full pair remains. A trailing odd character
/// is not decoded.
pub open spec fn decode_record(line: Seq<u8>) -> Seq<u8> {
    Seq::new(
        if line.len() == 0 { 0 } else { ((line.len() - 1) / 2) as nat },
        |j: int| hex_pair_value(line[1 + 2 * j], line[2 + 2 * j]),
    )
}

fn hex_digit(c: u8) -> (r: Option<u8>)
    ensures
        r == hex_digit_value(c),
{
    if 48 <= c && c <= 57 {
        Some(c - 48)
    } else if 97 <= c && c <= 102 {
        Some(c - 87)
    } else if 65 <= c && c <= 70 {
        Some(c - 55)
    } else {
        None
    }
}

/// Reads the two characters `hi`, `lo` as one base-16 byte, leniently.
pub fn hex_pair(hi: u8, lo: u8) -> (r: u8)
    ensures
        r == hex_pair_value(hi, lo),
{
    match (hex_digit(hi), hex_digit(lo)) {
        (Some(h), Some(l)) => h * 16 + l,
        (None, Some(l)) => if hi == 43 { l } else { 0 },
        _ => 0,
    }
}

/// Decodes the bytes of a record line (see `decode_record`).
pub fn decode_line(line: &[u8]) -> (r: Vec<u8>)
    ensures
        r@ == decode_record(line@),
{
    let mut out: Vec<u8> = Vec::new();
    if line.len() == 0 {
        assert(out@ =~= decode_record(line@));
        return out;
    }
    let mut i: usize = 1;
    while i < line.len() - 1
        invariant
            line@.len() >= 1,
            i == 1 + 2 * out@.len(),
            i <= line@.len(),
            forall|j: int| 0 <= j < out@.len() ==>
                #[trigger] out@[j] == hex_pair_value(line@[1 + 2 * j], line@[2 + 2 * j]),
        decreases line.len() - i,
    {
        let b = hex_pair(line[i], line[i + 1]);
        out.push(b);
        i = i + 2;
    }
    assert(out@ =~= decode_record(line@));
    out
}

} // verus!
