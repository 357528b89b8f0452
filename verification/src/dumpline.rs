//! Recognition of hex-dump lines in the capture engine's textual output and
//! extraction of their hex digits. A dump line carries a four-digit hex
//! offset, a whitespace separator, then the dumped bytes; the digits that
//! matter for signature matching sit in a fixed column window. This column
//! layout is representation-specific, so it is isolated here.

use crate::decode::is_hex_digit_byte;
use crate::text::is_space_byte;
use vstd::prelude::*;

verus! {

/// First byte of the fixed column window that holds the dumped hex digits:
/// the dumped bytes begin right after the four-digit offset and its
/// whitespace separator.
pub const HEX_COLUMN_START: usize = 5;

/// One past the last byte of the fixed column window.
pub const HEX_COLUMN_END: usize = 54;

/// A dump line: at least six bytes, a four-hex-digit offset prefix, then a
/// whitespace byte.
pub open spec fn spec_is_hex_dump_line(line: Seq<u8>) -> bool {
    &&& line.len() >= 6
    &&& forall|i: int| 0 <= i < 4 ==> is_hex_digit_byte(line[i])
    &&& is_space_byte(line[4])
}

/// Lowercase an ASCII uppercase hex letter; leave every other byte alone.
pub open spec fn to_lower_hex(c: u8) -> u8 {
    if 65 <= c <= 70 {
        (c + 32) as u8
    } else {
        c
    }
}

/// A lowercase hex digit: `0-9` or `a-f`.
pub open spec fn is_lower_hex_digit(c: u8) -> bool {
    (48 <= c <= 57) || (97 <= c <= 102)
}

/// The hex digits of `s` in order, lowercased, every other byte discarded.
pub open spec fn lower_hex_digits(s: Seq<u8>) -> Seq<u8>
    decreases s.len(),
{
    if s.len() == 0 {
        Seq::empty()
    } else if is_hex_digit_byte(s.last()) {
        lower_hex_digits(s.drop_last()).push(to_lower_hex(s.last()))
    } else {
        lower_hex_digits(s.drop_last())
    }
}

/// Start of the column window actually read from a line of length `len`.
pub open spec fn window_start(len: int) -> int {
    if len > HEX_COLUMN_START { HEX_COLUMN_START as int } else { 0 }
}

/// End of the column window actually read from a line of length `len`.
pub open spec fn window_end(len: int) -> int {
    if len > HEX_COLUMN_END { HEX_COLUMN_END as int } else { len }
}

/// The hex digits a line contributes to its frame's searchable hex string:
/// the lowercased hex digits found inside the column window.
pub open spec fn spec_extract_hex(line: Seq<u8>) -> Seq<u8> {
    if window_start(line.len() as int) >= window_end(line.len() as int) {
        Seq::empty()
    } else {
        lower_hex_digits(line.subrange(window_start(line.len() as int), window_end(line.len() as int)))
    }
}

/// Does this line look like a hex-dump line, as `spec_is_hex_dump_line` states?
pub fn is_hex_dump_line(line: &[u8]) -> (r: bool)
    ensures
        r == spec_is_hex_dump_line(line@),
{
    if line.len() < 6 {
        return false;
    }
    let mut i: usize = 0;
    while i < 4
        invariant
            i <= 4,
            line@.len() >= 6,
            forall|j: int| 0 <= j < i ==> is_hex_digit_byte(line@[j]),
        decreases 4 - i,
    {
        let c = line[i];
        if !((48 <= c && c <= 57) || (97 <= c && c <= 102) || (65 <= c && c <= 70)) {
            return false;
        }
        i += 1;
    }
    crate::text::space_byte(line[4])
}

/// Collect the lowercased hex digits in the line's column window, as
/// `spec_extract_hex` states.
pub fn extract_hex_bytes(line: &[u8]) -> (hex: Vec<u8>)
    ensures
        hex@ == spec_extract_hex(line@),
        forall|i: int| 0 <= i < hex@.len() ==> is_lower_hex_digit(hex@[i]),
{
    let len = line.len();
    let end_idx: usize = if len > HEX_COLUMN_END { HEX_COLUMN_END } else { len };
    let start_idx: usize = if len > HEX_COLUMN_START { HEX_COLUMN_START } else { 0 };
    let mut hex: Vec<u8> = Vec::new();
    if start_idx >= end_idx {
        return hex;
    }
    let ghost sub = line@.subrange(start_idx as int, end_idx as int);
    let mut i: usize = start_idx;
    while i < end_idx
        invariant
            start_idx <= i <= end_idx <= line@.len(),
            sub == line@.subrange(start_idx as int, end_idx as int),
            hex@ == lower_hex_digits(sub.take(i - start_idx)),
            forall|j: int| 0 <= j < hex@.len() ==> is_lower_hex_digit(hex@[j]),
        decreases end_idx - i,
    {
        let c = line[i];
        proof {
            assert(sub.take(i + 1 - start_idx).drop_last() =~= sub.take(i - start_idx));
            assert(sub.take(i + 1 - start_idx).last() == line@[i as int]);
        }
        if (48 <= c && c <= 57) || (97 <= c && c <= 102) || (65 <= c && c <= 70) {
            if 65 <= c && c <= 70 {
                hex.push(c + 32);
            } else {
                hex.push(c);
            }
        }
        i += 1;
    }
    proof {
        assert(sub.take(end_idx - start_idx) =~= sub);
    }
    hex
}

} // verus!
