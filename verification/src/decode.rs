//! Payload decoder: turns a frame's accumulated hex-digit string into a
//! printable-ASCII projection. Hex digits are consumed two at a time; a pair
//! that parses to a byte in the printable range [32, 126] is emitted as that
//! byte, every other pair (non-printable or malformed) is emitted as the
//! placeholder, and a trailing unpaired digit is dropped. Decoding is total:
//! it never fails, whatever the input.

use vstd::prelude::*;

verus! {

/// The byte emitted in place of a non-printable or malformed pair: `'.'`.
pub const PLACEHOLDER: u8 = 46;

/// ASCII hex digit: `0-9`, `a-f` or `A-F`.
pub open spec fn is_hex_digit_byte(c: u8) -> bool {
    (48 <= c <= 57) || (97 <= c <= 102) || (65 <= c <= 70)
}

/// Numeric value of an ASCII hex digit.
pub open spec fn hex_digit_value(c: u8) -> int {
    if 48 <= c <= 57 {
        c - 48
    } else if 97 <= c <= 102 {
        c - 87
    } else {
        c - 55
    }
}

/// The byte value written by a pair of hex digits, high digit first.
pub open spec fn pair_value(hi: u8, lo: u8) -> int {
    16 * hex_digit_value(hi) + hex_digit_value(lo)
}

/// A byte value in the printable ASCII range.
pub open spec fn is_printable(v: int) -> bool {
    32 <= v <= 126
}

/// What one pair of input bytes decodes to: the byte itself when the pair is
/// two hex digits forming a printable value, the placeholder otherwise.
pub open spec fn decode_pair(hi: u8, lo: u8) -> u8 {
    if is_hex_digit_byte(hi) && is_hex_digit_byte(lo) && is_printable(pair_value(hi, lo)) {
        pair_value(hi, lo) as u8
    } else {
        PLACEHOLDER
    }
}

/// The printable projection of a hex-digit string: one output byte per full
/// input pair; an odd trailing digit contributes nothing.
pub open spec fn decoded(h: Seq<u8>) -> Seq<u8> {
    Seq::new((h.len() / 2) as nat, |i: int| decode_pair(h[2 * i], h[2 * i + 1]))
}

/// Numeric value of one hex digit at runtime; `None` for any other byte.
pub fn hex_digit_val(c: u8) -> (v: Option<u8>)
    ensures
        v is Some <==> is_hex_digit_byte(c),
        is_hex_digit_byte(c) ==> v == Some(hex_digit_value(c) as u8),
{
    if 48 <= c && c <= 57 {
        Some(c - 48)
    } else if 97 <= c && c <= 102 {
        Some(c - 87)
    } else if 65 <= c && c <= 70 {
        Some(c - 55)
    } else {
        None
    }
}

/// Decode one pair of input bytes, as `decode_pair` states.
pub fn decode_byte(hi: u8, lo: u8) -> (b: u8)
    ensures
        b == decode_pair(hi, lo),
{
    match (hex_digit_val(hi), hex_digit_val(lo)) {
        (Some(h), Some(l)) => {
            let v = 16 * h + l;
            if 32 <= v && v <= 126 {
                v
            } else {
                PLACEHOLDER
            }
        },
        _ => PLACEHOLDER,
    }
}

/// Render a hex-digit string as printable ASCII, non-printable and malformed
/// pairs replaced by the placeholder and an odd trailing digit dropped.
pub fn hex_to_clean_ascii(hex_str: &[u8]) -> (ascii: Vec<u8>)
    ensures
        ascii@ == decoded(hex_str@),
{
    let n = hex_str.len() / 2;
    let mut ascii: Vec<u8> = Vec::new();
    let mut i: usize = 0;
    while i < n
        invariant
            hex_str@.len() <= usize::MAX,
            n == hex_str@.len() / 2,
            i <= n,
            ascii@.len() == i,
            forall|j: int| 0 <= j < i ==> ascii@[j] == decode_pair(
                hex_str@[2 * j],
                hex_str@[2 * j + 1],
            ),
        decreases n - i,
    {
        let b = decode_byte(hex_str[2 * i], hex_str[2 * i + 1]);
        ascii.push(b);
        i += 1;
    }
    proof {
        assert(ascii@ =~= decoded(hex_str@));
    }
    ascii
}

/// Every decoded byte is either the placeholder or the printable value that
/// the corresponding pair of hex digits writes — never anything else.
pub proof fn lemma_decoded_printable_or_placeholder(h: Seq<u8>)
    ensures
        forall|i: int|
            0 <= i < decoded(h).len() ==> (decoded(h)[i] == PLACEHOLDER || (is_printable(
                decoded(h)[i] as int,
            ) && decoded(h)[i] == pair_value(h[2 * i], h[2 * i + 1]))),
{
}

/// Decoding is deterministic: equal inputs give equal outputs.
pub proof fn lemma_decoded_deterministic(h1: Seq<u8>, h2: Seq<u8>)
    requires
        h1 == h2,
    ensures
        decoded(h1) == decoded(h2),
{
}

/// An odd trailing digit is dropped: appending one byte to an even-length
/// input leaves the decoded output unchanged.
pub proof fn lemma_decoded_drops_trailing_nibble(h: Seq<u8>, c: u8)
    requires
        h.len() % 2 == 0,
    ensures
        decoded(h.push(c)) == decoded(h),
{
    assert(decoded(h.push(c)) =~= decoded(h));
}

} // verus!
