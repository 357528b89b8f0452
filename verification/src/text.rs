//! Byte-level text helpers shared by the pipeline: ASCII whitespace
//! classification, trimming, and blank-line detection.

use vstd::prelude::*;

verus! {

/// ASCII whitespace, as produced by the capture engine's textual output:
/// space, tab, line feed, form feed, carriage return.
pub open spec fn is_space_byte(c: u8) -> bool {
    c == 32 || c == 9 || c == 10 || c == 12 || c == 13
}

/// A line is blank when every byte of it is ASCII whitespace.
pub open spec fn is_blank(line: Seq<u8>) -> bool {
    forall|i: int| 0 <= i < line.len() ==> is_space_byte(line[i])
}

/// Runtime check matching `is_space_byte`.
pub fn space_byte(c: u8) -> (r: bool)
    ensures
        r == is_space_byte(c),
{
    c == 32 || c == 9 || c == 10 || c == 12 || c == 13
}

/// Runtime check matching `is_blank`.
pub fn blank_line(line: &[u8]) -> (r: bool)
    ensures
        r == is_blank(line@),
{
    let mut i: usize = 0;
    while i < line.len()
        invariant
            i <= line@.len(),
            forall|j: int| 0 <= j < i ==> is_space_byte(line@[j]),
        decreases line@.len() - i,
    {
        if !space_byte(line[i]) {
            return false;
        }
        i += 1;
    }
    true
}

/// `t` is `s` with its leading and trailing ASCII whitespace removed.
pub open spec fn is_trimmed_of(t: Seq<u8>, s: Seq<u8>) -> bool {
    exists|a: int, b: int|
        {
            &&& 0 <= a <= b <= s.len()
            &&& t == #[trigger] s.subrange(a, b)
            &&& (forall|u: int| 0 <= u < a ==> is_space_byte(s[u]))
            &&& (forall|u: int| b <= u < s.len() ==> is_space_byte(s[u]))
            &&& (t.len() > 0 ==> !is_space_byte(t[0]) && !is_space_byte(t[t.len() - 1]))
        }
}

/// Interpret one line of operator input as an interface selection: the
/// trimmed input if anything is left after trimming, nothing otherwise (the
/// caller then asks again).
pub fn parse_interface_choice(input: &[u8]) -> (r: Option<Vec<u8>>)
    ensures
        (r is Some) <==> !is_blank(input@),
        r matches Some(t) ==> is_trimmed_of(t@, input@),
{
    let len = input.len();
    let mut a: usize = 0;
    while a < len && space_byte(input[a])
        invariant
            len == input@.len(),
            a <= len,
            forall|u: int| 0 <= u < a ==> is_space_byte(input@[u]),
        decreases len - a,
    {
        a += 1;
    }
    if a == len {
        return None;
    }
    let mut b: usize = len;
    while b > a && space_byte(input[b - 1])
        invariant
            len == input@.len(),
            a < len,
            a <= b <= len,
            !is_space_byte(input@[a as int]),
            forall|u: int| b <= u < len ==> is_space_byte(input@[u]),
        decreases b,
    {
        b -= 1;
    }
    let mut t: Vec<u8> = Vec::new();
    let mut i: usize = a;
    while i < b
        invariant
            len == input@.len(),
            a <= i <= b <= len,
            t@ == input@.subrange(a as int, i as int),
        decreases b - i,
    {
        let c = input[i];
        t.push(c);
        proof {
            assert(t@ =~= input@.subrange(a as int, i + 1));
        }
        i += 1;
    }
    proof {
        assert(t@ == input@.subrange(a as int, b as int));
        assert(t@[0] == input@[a as int]);
        assert(!is_space_byte(input@[b - 1]));
        assert(t@[t@.len() - 1] == input@[b - 1]);
    }
    Some(t)
}

/// Pick the first candidate marked available; the selection rule behind
/// resolving the external engine's binary from a list of well-known
/// locations.
pub fn pick_first_available(available: &Vec<bool>) -> (r: Option<usize>)
    ensures
        r matches Some(i) ==> 0 <= i < available@.len() && available@[i as int] && forall|j: int|
            0 <= j < i ==> !available@[j],
        (r is None) <==> forall|j: int| 0 <= j < available@.len() ==> !available@[j],
{
    let mut i: usize = 0;
    while i < available.len()
        invariant
            i <= available@.len(),
            forall|j: int| 0 <= j < i ==> !available@[j],
        decreases available@.len() - i,
    {
        if available[i] {
            return Some(i);
        }
        i += 1;
    }
    None
}

} // verus!
