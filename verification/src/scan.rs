//! Signature scanner: tests a closed frame's accumulated hex string against
//! the configured signatures. Each signature carries one or more encoding
//! variants (say, a narrow and a wide encoding of the same logical string);
//! every variant is tested independently as a substring of the frame's
//! lowercase hex digits. Matching is purely intra-frame: a signature split
//! across a frame boundary is not detected — a documented limitation.

use crate::decode::decoded;
use crate::reassemble::Frame;
use vstd::prelude::*;

verus! {

/// `needle` occurs in `hay` starting at position `k`.
pub open spec fn match_at(hay: Seq<u8>, needle: Seq<u8>, k: int) -> bool {
    hay.subrange(k, k + needle.len()) == needle
}

/// `needle` is a contiguous substring of `hay`.
pub open spec fn is_substring(needle: Seq<u8>, hay: Seq<u8>) -> bool {
    exists|k: int| 0 <= k <= hay.len() - needle.len() && match_at(hay, needle, k)
}

/// Nothing non-empty occurs in an empty string.
pub proof fn lemma_no_substring_in_empty(needle: Seq<u8>, hay: Seq<u8>)
    requires
        hay.len() == 0,
        needle.len() > 0,
    ensures
        !is_substring(needle, hay),
{
}

/// Copy a byte slice into a fresh vector.
pub fn copy_bytes(src: &[u8]) -> (r: Vec<u8>)
    ensures
        r@ == src@,
{
    let mut r: Vec<u8> = Vec::new();
    let mut i: usize = 0;
    while i < src.len()
        invariant
            i <= src@.len(),
            r@ == src@.take(i as int),
        decreases src@.len() - i,
    {
        let c = src[i];
        r.push(c);
        proof {
            assert(r@ =~= src@.take(i + 1));
        }
        i += 1;
    }
    proof {
        assert(src@.take(src@.len() as int) =~= src@);
    }
    r
}

/// Substring search: does `needle` occur contiguously in `hay`?
pub fn contains_hex(hay: &[u8], needle: &[u8]) -> (r: bool)
    ensures
        r == is_substring(needle@, hay@),
{
    let nlen = needle.len();
    let hlen = hay.len();
    if nlen > hlen {
        return false;
    }
    if nlen == 0 {
        proof {
            assert(hay@.subrange(0, 0) =~= needle@);
            assert(match_at(hay@, needle@, 0));
        }
        return true;
    }
    let mut k: usize = 0;
    while k <= hlen - nlen
        invariant
            nlen == needle@.len(),
            hlen == hay@.len(),
            hlen <= usize::MAX,
            1 <= nlen <= hlen,
            k <= hlen - nlen + 1,
            forall|t: int| 0 <= t < k ==> !match_at(hay@, needle@, t),
        decreases hlen - k,
    {
        let mut j: usize = 0;
        let mut matched = true;
        while j < nlen
            invariant
                nlen == needle@.len(),
                hlen == hay@.len(),
                k + nlen <= hlen,
                j <= nlen,
                matched ==> forall|t: int| 0 <= t < j ==> hay@[k + t] == needle@[t],
                !matched ==> !match_at(hay@, needle@, k as int),
            decreases nlen - j,
        {
            if hay[k + j] != needle[j] {
                proof {
                    if match_at(hay@, needle@, k as int) {
                        assert(hay@.subrange(k as int, k + nlen as int)[j as int]
                            == needle@[j as int]);
                    }
                }
                matched = false;
                j = nlen;
            } else {
                j += 1;
            }
        }
        if matched {
            proof {
                assert(hay@.subrange(k as int, k + nlen as int) =~= needle@);
                assert(match_at(hay@, needle@, k as int));
            }
            return true;
        }
        k += 1;
    }
    proof {
        assert(forall|t: int| 0 <= t <= hay@.len() - needle@.len() ==> !match_at(
            hay@,
            needle@,
            t,
        ));
    }
    false
}

/// One configured target: a label and the hex-digit encodings that count as
/// an occurrence of it. Variants must be pre-normalized to lowercase hex,
/// matching the case-normalized frame hex they are compared against.
pub struct Signature {
    pub name: Vec<u8>,
    pub variants: Vec<Vec<u8>>,
}

impl Signature {
    /// A usable signature has no empty variant: an empty digit string would
    /// occur in every frame, including frames with no hex at all.
    pub open spec fn wf(self) -> bool {
        forall|j: int| 0 <= j < self.variants@.len() ==> (#[trigger] self.variants@[j])@.len() > 0
    }
}

/// Every configured signature is usable.
pub open spec fn sigs_wf(sigs: Seq<Signature>) -> bool {
    forall|i: int| 0 <= i < sigs.len() ==> (#[trigger] sigs[i]).wf()
}

/// The immutable result of decoding one closed frame: its sequence number,
/// the printable-ASCII projection of its payload, and the lowercase hex
/// digit string the scanner searches.
pub struct DecodedFrame {
    pub seq: u64,
    pub printable: Vec<u8>,
    pub hex: Vec<u8>,
}

/// Decode one closed frame into its immutable scanning form.
pub fn decode_frame(frame: &Frame) -> (d: DecodedFrame)
    ensures
        d.seq == frame.seq,
        d.hex@ == frame.hex@,
        d.printable@ == decoded(frame.hex@),
{
    DecodedFrame {
        seq: frame.seq,
        printable: crate::decode::hex_to_clean_ascii(frame.hex.as_slice()),
        hex: copy_bytes(frame.hex.as_slice()),
    }
}

/// One reported match: which frame, which signature, which of its variants,
/// and the frame's printable content.
pub struct MatchRecord {
    pub frame_seq: u64,
    pub sig_index: usize,
    pub variant_index: usize,
    pub printable: Vec<u8>,
}

/// Some record in `found` reports signature `i`, variant `j`.
pub open spec fn reports_pair(found: Seq<MatchRecord>, i: int, j: int) -> bool {
    exists|k: int|
        0 <= k < found.len() && (#[trigger] found[k]).sig_index == i && found[k].variant_index == j
}

/// Lexicographic order on (signature index, variant index) pairs.
pub open spec fn pair_lt(i1: int, j1: int, i2: int, j2: int) -> bool {
    i1 < i2 || (i1 == i2 && j1 < j2)
}

/// What a finished scan reports, relative to the pairs strictly before
/// (`bi`, `bj`) in scanning order: every record is a true, well-indexed match
/// for this frame; a pair is reported exactly when its variant occurs in the
/// frame's hex; and records come in strictly increasing scanning order.
pub open spec fn scan_prefix_ok(
    found: Seq<MatchRecord>,
    sigs: Seq<Signature>,
    frame_seq: u64,
    printable: Seq<u8>,
    hex: Seq<u8>,
    bi: int,
    bj: int,
) -> bool {
    &&& forall|k: int|
        0 <= k < found.len() ==> {
            let m = #[trigger] found[k];
            &&& m.frame_seq == frame_seq
            &&& m.printable@ == printable
            &&& 0 <= m.sig_index < sigs.len()
            &&& 0 <= m.variant_index < sigs[m.sig_index as int].variants@.len()
            &&& pair_lt(m.sig_index as int, m.variant_index as int, bi, bj)
            &&& is_substring(sigs[m.sig_index as int].variants@[m.variant_index as int]@, hex)
        }
    &&& forall|i: int, j: int|
        0 <= i < sigs.len() && 0 <= j < sigs[i].variants@.len() && pair_lt(i, j, bi, bj) ==> (
        reports_pair(found, i, j) <==> is_substring(#[trigger] sigs[i].variants@[j]@, hex))
    &&& forall|k1: int, k2: int|
        0 <= k1 < k2 < found.len() ==> pair_lt(
            (#[trigger] found[k1]).sig_index as int,
            found[k1].variant_index as int,
            (#[trigger] found[k2]).sig_index as int,
            found[k2].variant_index as int,
        )
}

/// What a finished scan reports, for every configured pair.
pub open spec fn scan_result_ok(
    found: Seq<MatchRecord>,
    sigs: Seq<Signature>,
    frame_seq: u64,
    printable: Seq<u8>,
    hex: Seq<u8>,
) -> bool {
    scan_prefix_ok(found, sigs, frame_seq, printable, hex, sigs.len() as int, 0)
}

/// Scan a decoded frame against the configured signatures. A record is
/// reported for a (signature, variant) pair exactly when that variant's
/// digit string occurs in the frame's hex string; records come in scanning
/// order. When the frame carries no hex at all, nothing is reported.
pub fn scan_frame(frame: &DecodedFrame, sigs: &Vec<Signature>) -> (found: Vec<MatchRecord>)
    ensures
        scan_result_ok(found@, sigs@, frame.seq, frame.printable@, frame.hex@),
        (frame.hex@.len() == 0 && sigs_wf(sigs@)) ==> found@.len() == 0,
{
    let mut found: Vec<MatchRecord> = Vec::new();
    let mut i: usize = 0;
    while i < sigs.len()
        invariant
            i <= sigs@.len(),
            scan_prefix_ok(found@, sigs@, frame.seq, frame.printable@, frame.hex@, i as int, 0),
        decreases sigs@.len() - i,
    {
        let sig = &sigs[i];
        let mut j: usize = 0;
        while j < sig.variants.len()
            invariant
                i < sigs@.len(),
                sig == sigs@[i as int],
                j <= sig.variants@.len(),
                scan_prefix_ok(
                    found@,
                    sigs@,
                    frame.seq,
                    frame.printable@,
                    frame.hex@,
                    i as int,
                    j as int,
                ),
            decreases sig.variants@.len() - j,
        {
            let variant = &sig.variants[j];
            let ghost found_prev = found@;
            let hit = contains_hex(frame.hex.as_slice(), variant.as_slice());
            if hit {
                found.push(
                    MatchRecord {
                        frame_seq: frame.seq,
                        sig_index: i,
                        variant_index: j,
                        printable: copy_bytes(frame.printable.as_slice()),
                    },
                );
            }
            proof {
                let gi = i as int;
                let gj = j as int;
                if hit {
                    let m = found@[found_prev.len() as int];
                    assert(found@ == found_prev.push(m));
                    assert(forall|k: int|
                        0 <= k < found_prev.len() ==> found@[k] == found_prev[k]);
                    assert(m.sig_index == gi && m.variant_index == gj);
                    assert(reports_pair(found@, gi, gj));
                    assert(forall|i2: int, j2: int|
                        pair_lt(i2, j2, gi, gj) && reports_pair(found_prev, i2, j2)
                            ==> reports_pair(found@, i2, j2)) by {
                        assert forall|i2: int, j2: int|
                            pair_lt(i2, j2, gi, gj) && reports_pair(
                                found_prev,
                                i2,
                                j2,
                            ) implies reports_pair(found@, i2, j2) by {
                            let k = choose|k: int|
                                0 <= k < found_prev.len() && (#[trigger] found_prev[k]).sig_index
                                    == i2 && found_prev[k].variant_index == j2;
                            assert(found@[k].sig_index == i2 && found@[k].variant_index == j2);
                        }
                    }
                    assert(forall|i2: int, j2: int|
                        pair_lt(i2, j2, gi, gj) && reports_pair(found@, i2, j2)
                            ==> reports_pair(found_prev, i2, j2)) by {
                        assert forall|i2: int, j2: int|
                            pair_lt(i2, j2, gi, gj) && reports_pair(
                                found@,
                                i2,
                                j2,
                            ) implies reports_pair(found_prev, i2, j2) by {
                            let k = choose|k: int|
                                0 <= k < found@.len() && (#[trigger] found@[k]).sig_index == i2
                                    && found@[k].variant_index == j2;
                            assert(k < found_prev.len());
                            assert(found_prev[k].sig_index == i2);
                        }
                    }
                } else {
                    assert(!reports_pair(found@, gi, gj)) by {
                        assert(forall|k: int|
                            0 <= k < found@.len() ==> pair_lt(
                                (#[trigger] found@[k]).sig_index as int,
                                found@[k].variant_index as int,
                                gi,
                                gj,
                            ));
                    }
                }
                assert(scan_prefix_ok(
                    found@,
                    sigs@,
                    frame.seq,
                    frame.printable@,
                    frame.hex@,
                    gi,
                    gj + 1,
                ));
            }
            j += 1;
        }
        i += 1;
    }
    proof {
        if frame.hex@.len() == 0 && sigs_wf(sigs@) && found@.len() > 0 {
            let m = found@[0];
            assert(sigs@[m.sig_index as int].wf());
            lemma_no_substring_in_empty(
                sigs@[m.sig_index as int].variants@[m.variant_index as int]@,
                frame.hex@,
            );
        }
    }
    found
}

/// Decode one closed frame and scan it: everything to be done with a closed
/// packet before its results go to the sink.
pub fn process_frame(frame: &Frame, sigs: &Vec<Signature>) -> (r: (DecodedFrame, Vec<MatchRecord>))
    ensures
        r.0.seq == frame.seq,
        r.0.hex@ == frame.hex@,
        r.0.printable@ == decoded(frame.hex@),
        scan_result_ok(r.1@, sigs@, frame.seq, decoded(frame.hex@), frame.hex@),
        (frame.hex@.len() == 0 && sigs_wf(sigs@)) ==> r.1@.len() == 0,
{
    let d = decode_frame(frame);
    let found = scan_frame(&d, sigs);
    (d, found)
}

/// A frame reports a match exactly when at least one configured variant's
/// digit string occurs in its accumulated hex string.
pub proof fn lemma_match_iff_some_variant_occurs(
    found: Seq<MatchRecord>,
    sigs: Seq<Signature>,
    frame_seq: u64,
    printable: Seq<u8>,
    hex: Seq<u8>,
)
    requires
        scan_result_ok(found, sigs, frame_seq, printable, hex),
    ensures
        (found.len() > 0) <==> exists|i: int, j: int|
            0 <= i < sigs.len() && 0 <= j < sigs[i].variants@.len() && is_substring(
                #[trigger] sigs[i].variants@[j]@,
                hex,
            ),
{
    if found.len() > 0 {
        let m = found[0];
        assert(is_substring(sigs[m.sig_index as int].variants@[m.variant_index as int]@, hex));
    }
    if exists|i: int, j: int|
        0 <= i < sigs.len() && 0 <= j < sigs[i].variants@.len() && is_substring(
            #[trigger] sigs[i].variants@[j]@,
            hex,
        ) {
        let (i, j) = choose|i: int, j: int|
            0 <= i < sigs.len() && 0 <= j < sigs[i].variants@.len() && is_substring(
                #[trigger] sigs[i].variants@[j]@,
                hex,
            );
        assert(reports_pair(found, i, j));
        let k = choose|k: int|
            0 <= k < found.len() && (#[trigger] found[k]).sig_index == i && found[k].variant_index
                == j;
        assert(found.len() > 0);
    }
}

/// When two variants of one signature both occur in a frame's hex, both are
/// reported — each variant is tested independently.
pub proof fn lemma_both_variants_reported(
    found: Seq<MatchRecord>,
    sigs: Seq<Signature>,
    frame_seq: u64,
    printable: Seq<u8>,
    hex: Seq<u8>,
    i: int,
    j1: int,
    j2: int,
)
    requires
        scan_result_ok(found, sigs, frame_seq, printable, hex),
        0 <= i < sigs.len(),
        0 <= j1 < sigs[i].variants@.len(),
        0 <= j2 < sigs[i].variants@.len(),
        is_substring(sigs[i].variants@[j1]@, hex),
        is_substring(sigs[i].variants@[j2]@, hex),
    ensures
        reports_pair(found, i, j1),
        reports_pair(found, i, j2),
{
}

} // verus!
