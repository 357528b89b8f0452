//! Frame reassembler: groups raw capture lines into logical packet frames.
//! A boundary is declared when a line is blank or carries the frame-start
//! marker; on a boundary the in-progress buffer, if non-empty, is emitted as
//! a closed frame and a fresh buffer starts. Blank lines are never buffered.
//! Hex-dump lines additionally contribute their extracted digits to the
//! frame's accumulating searchable hex string. The boundary heuristic assumes
//! the marker reliably demarcates frames in the engine's textual output; if
//! that representation changes, frames could run together or split — a known
//! fragility, deliberately not papered over here.

use crate::dumpline::is_hex_dump_line;
use crate::dumpline::extract_hex_bytes;
use crate::dumpline::spec_extract_hex;
use crate::dumpline::spec_is_hex_dump_line;
use crate::text::blank_line;
use crate::text::is_blank;
use vstd::prelude::*;

verus! {

/// The frame-start marker: the line begins with the six bytes of `"Frame "`.
pub open spec fn starts_with_frame_marker(line: Seq<u8>) -> bool {
    &&& line.len() >= 6
    &&& line[0] == 70
    &&& line[1] == 114
    &&& line[2] == 97
    &&& line[3] == 109
    &&& line[4] == 101
    &&& line[5] == 32
}

/// A frame boundary: a blank line or a frame-start marker line.
pub open spec fn is_boundary(line: Seq<u8>) -> bool {
    is_blank(line) || starts_with_frame_marker(line)
}

/// Runtime check matching `is_boundary`.
pub fn boundary_line(line: &[u8]) -> (r: bool)
    ensures
        r == is_boundary(line@),
{
    if blank_line(line) {
        return true;
    }
    line.len() >= 6 && line[0] == 70 && line[1] == 114 && line[2] == 97 && line[3] == 109
        && line[4] == 101 && line[5] == 32
}

/// One closed packet frame: its run-wide sequence number, the raw lines that
/// made it up, and the lowercase hex digits extracted from its dump lines.
pub struct Frame {
    pub seq: u64,
    pub lines: Vec<Vec<u8>>,
    pub hex: Vec<u8>,
}

/// The reassembler's state: exactly one in-progress frame buffer plus the
/// count of frames closed so far. The ghost `emitted` sequence records the
/// sequence number of every frame closed in this run, in emission order.
pub struct Reassembler {
    pub buffered: Vec<Vec<u8>>,
    pub hex: Vec<u8>,
    pub closed_count: u64,
    pub emitted: Ghost<Seq<u64>>,
}

impl Reassembler {
    /// Well-formedness: the emission record holds 1, 2, ..., `closed_count`.
    pub open spec fn wf(self) -> bool {
        self.emitted@ == Seq::new(self.closed_count as nat, |i: int| (i + 1) as u64)
    }

    /// A fresh reassembler: empty buffer, no frames closed.
    pub fn new() -> (r: Reassembler)
        ensures
            r.wf(),
            r.closed_count == 0,
            r.buffered@.len() == 0,
            r.hex@.len() == 0,
            r.emitted@.len() == 0,
    {
        let r = Reassembler {
            buffered: Vec::new(),
            hex: Vec::new(),
            closed_count: 0,
            emitted: Ghost(Seq::empty()),
        };
        proof {
            assert(r.emitted@ =~= Seq::new(0, |i: int| (i + 1) as u64));
        }
        r
    }

    /// How many frames this run has closed so far.
    pub fn frames_closed(&self) -> (n: u64)
        ensures
            n == self.closed_count,
    {
        self.closed_count
    }

    /// Feed one raw line. On a boundary with a non-empty buffer the buffer is
    /// emitted as a closed frame, numbered one past the previous frame, and a
    /// fresh buffer starts; otherwise the line is buffered (unless blank),
    /// dump lines contributing their hex digits.
    pub fn feed(&mut self, line: Vec<u8>) -> (frame: Option<Frame>)
        requires
            old(self).wf(),
            old(self).closed_count < u64::MAX,
        ensures
            final(self).wf(),
            (frame is Some) <==> (is_boundary(line@) && old(self).buffered@.len() > 0),
            frame matches Some(f) ==> {
                &&& f.seq == old(self).closed_count + 1
                &&& f.lines.deep_view() == old(self).buffered.deep_view()
                &&& f.hex@ == old(self).hex@
                &&& final(self).closed_count == old(self).closed_count + 1
                &&& final(self).emitted@ == old(self).emitted@.push(f.seq)
            },
            frame is None ==> final(self).closed_count == old(self).closed_count
                && final(self).emitted@ == old(self).emitted@,
            ({
                let base_lines: Seq<Seq<u8>> = if is_boundary(line@) && old(self).buffered@.len()
                    > 0 {
                    Seq::empty()
                } else {
                    old(self).buffered.deep_view()
                };
                let base_hex: Seq<u8> = if is_boundary(line@) && old(self).buffered@.len() > 0 {
                    Seq::empty()
                } else {
                    old(self).hex@
                };
                if is_blank(line@) {
                    final(self).buffered.deep_view() == base_lines && final(self).hex@ == base_hex
                } else {
                    final(self).buffered.deep_view() == base_lines.push(line@) && final(self).hex@
                        == (if spec_is_hex_dump_line(line@) {
                        base_hex + spec_extract_hex(line@)
                    } else {
                        base_hex
                    })
                }
            }),
    {
        let boundary = boundary_line(line.as_slice());
        let mut frame: Option<Frame> = None;
        if boundary && self.buffered.len() > 0 {
            let mut taken_lines: Vec<Vec<u8>> = Vec::new();
            let mut taken_hex: Vec<u8> = Vec::new();
            core::mem::swap(&mut taken_lines, &mut self.buffered);
            core::mem::swap(&mut taken_hex, &mut self.hex);
            self.closed_count = self.closed_count + 1;
            self.emitted = Ghost(self.emitted@.push(self.closed_count));
            frame = Some(Frame { seq: self.closed_count, lines: taken_lines, hex: taken_hex });
            proof {
                assert(self.emitted@ =~= Seq::new(
                    self.closed_count as nat,
                    |i: int| (i + 1) as u64,
                ));
            }
        }
        let ghost base_lines = self.buffered.deep_view();
        let ghost base_hex = self.hex@;
        if !blank_line(line.as_slice()) {
            if is_hex_dump_line(line.as_slice()) {
                let mut extra = extract_hex_bytes(line.as_slice());
                self.hex.append(&mut extra);
            }
            let ghost line_snapshot = line@;
            self.buffered.push(line);
            proof {
                assert(self.buffered.deep_view() =~~= base_lines.push(line_snapshot));
            }
        }
        frame
    }
}

/// Frame sequence numbers are strictly increasing and gapless: the frame
/// closed at position `i` of a run carries number `i + 1`, so each closed
/// frame's number exceeds its predecessor's by exactly one.
pub proof fn lemma_frame_numbers_strictly_increasing_gapless(r: Reassembler)
    requires
        r.wf(),
    ensures
        forall|i: int| 0 <= i < r.emitted@.len() ==> r.emitted@[i] == i + 1,
        forall|i: int, j: int| 0 <= i < j < r.emitted@.len() ==> r.emitted@[i] < r.emitted@[j],
        forall|i: int| 0 <= i && i + 1 < r.emitted@.len() ==> #[trigger] r.emitted@[i + 1]
            == r.emitted@[i] + 1,
{
}

} // verus!
