use capscan::reassemble::Reassembler;
use capscan::scan::{decode_frame, process_frame, scan_frame, DecodedFrame, Signature};

fn sig(name: &[u8], variants: &[&[u8]]) -> Signature {
    Signature {
        name: name.to_vec(),
        variants: variants.iter().map(|v| v.to_vec()).collect(),
    }
}

#[test]
fn scenario_two_frames_with_boundary() {
    // Feed a dump line, a blank boundary, then a second dump line: the first
    // frame closes and decodes to "Hello" with no match for "4275"; the
    // second frame stays buffered with its hex pending close.
    let sigs = vec![sig(b"target", &[b"4275"])];
    let mut r = Reassembler::new();

    let none = r.feed(b"00e0 48 65 6c 6c 6f".to_vec());
    assert!(none.is_none());

    let closed = r.feed(b"".to_vec());
    let frame = closed.expect("blank line closes the buffered frame");
    assert_eq!(frame.seq, 1);
    assert_eq!(frame.hex, b"48656c6c6f".to_vec());

    let (decoded, found) = process_frame(&frame, &sigs);
    assert_eq!(decoded.printable, b"Hello".to_vec());
    assert!(found.is_empty());

    let none = r.feed(b"00e0 42 75 6e".to_vec());
    assert!(none.is_none());
    assert_eq!(r.hex, b"42756e".to_vec());
    assert_eq!(r.frames_closed(), 1);
}

#[test]
fn blank_lines_are_not_buffered() {
    let mut r = Reassembler::new();
    assert!(r.feed(b"   ".to_vec()).is_none());
    assert!(r.buffered.is_empty());
    assert_eq!(r.frames_closed(), 0);
}

#[test]
fn frame_marker_closes_and_is_buffered() {
    let mut r = Reassembler::new();
    assert!(r.feed(b"00e0 48 65".to_vec()).is_none());
    let closed = r.feed(b"Frame 2: 60 bytes".to_vec());
    assert!(closed.is_some());
    // The marker line itself starts the next frame's buffer.
    assert_eq!(r.buffered.len(), 1);
    assert_eq!(r.buffered[0], b"Frame 2: 60 bytes".to_vec());
}

#[test]
fn non_dump_lines_are_kept_but_add_no_hex() {
    let mut r = Reassembler::new();
    assert!(r.feed(b"Internet Protocol Version 4".to_vec()).is_none());
    assert_eq!(r.buffered.len(), 1);
    assert!(r.hex.is_empty());
}

#[test]
fn frame_numbers_are_strictly_increasing_and_gapless() {
    let mut r = Reassembler::new();
    let mut seqs = Vec::new();
    for _ in 0..4 {
        assert!(r.feed(b"00e0 41 42".to_vec()).is_none());
        if let Some(f) = r.feed(b"".to_vec()) {
            seqs.push(f.seq);
        }
    }
    assert_eq!(seqs, vec![1, 2, 3, 4]);
}

#[test]
fn scan_reports_match_when_variant_present() {
    let frame = DecodedFrame {
        seq: 7,
        printable: b"Bun".to_vec(),
        hex: b"42756e".to_vec(),
    };
    let sigs = vec![sig(b"target", &[b"4275"])];
    let found = scan_frame(&frame, &sigs);
    assert_eq!(found.len(), 1);
    assert_eq!(found[0].frame_seq, 7);
    assert_eq!(found[0].sig_index, 0);
    assert_eq!(found[0].variant_index, 0);
    assert_eq!(found[0].printable, b"Bun".to_vec());
}

#[test]
fn scan_reports_nothing_without_occurrence() {
    let frame = DecodedFrame {
        seq: 1,
        printable: b"Hello".to_vec(),
        hex: b"48656c6c6f".to_vec(),
    };
    let sigs = vec![sig(b"target", &[b"4275"])];
    assert!(scan_frame(&frame, &sigs).is_empty());
}

#[test]
fn narrow_but_not_wide_reports_exactly_one_variant() {
    // The narrow encoding occurs, the wide one does not: exactly one record,
    // naming the narrow variant.
    let frame = DecodedFrame {
        seq: 3,
        printable: b"Bun".to_vec(),
        hex: b"42756e".to_vec(),
    };
    let sigs = vec![sig(b"target", &[b"4275", b"420075"])];
    let found = scan_frame(&frame, &sigs);
    assert_eq!(found.len(), 1);
    assert_eq!(found[0].sig_index, 0);
    assert_eq!(found[0].variant_index, 0);
}

#[test]
fn both_variants_report_when_both_present() {
    let frame = DecodedFrame {
        seq: 2,
        printable: vec![b'.'; 5],
        hex: b"4275420075".to_vec(),
    };
    let sigs = vec![sig(b"target", &[b"4275", b"420075"])];
    let found = scan_frame(&frame, &sigs);
    assert_eq!(found.len(), 2);
    assert_eq!(found[0].variant_index, 0);
    assert_eq!(found[1].variant_index, 1);
}

#[test]
fn empty_hex_reports_nothing() {
    let frame = DecodedFrame {
        seq: 1,
        printable: Vec::new(),
        hex: Vec::new(),
    };
    let sigs = vec![sig(b"a", &[b"4275"]), sig(b"b", &[b"41", b"42"])];
    assert!(scan_frame(&frame, &sigs).is_empty());
}

#[test]
fn variants_of_distinct_signatures_report_independently() {
    let frame = DecodedFrame {
        seq: 5,
        printable: b"AB".to_vec(),
        hex: b"4142".to_vec(),
    };
    let sigs = vec![sig(b"a", &[b"4142"]), sig(b"b", &[b"ff"]), sig(b"c", &[b"42"])];
    let found = scan_frame(&frame, &sigs);
    assert_eq!(found.len(), 2);
    assert_eq!((found[0].sig_index, found[0].variant_index), (0, 0));
    assert_eq!((found[1].sig_index, found[1].variant_index), (2, 0));
}

#[test]
fn decode_frame_keeps_sequence_and_hex() {
    let mut r = Reassembler::new();
    assert!(r.feed(b"00e0 42 75 6e".to_vec()).is_none());
    let frame = r.feed(b"Frame 2".to_vec()).unwrap();
    let d = decode_frame(&frame);
    assert_eq!(d.seq, frame.seq);
    assert_eq!(d.hex, frame.hex);
    assert_eq!(d.printable, b"Bun".to_vec());
}
