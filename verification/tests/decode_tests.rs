use capscan::decode::hex_to_clean_ascii;
use capscan::dumpline::{extract_hex_bytes, is_hex_dump_line};

#[test]
fn decodes_hello() {
    assert_eq!(hex_to_clean_ascii(b"48656c6c6f"), b"Hello".to_vec());
}

#[test]
fn decodes_empty_input_to_empty_output() {
    assert_eq!(hex_to_clean_ascii(b""), Vec::<u8>::new());
}

#[test]
fn replaces_non_printable_bytes_with_placeholder() {
    // 0x00 and 0x1f are below the printable range, 0x7f is above it.
    assert_eq!(hex_to_clean_ascii(b"001f7f"), b"...".to_vec());
}

#[test]
fn keeps_printable_range_boundaries() {
    // 0x20 is space, 0x7e is '~': both ends of the printable range.
    assert_eq!(hex_to_clean_ascii(b"207e"), b" ~".to_vec());
}

#[test]
fn replaces_malformed_pairs_with_placeholder() {
    // "zz" parses as no byte; the pair still yields exactly one placeholder.
    assert_eq!(hex_to_clean_ascii(b"zz48"), b".H".to_vec());
}

#[test]
fn drops_odd_trailing_nibble() {
    assert_eq!(hex_to_clean_ascii(b"48656c6c6f4"), b"Hello".to_vec());
}

#[test]
fn decoding_is_deterministic() {
    let a = hex_to_clean_ascii(b"48656c6c6f00ff4");
    let b = hex_to_clean_ascii(b"48656c6c6f00ff4");
    assert_eq!(a, b);
}

#[test]
fn accepts_uppercase_hex_digits() {
    assert_eq!(hex_to_clean_ascii(b"48656C6C6F"), b"Hello".to_vec());
}

#[test]
fn recognizes_dump_line() {
    assert!(is_hex_dump_line(b"00e0 48 65 6c 6c 6f"));
}

#[test]
fn rejects_short_line() {
    assert!(!is_hex_dump_line(b"00e0 "));
}

#[test]
fn rejects_non_hex_prefix() {
    assert!(!is_hex_dump_line(b"00g0 48 65"));
    assert!(!is_hex_dump_line(b"hello world"));
}

#[test]
fn rejects_missing_separator() {
    assert!(!is_hex_dump_line(b"00e0X48 65"));
}

#[test]
fn extracts_hex_after_offset() {
    assert_eq!(extract_hex_bytes(b"00e0 48 65 6c 6c 6f"), b"48656c6c6f".to_vec());
}

#[test]
fn extraction_lowercases_digits() {
    assert_eq!(extract_hex_bytes(b"00e0 4A 4F"), b"4a4f".to_vec());
}

#[test]
fn extraction_on_short_line_reads_from_start() {
    // A line at most five bytes long has no offset column to skip.
    assert_eq!(extract_hex_bytes(b"4865"), b"4865".to_vec());
}

#[test]
fn extraction_stops_at_column_window_end() {
    // 49 hex-digit bytes follow the offset; the window ends at byte 54, so
    // exactly bytes 5..54 are kept.
    let mut line = b"0000 ".to_vec();
    line.extend(std::iter::repeat(b'a').take(60));
    let out = extract_hex_bytes(&line);
    assert_eq!(out.len(), 49);
    assert!(out.iter().all(|&c| c == b'a'));
}
