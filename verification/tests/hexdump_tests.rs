use nitro_cvv::{hexdump, hexdump_cols, hexdump_no_ascii, hexdump_string};

#[test]
fn short_chunk_with_ascii_column() {
    assert_eq!(
        hexdump_string(b"ABC"),
        "00000000  41 42 43                                          |ABC|\n"
    );
}

#[test]
fn full_sixteen_byte_line() {
    let bytes: Vec<u8> = (0..16).collect();
    assert_eq!(
        hexdump(&bytes),
        "00000000  00 01 02 03 04 05 06 07  08 09 0a 0b 0c 0d 0e 0f  |................|\n"
    );
}

#[test]
fn custom_column_count_wraps_lines() {
    assert_eq!(
        hexdump_cols(b"ABCDE", 4),
        "00000000  41 42 43 44  |ABCD|\n00000004  45           |E|\n"
    );
}

#[test]
fn no_ascii_column() {
    assert_eq!(
        hexdump_no_ascii(b"AB"),
        "00000000  41 42                                            \n"
    );
}

#[test]
fn empty_input_renders_nothing() {
    assert_eq!(hexdump(&[]), "");
    assert_eq!(hexdump_string(&[]), "");
}

#[test]
fn unprintable_bytes_show_as_dots() {
    let s = hexdump(&[0x00, 0x41, 0x7f, 0x20]);
    assert!(s.ends_with("|.A. |\n"));
}

#[test]
fn offsets_advance_per_line() {
    let bytes = vec![0u8; 33];
    let s = hexdump(&bytes);
    let lines: Vec<&str> = s.lines().collect();
    assert_eq!(lines.len(), 3);
    assert!(lines[0].starts_with("00000000  "));
    assert!(lines[1].starts_with("00000010  "));
    assert!(lines[2].starts_with("00000020  "));
}
