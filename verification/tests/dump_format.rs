use netdefs::hexdump::byte_dump_rows;

#[test]
fn empty_buffer_has_no_rows() {
    assert_eq!(byte_dump_rows(&[]), Vec::<String>::new());
}

#[test]
fn short_buffer_is_one_row() {
    assert_eq!(byte_dump_rows(&[0xAB, 0x01, 0xFF]), vec!["AB 01 FF ".to_string()]);
}

#[test]
fn rows_hold_twenty_bytes() {
    let bytes: Vec<u8> = (0u8..25).collect();
    let rows = byte_dump_rows(&bytes);
    assert_eq!(rows.len(), 2);
    assert_eq!(
        rows[0],
        "00 01 02 03 04 05 06 07 08 09 0A 0B 0C 0D 0E 0F 10 11 12 13 "
    );
    assert_eq!(rows[1], "14 15 16 17 18 ");
}

#[test]
fn exact_row_boundary() {
    let bytes = vec![0u8; 40];
    let rows = byte_dump_rows(&bytes);
    assert_eq!(rows.len(), 2);
    assert_eq!(rows[0].len(), 60);
    assert_eq!(rows[1].len(), 60);
}
