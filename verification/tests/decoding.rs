use disk_serial::error::QueryError;
use disk_serial::serial::decode_serial;

fn store_u32(block: &mut [u8], at: usize, value: u32) {
    block[at..at + 4].copy_from_slice(&value.to_le_bytes());
}

/// A zeroed buffer of `capacity` bytes with a header that declares
/// `version` and `size` and points at `serial_offset`.
fn headed(capacity: usize, version: u32, size: u32, serial_offset: u32) -> Vec<u8> {
    let mut block = vec![0u8; capacity];
    store_u32(&mut block, 0, version);
    store_u32(&mut block, 4, size);
    store_u32(&mut block, 24, serial_offset);
    block
}

/// The same with `text` written at the serial offset.
fn holding(capacity: usize, version: u32, size: u32, serial_offset: u32, text: &[u8]) -> Vec<u8> {
    let mut block = headed(capacity, version, size, serial_offset);
    let start = serial_offset as usize;
    block[start..start + text.len()].copy_from_slice(text);
    block
}

#[test]
fn serial_after_a_header_of_64_bytes() {
    let block = holding(1024, 64, 71, 64, b"ABC123\0");
    assert_eq!(decode_serial(&block, 71), Ok("ABC123".to_string()));
}

#[test]
fn serial_is_found_in_a_buffer_that_holds_nothing_else() {
    let block = holding(71, 64, 71, 64, b"ABC123\0");
    assert_eq!(decode_serial(&block, 71), Ok("ABC123".to_string()));
}

#[test]
fn serial_keeps_its_padding() {
    let block = holding(1024, 40, 60, 40, b"    WD-WX11A 42  \0");
    assert_eq!(decode_serial(&block, 60), Ok("    WD-WX11A 42  ".to_string()));
}

#[test]
fn serial_may_start_right_after_the_fixed_header() {
    let block = holding(1024, 40, 40, 36, b"S1\0");
    assert_eq!(decode_serial(&block, 40), Ok("S1".to_string()));
}

#[test]
fn serial_stops_at_the_first_zero_byte() {
    let block = holding(1024, 40, 100, 50, b"FIRST\0SECOND\0");
    assert_eq!(decode_serial(&block, 100), Ok("FIRST".to_string()));
}

#[test]
fn serial_without_terminator_ends_with_the_declared_size() {
    let block = holding(1024, 40, 44, 40, b"ABCDEFGH");
    assert_eq!(decode_serial(&block, 1024), Ok("ABCD".to_string()));
}

#[test]
fn serial_without_terminator_ends_with_the_bytes_returned() {
    let block = holding(1024, 40, 1024, 40, b"ABCDEFGH");
    assert_eq!(decode_serial(&block, 43), Ok("ABC".to_string()));
}

#[test]
fn serial_without_terminator_ends_with_the_buffer() {
    let block = holding(45, 40, 1024, 40, b"ABCDE");
    assert_eq!(decode_serial(&block, 1024), Ok("ABCDE".to_string()));
}

#[test]
fn serial_of_no_characters_is_empty() {
    let block = headed(1024, 40, 80, 40);
    assert_eq!(decode_serial(&block, 80), Ok(String::new()));
}

#[test]
fn serial_of_several_bytes_per_character() {
    let text = "Größe-日本-🙂";
    let mut bytes = text.as_bytes().to_vec();
    bytes.push(0);
    let block = holding(1024, 40, 200, 48, &bytes);
    assert_eq!(decode_serial(&block, 200), Ok(text.to_string()));
}

#[test]
fn zero_offset_has_no_serial() {
    let block = holding(1024, 40, 80, 0, b"");
    assert_eq!(decode_serial(&block, 80), Err(QueryError::NoSerialNumber));
}

#[test]
fn zero_offset_has_no_serial_even_beside_text() {
    let mut block = headed(1024, 40, 80, 0);
    block[40..46].copy_from_slice(b"ABC123");
    assert_eq!(decode_serial(&block, 80), Err(QueryError::NoSerialNumber));
}

#[test]
fn offset_at_the_declared_size_has_no_serial() {
    let mut block = headed(1024, 64, 64, 64);
    block[64..71].copy_from_slice(b"ABC123\0");
    assert_eq!(decode_serial(&block, 71), Err(QueryError::NoSerialNumber));
}

#[test]
fn offset_past_the_declared_size_has_no_serial() {
    let mut block = headed(1024, 40, 50, 60);
    block[60..63].copy_from_slice(b"XYZ");
    assert_eq!(decode_serial(&block, 1024), Err(QueryError::NoSerialNumber));
}

#[test]
fn offset_past_the_bytes_returned_has_no_serial() {
    let mut block = headed(1024, 40, 1024, 60);
    block[60..63].copy_from_slice(b"XYZ");
    assert_eq!(decode_serial(&block, 60), Err(QueryError::NoSerialNumber));
    assert_eq!(decode_serial(&block, 61), Ok("X".to_string()));
}

#[test]
fn offset_past_the_buffer_has_no_serial() {
    let block = headed(64, 40, 4096, 64);
    assert_eq!(decode_serial(&block, 4096), Err(QueryError::NoSerialNumber));
    let far = headed(64, 40, u32::MAX, u32::MAX);
    assert_eq!(decode_serial(&far, u32::MAX), Err(QueryError::NoSerialNumber));
}

#[test]
fn bytes_that_are_not_text_are_an_invalid_encoding() {
    let block = holding(1024, 40, 80, 40, &[0x41, 0xFF, 0xFE, 0x00]);
    assert_eq!(decode_serial(&block, 80), Err(QueryError::InvalidEncoding));
}

#[test]
fn a_character_cut_short_is_an_invalid_encoding() {
    let block = holding(1024, 40, 80, 40, &[0xE6, 0x97, 0x00]);
    assert_eq!(decode_serial(&block, 80), Err(QueryError::InvalidEncoding));
}

#[test]
fn a_surrogate_is_an_invalid_encoding() {
    let block = holding(1024, 40, 80, 40, &[0xED, 0xA0, 0x80, 0x00]);
    assert_eq!(decode_serial(&block, 80), Err(QueryError::InvalidEncoding));
}

#[test]
fn an_overlong_form_is_an_invalid_encoding() {
    let block = holding(1024, 40, 80, 40, &[0xC0, 0xAF, 0x00]);
    assert_eq!(decode_serial(&block, 80), Err(QueryError::InvalidEncoding));
}

#[test]
fn fewer_bytes_than_the_header_are_a_truncated_response() {
    let block = holding(1024, 40, 80, 40, b"ABC\0");
    assert_eq!(decode_serial(&block, 35), Err(QueryError::TruncatedResponse));
    assert_eq!(decode_serial(&block, 8), Err(QueryError::TruncatedResponse));
    assert_eq!(decode_serial(&block, 0), Err(QueryError::TruncatedResponse));
}

#[test]
fn a_buffer_shorter_than_the_header_is_a_truncated_response() {
    assert_eq!(decode_serial(&[0u8; 35], 1024), Err(QueryError::TruncatedResponse));
    assert_eq!(decode_serial(&[], 0), Err(QueryError::TruncatedResponse));
}

#[test]
fn a_bare_header_is_whole_but_has_no_serial() {
    let block = headed(36, 36, 36, 0);
    assert_eq!(decode_serial(&block, 36), Err(QueryError::NoSerialNumber));
}

#[test]
fn truncation_is_told_before_the_offset_is_looked_at() {
    let block = headed(1024, 40, 80, 0);
    assert_eq!(decode_serial(&block, 20), Err(QueryError::TruncatedResponse));
}
