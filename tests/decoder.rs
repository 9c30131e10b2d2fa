use can_bootloader::hex::{convert_ascii_to_hex, decode_nibbles};

#[test]
fn markers_take_no_nibble_slot() {
    let image: Vec<u8> = vec![0x02, b'1', b' ', b'A', b'\n', b'\r', 47, b'F', 0x03, 0];
    assert_eq!(decode_nibbles(&image), vec![1, 10, 15]);
}

#[test]
fn image_of_markers_only_decodes_to_nothing() {
    let image: Vec<u8> = (0u8..48).collect();
    assert_eq!(decode_nibbles(&image), Vec::<u8>::new());
    assert_eq!(decode_nibbles(&[]), Vec::<u8>::new());
}

#[test]
fn digits_decode_to_their_value() {
    for b in b'0'..=b'9' {
        assert_eq!(convert_ascii_to_hex(b), b - 48);
    }
    assert_eq!(convert_ascii_to_hex(b'0'), 0);
    assert_eq!(convert_ascii_to_hex(b'9'), 9);
}

#[test]
fn upper_case_letters_decode_to_their_value() {
    for b in b'A'..=b'F' {
        assert_eq!(convert_ascii_to_hex(b), b - 55);
    }
    assert_eq!(convert_ascii_to_hex(b'A'), 10);
    assert_eq!(convert_ascii_to_hex(b'F'), 15);
}

#[test]
fn out_of_range_bytes_are_not_rejected() {
    assert_eq!(convert_ascii_to_hex(b'G'), 16);
    assert_eq!(convert_ascii_to_hex(b':'), 10);
    assert_eq!(convert_ascii_to_hex(b'a'), 42);
}
