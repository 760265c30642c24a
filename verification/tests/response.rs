use sdcard::sd::response::{decode_response, R1Status, Response};

#[test]
fn decode_plain_status_after_filler() {
    // The card holds the line at 0xFF until its status byte.
    let raw = [0xFF, 0xFF, 0x01];
    let resp = decode_response(0, &raw).unwrap();
    assert_eq!(resp, Response { status: R1Status(0x01), extension: 0 });
}

#[test]
fn decode_status_with_big_endian_extension() {
    let raw = [0xFF, 0x00, 0xAA, 0xBB, 0xCC, 0xDD];
    let resp = decode_response(4, &raw).unwrap();
    assert_eq!(resp.status, R1Status(0x00));
    assert_eq!(resp.extension, 0xAABB_CCDD);
}

#[test]
fn decode_one_byte_extension() {
    // A write command's data-response token rides in a 1-byte extension.
    let raw = [0xFF, 0x00, 0xE5];
    let resp = decode_response(1, &raw).unwrap();
    assert_eq!(resp.extension, 0xE5);
}

#[test]
fn decode_no_status_byte_in_window() {
    let raw = [0xFF, 0xFF, 0xFF, 0xFF];
    assert_eq!(decode_response(0, &raw), None);
}

#[test]
fn decode_truncated_extension() {
    // A status byte too near the window's end leaves the extension
    // unreadable: that is no response either.
    let raw = [0xFF, 0x05];
    assert_eq!(decode_response(4, &raw), None);
}

#[test]
fn decode_empty_window() {
    assert_eq!(decode_response(0, &[]), None);
}

#[test]
fn r1_status_flags() {
    let status = R1Status(0x01);
    assert!(status.in_idle_state());
    assert!(!status.any_error());

    let status = R1Status(0x04);
    assert!(status.illegal_command());
    assert!(status.any_error());

    let status = R1Status(0x7E);
    assert!(status.erase_reset());
    assert!(status.crc_error());
    assert!(status.erase_sequence_error());
    assert!(status.address_error());
    assert!(status.parameter_error());
    assert!(!status.in_idle_state());
}
