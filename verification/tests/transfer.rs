use sdcard::sd::transfer::{
    classify_data_response, classify_read_token, crc16, crc16_matches, frame_block, TokenError,
    TokenPoll, START_BLOCK_TOKEN, START_MULTI_WRITE_TOKEN,
};

#[test]
fn read_token_classification() {
    assert_eq!(classify_read_token(0xFF), TokenPoll::Pending);
    assert_eq!(classify_read_token(0xFE), TokenPoll::Start);
    assert_eq!(classify_read_token(0x01), TokenPoll::Error(TokenError::CardError));
    assert_eq!(classify_read_token(0x02), TokenPoll::Error(TokenError::CcError));
    assert_eq!(classify_read_token(0x04), TokenPoll::Error(TokenError::CardEccFailed));
    assert_eq!(classify_read_token(0x08), TokenPoll::Error(TokenError::OutOfRange));
    assert_eq!(classify_read_token(0x10), TokenPoll::Error(TokenError::CardLocked));
    // The highest-priority flag names the failure when several are set.
    assert_eq!(classify_read_token(0x09), TokenPoll::Error(TokenError::OutOfRange));
    // A pattern outside the protocol.
    assert_eq!(classify_read_token(0x40), TokenPoll::Error(TokenError::Unknown));
    assert_eq!(classify_read_token(0x00), TokenPoll::Error(TokenError::Unknown));
}

#[test]
fn data_response_classification() {
    assert_eq!(classify_data_response(0x05), Ok(()));
    // Only the low five bits carry the answer.
    assert_eq!(classify_data_response(0xE5), Ok(()));
    assert_eq!(classify_data_response(0x0B), Err(TokenError::CrcRejected));
    assert_eq!(classify_data_response(0x0D), Err(TokenError::WriteRejected));
    assert_eq!(classify_data_response(0x1F), Err(TokenError::Unknown));
}

#[test]
fn crc16_reference_vector() {
    // The classic check value of CRC-16/XMODEM.
    assert_eq!(crc16(b"123456789"), 0x31C3);
    assert_eq!(crc16(&[]), 0x0000);
    assert_eq!(crc16(&[0u8; 512]), 0x0000);
}

#[test]
fn crc16_match_check() {
    assert!(crc16_matches(b"123456789", 0x31, 0xC3));
    assert!(!crc16_matches(b"123456789", 0x31, 0xC4));
    assert!(!crc16_matches(b"123456788", 0x31, 0xC3));
}

#[test]
fn frame_block_layout() {
    let mut payload = [0u8; 512];
    payload[0] = 0xAB;
    payload[511] = 0xCD;
    let crc = crc16(&payload);
    let frame = frame_block(&payload, false);
    assert_eq!(frame.len(), 515);
    assert_eq!(frame[0], START_BLOCK_TOKEN);
    assert_eq!(&frame[1..513], &payload[..]);
    assert_eq!(frame[513], (crc >> 8) as u8);
    assert_eq!(frame[514], crc as u8);

    let multi = frame_block(&payload, true);
    assert_eq!(multi[0], START_MULTI_WRITE_TOKEN);
    assert_eq!(&multi[1..], &frame[1..]);
}
