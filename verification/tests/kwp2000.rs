//! KWP2000 message building and response parsing.

use bmw_diag::kwp::{KwpError, KwpMessage, KwpResponse};

#[test]
fn test_message_building() {
    let msg = KwpMessage::new(0xF1, 0x12, vec![0x3E]);
    let bytes = msg.to_bytes().unwrap();

    // Expected: 81 12 F1 3E CS
    assert_eq!(bytes.len(), 5);
    assert_eq!(bytes[0], 0x81); // FMT: 0x80 | 1
    assert_eq!(bytes[1], 0x12); // Target
    assert_eq!(bytes[2], 0xF1); // Source
    assert_eq!(bytes[3], 0x3E); // Service

    // Checksum
    let expected_checksum = (0x81 + 0x12 + 0xF1 + 0x3E) & 0xFF;
    assert_eq!(bytes[4], expected_checksum as u8);
}

#[test]
fn test_response_parsing() {
    // A positive response to TesterPresent; the trailing byte is the
    // modulo-256 sum of the others.
    let data = vec![0x81, 0xF1, 0x12, 0x7E, 0x02]; // FMT TGT SRC SVC CHK

    let response = KwpResponse::parse(&data).unwrap();

    assert_eq!(response.source, 0x12);
    assert_eq!(response.target, 0xF1);
    assert_eq!(response.service, 0x7E);
    assert!(response.is_positive());
}

#[test]
fn test_parse_rejects_bad_checksum() {
    let data = vec![0x81, 0xF1, 0x12, 0x7E, 0x22];
    assert!(KwpResponse::parse(&data).is_none());
}

#[test]
fn test_parse_rejects_headerless() {
    let data = vec![0x03, 0x12, 0xF1, 0x19, 0x1F];
    assert!(KwpResponse::parse(&data).is_none());
}

#[test]
fn test_round_trip_short_frame() {
    let msg = KwpMessage::new(0xF1, 0x12, vec![0x19, 0x02, 0xFF]);
    let bytes = msg.to_bytes().unwrap();
    let resp = KwpResponse::parse(&bytes).unwrap();
    assert_eq!(resp.source, 0xF1);
    assert_eq!(resp.target, 0x12);
    assert_eq!(resp.service, 0x19);
    assert_eq!(resp.data, vec![0x02, 0xFF]);
}

#[test]
fn test_round_trip_long_frame() {
    // A 100-byte payload takes the separate length byte.
    let mut payload = vec![0x36u8];
    payload.extend(std::iter::repeat(0xA5).take(99));
    let msg = KwpMessage::new(0xF1, 0x12, payload.clone());
    let bytes = msg.to_bytes().unwrap();
    assert_eq!(bytes[0], 0xC0);
    assert_eq!(bytes[3], 100);
    let resp = KwpResponse::parse(&bytes).unwrap();
    assert_eq!(resp.service, 0x36);
    assert_eq!(resp.data, payload[1..].to_vec());
}

#[test]
fn test_message_too_long_is_rejected() {
    let msg = KwpMessage::new(0xF1, 0x12, vec![0u8; 256]);
    assert_eq!(msg.to_bytes(), Err(KwpError::MessageTooLong));
}

#[test]
fn test_payload_of_255_is_accepted() {
    let msg = KwpMessage::new(0xF1, 0x12, vec![0x11u8; 255]);
    let bytes = msg.to_bytes().unwrap();
    assert_eq!(bytes.len(), 4 + 255 + 1);
    assert_eq!(bytes[3], 255);
}

#[test]
fn test_fast_init_request_bytes() {
    // StartCommunication to the engine controller: 81 12 F1 81 and the
    // modulo-256 checksum of those four bytes.
    let msg = KwpMessage::start_communication(0xF1, 0x12);
    let bytes = msg.to_bytes().unwrap();
    assert_eq!(bytes[..4], [0x81, 0x12, 0xF1, 0x81]);
    let expected = ((0x81u32 + 0x12 + 0xF1 + 0x81) & 0xFF) as u8;
    assert_eq!(bytes[4], expected);
}

#[test]
fn test_negative_response_error_code() {
    let resp = KwpResponse { source: 0x12, target: 0xF1, service: 0x7F, data: vec![0x22, 0x31] };
    assert!(resp.is_negative());
    assert!(!resp.is_positive());
    assert_eq!(resp.error_code(), Some(0x31));
    assert_eq!(resp.error_description(), Some("Request out of range"));
}

#[test]
fn test_error_code_absent_on_short_negative() {
    let resp = KwpResponse { source: 0x12, target: 0xF1, service: 0x7F, data: vec![0x22] };
    assert_eq!(resp.error_code(), None);
    assert_eq!(resp.error_description(), None);
}

#[test]
fn test_kwp_request_constructors() {
    assert_eq!(KwpMessage::stop_communication(0xF1, 0x12).data, vec![0x82]);
    assert_eq!(KwpMessage::tester_present(0xF1, 0x12).data, vec![0x3E]);
    assert_eq!(KwpMessage::read_dtc(0xF1, 0x12, 0xFF).data, vec![0x18, 0x00, 0xFF]);
    assert_eq!(KwpMessage::clear_dtc(0xF1, 0x12).data, vec![0x14, 0xFF, 0x00]);
    assert_eq!(KwpMessage::read_data_local(0xF1, 0x12, 0x10).data, vec![0x21, 0x10]);
}
