//! K-Line framing, the two initializations, echo suppression.

use bmw_diag::kline::{
    classify_fast_init_response, echo_matches, five_baud_bits, slow_init_step, DtcStatus,
    EcuAddress, FastInitOutcome, InitError, InitResult, KLineMessage, SlowInitAction,
    SlowInitEvent, SlowInitState, SLOW_INIT_ADDRESS,
};
use bmw_diag::kwp::KwpResponse;

#[test]
fn test_kline_message_round_trip() {
    let msg = KLineMessage::new(0x12, 0xF1, vec![0x81]);
    assert_eq!(msg.format, 0x81);
    let bytes = msg.to_bytes();
    assert_eq!(bytes[..4], [0x81, 0x12, 0xF1, 0x81]);
    let parsed = KLineMessage::from_bytes(&bytes).unwrap();
    assert_eq!(parsed.format, 0x81);
    assert_eq!(parsed.target, 0x12);
    assert_eq!(parsed.source, 0xF1);
    assert_eq!(parsed.data, vec![0x81]);
    assert_eq!(parsed.checksum, msg.checksum);
}

#[test]
fn test_kline_long_frame_has_length_byte() {
    let payload = vec![0x55u8; 100];
    let msg = KLineMessage::new(0x12, 0xF1, payload.clone());
    assert_eq!(msg.format, 0xC0);
    let bytes = msg.to_bytes();
    assert_eq!(bytes[0], 0xC0);
    assert_eq!(bytes[3], 100);
    let parsed = KLineMessage::from_bytes(&bytes).unwrap();
    assert_eq!(parsed.data, payload);
}

#[test]
fn test_kline_rejects_bad_checksum() {
    let msg = KLineMessage::new(0x12, 0xF1, vec![0x3E]);
    let mut bytes = msg.to_bytes();
    let last = bytes.len() - 1;
    bytes[last] = bytes[last].wrapping_add(1);
    assert!(KLineMessage::from_bytes(&bytes).is_err());
}

#[test]
fn test_kline_rejects_short_and_headerless() {
    assert!(KLineMessage::from_bytes(&[0x81, 0x12]).is_err());
    assert!(KLineMessage::from_bytes(&[0x03, 0x12, 0xF1, 0x19, 0x1F]).is_err());
}

#[test]
fn test_five_baud_pattern_for_init_address() {
    // Address 0x33, LSB first, odd parity over the seven data bits: the
    // four ones make an even count, so the parity bit is one.
    let bits = five_baud_bits(SLOW_INIT_ADDRESS);
    assert_eq!(bits, vec![0, 1, 1, 0, 0, 1, 1, 0, 1, 1]);
}

#[test]
fn test_five_baud_parity_flips_with_odd_ones() {
    // 0x07 has three ones: the parity bit must be zero.
    let bits = five_baud_bits(0x07);
    assert_eq!(bits, vec![0, 1, 1, 1, 0, 0, 0, 0, 0, 1]);
}

#[test]
fn test_slow_init_happy_path() {
    let s0 = SlowInitState::AwaitSync;
    // Noise before the sync byte is ignored.
    let (s0b, a) = slow_init_step(s0, SlowInitEvent::ByteReceived(0x00));
    assert_eq!(s0b, SlowInitState::AwaitSync);
    assert_eq!(a, SlowInitAction::Quiet);
    let (s1, _) = slow_init_step(s0b, SlowInitEvent::ByteReceived(0x55));
    assert_eq!(s1, SlowInitState::AwaitKb1);
    let (s2, _) = slow_init_step(s1, SlowInitEvent::ByteReceived(0xEA));
    assert_eq!(s2, SlowInitState::AwaitKb2(0xEA));
    let (s3, action) = slow_init_step(s2, SlowInitEvent::ByteReceived(0x8F));
    assert_eq!(s3, SlowInitState::AwaitInvertedAddress(0xEA, 0x8F));
    // The acknowledgment is the inverted second key byte.
    assert_eq!(action, SlowInitAction::SendByte(0x70));
    let (s4, _) = slow_init_step(s3, SlowInitEvent::ByteReceived(0xCC));
    assert_eq!(s4, SlowInitState::Ready(0xEA, 0x8F));
}

#[test]
fn test_slow_init_failures() {
    let (timeout, _) = slow_init_step(SlowInitState::AwaitSync, SlowInitEvent::TimedOut);
    assert_eq!(timeout, SlowInitState::Failed(InitError::InitTimeout));
    let (bad, _) = slow_init_step(
        SlowInitState::AwaitInvertedAddress(0xEA, 0x8F),
        SlowInitEvent::ByteReceived(0x42),
    );
    assert_eq!(bad, SlowInitState::Failed(InitError::InitProtocolError));
}

#[test]
fn test_fast_init_classification() {
    let ready = KwpResponse { source: 0x12, target: 0xF1, service: 0xC1, data: vec![0xEA, 0x8F] };
    assert_eq!(classify_fast_init_response(&ready), FastInitOutcome::Ready(0xEA, 0x8F));

    let bare = KwpResponse { source: 0x12, target: 0xF1, service: 0xC1, data: vec![] };
    assert_eq!(classify_fast_init_response(&bare), FastInitOutcome::Ready(0x8F, 0xEA));

    let negative = KwpResponse { source: 0x12, target: 0xF1, service: 0x7F, data: vec![0x81, 0x21] };
    assert_eq!(classify_fast_init_response(&negative), FastInitOutcome::NegativeResponse(0x21));

    let noise = KwpResponse { source: 0x12, target: 0xF1, service: 0x51, data: vec![] };
    assert_eq!(classify_fast_init_response(&noise), FastInitOutcome::Failed);
}

#[test]
fn test_fast_init_exchange() {
    // The fast-init StartCommunication to the engine controller and the
    // positive response carrying the key bytes.
    let request = KLineMessage::new(0x12, 0xF1, vec![0x81]).to_bytes();
    assert_eq!(request[..4], [0x81, 0x12, 0xF1, 0x81]);
    let sum: u32 = request[..4].iter().map(|&b| b as u32).sum();
    assert_eq!(request[4], (sum & 0xFF) as u8);

    let mut response = vec![0x83, 0xF1, 0x12, 0xC1, 0xEA, 0x8F];
    let ck: u32 = response.iter().map(|&b| b as u32).sum();
    response.push((ck & 0xFF) as u8);
    let resp = KwpResponse::parse(&response).unwrap();
    assert_eq!(resp.service, 0xC1);
    assert_eq!(classify_fast_init_response(&resp), FastInitOutcome::Ready(0xEA, 0x8F));
}

#[test]
fn test_init_result_records_default_timing() {
    let ok = InitResult::from_fast_init(FastInitOutcome::Ready(0xEA, 0x8F));
    assert!(ok.success);
    assert_eq!(ok.key_bytes, Some([0xEA, 0x8F]));
    assert_eq!(ok.timing_p2_max, Some(50));
    assert_eq!(ok.timing_p3_min, Some(55));

    let refused = InitResult::from_fast_init(FastInitOutcome::NegativeResponse(0x21));
    assert!(!refused.success);
    assert_eq!(refused.key_bytes, None);

    let slow = InitResult::from_slow_init(SlowInitState::Ready(0x08, 0x08));
    assert!(slow.success);
    assert_eq!(slow.key_bytes, Some([0x08, 0x08]));
    let broken = InitResult::from_slow_init(SlowInitState::Failed(InitError::InitTimeout));
    assert!(!broken.success);
    assert_eq!(broken.key_bytes, None);
}

#[test]
fn test_echo_comparison() {
    assert!(echo_matches(&[0x81, 0x12], &[0x81, 0x12]));
    assert!(!echo_matches(&[0x81, 0x12], &[0x81, 0x13]));
    assert!(!echo_matches(&[0x81, 0x12], &[0x81]));
}

#[test]
fn test_ecu_addresses() {
    assert_eq!(EcuAddress::DME.address(), 0x12);
    assert_eq!(EcuAddress::EGS.address(), 0x18);
    assert_eq!(EcuAddress::DSC.address(), 0x44);
    assert_eq!(EcuAddress::KOMBI.address(), 0x60);
    assert_eq!(EcuAddress::IHKA.address(), 0x5B);
}

#[test]
fn test_dtc_status_flags() {
    let status = DtcStatus::from(0x24u8);
    assert!(status.pending);
    assert!(status.test_failed_since_clear);
    assert!(!status.test_failed);
    assert!(!status.warning_indicator);
}
