//! Service builders, response parsers, the NRC taxonomy, security access.

use bmw_diag::kwp::KwpResponse;
use bmw_diag::services::{
    build_clear_dtc_request, build_kwp_read_dtc_request, build_read_did_request,
    build_read_dtc_request, build_read_pid_request, build_routine_request,
    build_security_seed_request, build_session_request, build_tester_present_request,
    calculate_key_simple, classify_nrc, classify_response, description, parse_clear_response,
    parse_kwp_dtc_response, parse_read_did_response, parse_routine_response,
    parse_session_response, parse_tester_present_response, parse_uds_dtc_response, security_step,
    Disposition, LampStatus, NrcCategory, SecurityStep, ServiceError,
};

#[test]
fn test_nrc_taxonomy() {
    assert_eq!(classify_nrc(0x10), NrcCategory::Fatal);
    assert_eq!(classify_nrc(0x11), NrcCategory::Fatal);
    assert_eq!(classify_nrc(0x12), NrcCategory::Fatal);
    assert_eq!(classify_nrc(0x13), NrcCategory::Fatal);
    assert_eq!(classify_nrc(0x21), NrcCategory::RetryNow);
    assert_eq!(classify_nrc(0x22), NrcCategory::FatalSemantic);
    assert_eq!(classify_nrc(0x24), NrcCategory::ResetSession);
    assert_eq!(classify_nrc(0x31), NrcCategory::FatalSemantic);
    assert_eq!(classify_nrc(0x33), NrcCategory::NeedsUnlock);
    assert_eq!(classify_nrc(0x35), NrcCategory::NeedsUnlock);
    assert_eq!(classify_nrc(0x36), NrcCategory::LockedOut);
    assert_eq!(classify_nrc(0x37), NrcCategory::Backoff);
    assert_eq!(classify_nrc(0x78), NrcCategory::ContinueWaiting);
    assert_eq!(classify_nrc(0x7F), NrcCategory::WrongSession);
    assert_eq!(classify_nrc(0x55), NrcCategory::FatalUnknown);
}

#[test]
fn test_nrc_descriptions() {
    assert_eq!(description(0x10), "General reject");
    assert_eq!(description(0x33), "Security access denied");
    assert_eq!(description(0x78), "Request correctly received, response pending");
    assert_eq!(description(0x99), "Unknown error");
}

#[test]
fn test_request_builders() {
    assert_eq!(build_read_dtc_request(0xFF), vec![0x19, 0x02, 0xFF]);
    assert_eq!(build_kwp_read_dtc_request(0xFF), vec![0x18, 0x00, 0xFF, 0x00]);
    assert_eq!(build_clear_dtc_request(), vec![0x14, 0xFF, 0xFF, 0xFF]);
    assert_eq!(build_read_did_request(0xAB10), vec![0x22, 0xAB, 0x10]);
    assert_eq!(build_read_pid_request(0x0C), vec![0x01, 0x0C]);
    assert_eq!(build_session_request(0x03), vec![0x10, 0x03]);
    assert_eq!(build_tester_present_request(), vec![0x3E, 0x00]);
    assert_eq!(build_security_seed_request(0x01), vec![0x27, 0x01]);
    assert_eq!(
        build_routine_request(0xA094, 0x01, &[0xAA]),
        vec![0x31, 0x01, 0xA0, 0x94, 0xAA]
    );
}

fn resp(service: u8, data: Vec<u8>) -> KwpResponse {
    KwpResponse { source: 0x12, target: 0xF1, service, data }
}

#[test]
fn test_classify_response_positive() {
    let r = resp(0x62, vec![0xAB, 0x10, 0x45]);
    assert_eq!(classify_response(0x22, &r), Disposition::Positive);
}

#[test]
fn test_classify_response_pending_then_negative() {
    // NRC 0x78 keeps the exchange open; any other code ends it.
    let pending = resp(0x7F, vec![0x22, 0x78]);
    assert_eq!(classify_response(0x22, &pending), Disposition::Pending);
    let rejected = resp(0x7F, vec![0x22, 0x31]);
    assert_eq!(classify_response(0x22, &rejected), Disposition::Negative(0x31));
}

#[test]
fn test_classify_response_mismatch() {
    let odd = resp(0x51, vec![]);
    assert_eq!(classify_response(0x22, &odd), Disposition::Mismatch);
    let short_negative = resp(0x7F, vec![0x22]);
    assert_eq!(classify_response(0x22, &short_negative), Disposition::Mismatch);
}

#[test]
fn test_parse_uds_dtcs() {
    let response = [0x59, 0x02, 0xFF, 0x2A, 0xAF, 0x24, 0x2A, 0xB0, 0x04];
    let dtcs = parse_uds_dtc_response(&response);
    assert_eq!(dtcs.len(), 2);
    assert_eq!(dtcs[0].code, "P2AAF");
    assert_eq!(dtcs[0].status.raw, 0x24);
    assert_eq!(dtcs[1].code, "P2AB0");
    assert_eq!(dtcs[1].status.raw, 0x04);
}

#[test]
fn test_parse_uds_dtcs_partial_triple_dropped() {
    let response = [0x59, 0x02, 0xFF, 0x2A, 0xAF, 0x24, 0x2A];
    let dtcs = parse_uds_dtc_response(&response);
    assert_eq!(dtcs.len(), 1);
    assert!(parse_uds_dtc_response(&[0x59]).is_empty());
}

#[test]
fn test_parse_kwp_dtcs_ignores_count_byte() {
    // The byte after 0x58 is not trusted; the triples alone count.
    let response = [0x58, 0x63, 0x2A, 0xAF, 0x24];
    let dtcs = parse_kwp_dtc_response(&response);
    assert_eq!(dtcs.len(), 1);
    assert_eq!(dtcs[0].code, "P2AAF");
}

#[test]
fn test_read_did_response() {
    // Positive response echoing the identifier; the payload follows.
    let ok = parse_read_did_response(0xAB10, &[0x62, 0xAB, 0x10, 0x45]);
    assert_eq!(ok.unwrap(), vec![0x45]);

    let wrong_echo = parse_read_did_response(0xAB10, &[0x62, 0xAB, 0x11, 0x45]);
    assert_eq!(wrong_echo.unwrap_err(), ServiceError::IdentifierMismatch);

    let negative = parse_read_did_response(0xAB10, &[0x7F, 0x22, 0x31]);
    assert_eq!(negative.unwrap_err(), ServiceError::Negative(0x31));

    let noise = parse_read_did_response(0xAB10, &[0x51]);
    assert_eq!(noise.unwrap_err(), ServiceError::UnexpectedResponse);
}

#[test]
fn test_routine_response() {
    let ok = parse_routine_response(&[0x71, 0x01, 0xA0, 0x94, 0x01, 0x02]);
    assert_eq!(ok.unwrap(), vec![0x01, 0x02]);
    let bare = parse_routine_response(&[0x71, 0x01, 0xA0]);
    assert_eq!(bare.unwrap(), Vec::<u8>::new());
    let negative = parse_routine_response(&[0x7F, 0x31, 0x22]);
    assert_eq!(negative.unwrap_err(), ServiceError::Negative(0x22));
}

#[test]
fn test_session_and_clear_responses() {
    assert!(parse_session_response(&[0x50, 0x03]).is_ok());
    assert_eq!(
        parse_session_response(&[0x7F, 0x10, 0x24]).unwrap_err(),
        ServiceError::Negative(0x24)
    );
    assert!(parse_clear_response(&[0x54]).is_ok());
    assert_eq!(
        parse_clear_response(&[0x7F, 0x14, 0x22]).unwrap_err(),
        ServiceError::Negative(0x22)
    );
}

#[test]
fn test_tester_present_response() {
    assert!(parse_tester_present_response(&[0x7E]).is_ok());
    // A suppressed response counts as success.
    assert!(parse_tester_present_response(&[]).is_ok());
    assert_eq!(
        parse_tester_present_response(&[0x7F, 0x3E, 0x11]).unwrap_err(),
        ServiceError::Negative(0x11)
    );
}

#[test]
fn test_key_derivation() {
    assert_eq!(calculate_key_simple(&[0x00, 0xFF, 0xCA]), vec![0xCA, 0x35, 0x00]);
}

#[test]
fn test_security_step_zero_seed_short_circuits() {
    // An all-zero seed means the ECU is already unlocked: no key goes out.
    let step = security_step(0x01, &[0x00, 0x00, 0x00, 0x00]);
    assert_eq!(step, SecurityStep::AlreadyUnlocked);
}

#[test]
fn test_security_step_sends_key_at_next_level() {
    let step = security_step(0x01, &[0x11, 0x22]);
    match step {
        SecurityStep::SendKey(req) => {
            assert_eq!(req, vec![0x27, 0x02, 0x11 ^ 0xCA, 0x22 ^ 0xCA]);
        }
        SecurityStep::AlreadyUnlocked => panic!("expected a key"),
    }
}

#[test]
fn test_lamp_status_bits() {
    let lamps = LampStatus::from_bytes(0x05, 0x12, 0x0A, 0x03);
    assert!(lamps.front_left_low);
    assert!(!lamps.front_right_low);
    assert!(lamps.front_left_high);
    assert!(lamps.rear_right);
    assert!(lamps.brake_center);
    assert!(lamps.turn_front_right);
    assert!(lamps.turn_rear_right);
    assert!(lamps.reverse_left);
    assert!(lamps.reverse_right);
}
