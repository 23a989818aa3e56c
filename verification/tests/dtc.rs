//! DTC decoding: code text and status flags.

use bmw_diag::dtc::{decode_dtc, Dtc, DtcStatus};

#[test]
fn test_code_categories() {
    // The top two bits of the high byte pick the letter.
    assert_eq!(Dtc::bytes_to_code(0x2A, 0xAF), "P2AAF");
    assert_eq!(Dtc::bytes_to_code(0x6A, 0xAF), "C2AAF");
    assert_eq!(Dtc::bytes_to_code(0xAA, 0xAF), "B2AAF");
    assert_eq!(Dtc::bytes_to_code(0xEA, 0xAF), "U2AAF");
}

#[test]
fn test_code_digits_are_uppercase_hex() {
    let code = Dtc::bytes_to_code(0x3F, 0xFE);
    assert_eq!(code, "P3FFE");
    for (i, c) in code.chars().enumerate() {
        if i == 0 {
            assert!("PCBU".contains(c));
        } else {
            assert!(c.is_ascii_hexdigit());
            assert!(!c.is_ascii_lowercase());
        }
    }
}

#[test]
fn test_decode_dtc_from_word() {
    assert_eq!(decode_dtc(0x2AAF), "P2AAF");
    assert_eq!(decode_dtc(0x2AB0), "P2AB0");
    assert_eq!(decode_dtc(0x0000), "P0000");
    assert_eq!(decode_dtc(0xFFFF), "U3FFF");
}

#[test]
fn test_from_bytes_scenario() {
    // The two triples of a ReadDTCInformation response.
    let first = Dtc::from_bytes(&[0x2A, 0xAF, 0x24]).unwrap();
    assert_eq!(first.code, "P2AAF");
    assert_eq!(first.status.raw, 0x24);
    let second = Dtc::from_bytes(&[0x2A, 0xB0, 0x04]).unwrap();
    assert_eq!(second.code, "P2AB0");
    assert_eq!(second.status.raw, 0x04);
    assert!(second.status.pending);
    assert!(Dtc::from_bytes(&[0x2A, 0xAF]).is_none());
}

#[test]
fn test_status_flags_match_bits() {
    let status = DtcStatus::from_byte(0xA5);
    // 0xA5 = 1010_0101.
    assert!(status.test_failed);
    assert!(!status.test_failed_this_cycle);
    assert!(status.pending);
    assert!(!status.confirmed);
    assert!(!status.test_not_completed_since_clear);
    assert!(status.test_failed_since_clear);
    assert!(!status.test_not_completed_this_cycle);
    assert!(status.warning_indicator_requested);
    assert_eq!(status.raw, 0xA5);
}

#[test]
fn test_status_preserves_raw_for_all_bytes() {
    for b in 0..=255u8 {
        let status = DtcStatus::from_byte(b);
        assert_eq!(status.raw, b);
        let recomputed = (status.test_failed as u8)
            | ((status.test_failed_this_cycle as u8) << 1)
            | ((status.pending as u8) << 2)
            | ((status.confirmed as u8) << 3)
            | ((status.test_not_completed_since_clear as u8) << 4)
            | ((status.test_failed_since_clear as u8) << 5)
            | ((status.test_not_completed_this_cycle as u8) << 6)
            | ((status.warning_indicator_requested as u8) << 7);
        assert_eq!(recomputed, b);
    }
}
