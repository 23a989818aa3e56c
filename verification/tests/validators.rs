//! Client-input validation.

use bmw_diag::validators::{
    validate_baud_rate, validate_baud_rate_or_default, validate_device_index,
    validate_diesel_category, validate_dids, validate_ecu_address, validate_ecu_address_or_default,
    validate_hex_string, validate_pid, validate_pids, validate_routine_data, validate_routine_id,
    validate_security_level, validate_session_type, validate_sub_function,
};

#[test]
fn test_validate_ecu_address_valid() {
    assert!(validate_ecu_address(0x12).is_ok());
    assert!(validate_ecu_address(0x32).is_ok());
}

#[test]
fn test_validate_ecu_address_invalid() {
    assert!(validate_ecu_address(0x99).is_err());
    assert!(validate_ecu_address(0x00).is_err());
}

#[test]
fn test_validate_ecu_address_default() {
    assert_eq!(validate_ecu_address_or_default(None).unwrap(), 0x12);
    assert_eq!(validate_ecu_address_or_default(Some(0x44)).unwrap(), 0x44);
    assert!(validate_ecu_address_or_default(Some(0x99)).is_err());
}

#[test]
fn test_validate_baud_rate_valid() {
    assert!(validate_baud_rate(10400).is_ok());
    assert!(validate_baud_rate(500000).is_ok());
}

#[test]
fn test_validate_baud_rate_invalid() {
    assert!(validate_baud_rate(0).is_err());
    assert!(validate_baud_rate(10_000_000).is_err());
}

#[test]
fn test_validate_baud_rate_default() {
    assert_eq!(validate_baud_rate_or_default(None).unwrap(), 10_400);
}

#[test]
fn test_validate_pid_valid() {
    assert!(validate_pid(0x0C).is_ok());
    assert!(validate_pid(0x05).is_ok());
}

#[test]
fn test_validate_pid_restricted() {
    assert!(validate_pid(0x0000).is_err());
    assert!(validate_pid(0xFFFF).is_err());
}

#[test]
fn test_validate_pid_gap_between_ranges() {
    assert!(validate_pid(0x0200).is_err());
    assert!(validate_pid(0x0FFF).is_err());
    assert!(validate_pid(0x1000).is_ok());
}

#[test]
fn test_validate_pids_empty() {
    assert!(validate_pids(&[]).is_err());
}

#[test]
fn test_validate_pids_duplicates() {
    assert!(validate_pids(&[0x0C, 0x0D, 0x0C]).is_err());
}

#[test]
fn test_validate_pids_too_many() {
    let pids: Vec<u16> = (0..20).collect();
    assert!(validate_pids(&pids).is_err());
}

#[test]
fn test_validate_dids_ok() {
    assert!(validate_dids(&[0xAB10, 0xAB11]).is_ok());
    assert!(validate_dids(&[]).is_err());
}

#[test]
fn test_validate_diesel_category_valid() {
    assert!(validate_diesel_category("fuel_system").is_ok());
    assert!(validate_diesel_category("  TURBO  ").is_ok());
}

#[test]
fn test_validate_diesel_category_invalid() {
    assert!(validate_diesel_category("invalid_category").is_err());
}

#[test]
fn test_validate_diesel_category_canonical_name() {
    assert_eq!(validate_diesel_category("  TURBO  ").unwrap(), "turbo");
    assert_eq!(validate_diesel_category("Glow_Plugs").unwrap(), "glow_plugs");
}

#[test]
fn test_validate_hex_string_valid() {
    let result = validate_hex_string("0102030405");
    assert!(result.is_ok());
    assert_eq!(result.unwrap(), vec![0x01, 0x02, 0x03, 0x04, 0x05]);
}

#[test]
fn test_validate_hex_string_with_spaces() {
    let result = validate_hex_string("01 02 03");
    assert!(result.is_ok());
    assert_eq!(result.unwrap(), vec![0x01, 0x02, 0x03]);
}

#[test]
fn test_validate_hex_string_empty() {
    assert!(validate_hex_string("").is_err());
}

#[test]
fn test_validate_hex_string_odd_digits() {
    assert!(validate_hex_string("ABC").is_err());
}

#[test]
fn test_validate_hex_string_mixed_case() {
    assert_eq!(validate_hex_string("aAbB").unwrap(), vec![0xAA, 0xBB]);
}

#[test]
fn test_validate_device_index_valid() {
    assert!(validate_device_index(0, 3).is_ok());
    assert!(validate_device_index(2, 3).is_ok());
}

#[test]
fn test_validate_device_index_invalid() {
    assert!(validate_device_index(-1, 3).is_err());
    assert!(validate_device_index(5, 3).is_err());
}

#[test]
fn test_validate_routine_id_list() {
    assert!(validate_routine_id(0xA091).is_ok());
    assert!(validate_routine_id(0x0061).is_ok());
    assert!(validate_routine_id(0x1234).is_err());
}

#[test]
fn test_validate_sub_function_values() {
    assert!(validate_sub_function(0x01).is_ok());
    assert!(validate_sub_function(0x02).is_ok());
    assert!(validate_sub_function(0x03).is_ok());
    assert!(validate_sub_function(0x04).is_err());
}

#[test]
fn test_validate_routine_data_rejects_negative_marker() {
    assert!(validate_routine_data(&[0x01, 0x02]).is_ok());
    assert!(validate_routine_data(&[0x01, 0x7F]).is_err());
    let big = vec![0u8; 257];
    assert!(validate_routine_data(&big).is_err());
}

#[test]
fn test_validate_session_type_values() {
    assert!(validate_session_type(0x01).is_ok());
    assert!(validate_session_type(0x02).is_ok());
    assert!(validate_session_type(0x03).is_ok());
    assert!(validate_session_type(0x86).is_err());
}

#[test]
fn test_validate_security_level_bounds() {
    assert!(validate_security_level(0x01).is_ok());
    assert!(validate_security_level(0x42).is_ok());
    assert!(validate_security_level(0x00).is_err());
    assert!(validate_security_level(0x43).is_err());
}
