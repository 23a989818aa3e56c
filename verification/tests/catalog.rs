//! The ECU catalog and parameter name tables.

use bmw_diag::catalog::{
    e60_ecus, get_pid_name, get_transmission_pid_name, Protocol, DID_ASH_LOADING,
    DID_SOOT_LOADING,
};
use bmw_diag::transport::{is_ftdi_vid, ConnectionState, ConnectionStatus, coarse_sleep_portion_us};
use bmw_diag::validators::get_diesel_categories;

#[test]
fn test_e60_catalog_schema() {
    let ecus = e60_ecus();
    assert_eq!(ecus.len(), 11);
    for ecu in &ecus {
        let has_kline = ecu.kline_address.is_some();
        let has_can = ecu.can_tx_id.is_some() && ecu.can_rx_id.is_some();
        match ecu.protocol {
            Protocol::KLine => assert!(has_kline),
            Protocol::DCan => assert!(has_can),
            Protocol::Both => assert!(has_kline && has_can),
        }
        assert!(has_kline || has_can);
    }
    assert_eq!(ecus[0].id, "DME");
    assert_eq!(ecus[0].kline_address, Some(0x12));
    assert_eq!(ecus[7].id, "CAS");
    assert_eq!(ecus[7].kline_address, None);
}

#[test]
fn test_pid_names() {
    assert_eq!(get_pid_name(0x0C), "rpm");
    assert_eq!(get_pid_name(0x05), "coolant_temp");
    assert_eq!(get_pid_name(0xF0), "unknown");
}

#[test]
fn test_transmission_pid_names() {
    assert_eq!(get_transmission_pid_name(0x01), "current_gear");
    assert_eq!(get_transmission_pid_name(0x20), "oil_temp");
    assert_eq!(get_transmission_pid_name(0xF0), "unknown");
}

#[test]
fn test_dpf_dids() {
    assert_eq!(DID_SOOT_LOADING, 0xAB10);
    assert_eq!(DID_ASH_LOADING, 0xAB11);
}

#[test]
fn test_diesel_categories_list() {
    let cats = get_diesel_categories();
    assert_eq!(cats.len(), 8);
    assert_eq!(cats[0], "fuel_system");
    assert_eq!(cats[7], "electrical");
}

#[test]
fn test_connection_status_rendering() {
    let status = ConnectionStatus::from_state(&ConnectionState::Connected);
    assert_eq!(status.state, "connected");
    assert!(status.error.is_none());
    let error = ConnectionStatus::from_state(&ConnectionState::Error("gone".to_string()));
    assert_eq!(error.state, "error");
    assert_eq!(error.error.as_deref(), Some("gone"));
}

#[test]
fn test_ftdi_vid() {
    assert!(is_ftdi_vid(0x0403));
    assert!(!is_ftdi_vid(0x1A86));
}

#[test]
fn test_coarse_sleep_portion() {
    // Above the threshold the clock sleeps all but the margin, below it the
    // caller spins the whole delay.
    assert_eq!(coarse_sleep_portion_us(10_000, 2000, 1000), 9000);
    assert_eq!(coarse_sleep_portion_us(1500, 2000, 1000), 0);
    assert_eq!(coarse_sleep_portion_us(2000, 2000, 1000), 0);
    assert_eq!(coarse_sleep_portion_us(500, 100, 1000), 0);
}
