//! D-CAN addressing and the adapter's wire framing.

use bmw_diag::dcan::{
    decode_can_frame, encode_can_frame, for_ecu, kline_address_for, DCanHandler,
};

#[test]
fn test_handler_defaults() {
    let handler = DCanHandler::new();
    assert_eq!(handler.tx_id, 0x6F1);
    assert_eq!(handler.rx_id, 0x612);
    assert_eq!(handler.block_size, 0);
    assert_eq!(handler.separation_time, 0);
}

#[test]
fn test_handler_for_physical_ecu() {
    let handler = DCanHandler::for_ecu(0x12);
    assert_eq!(handler.tx_id, 0x6F1);
    assert_eq!(handler.rx_id, 0x61A);
}

#[test]
fn test_can_ids_by_name() {
    assert_eq!(for_ecu("DME"), Some((0x612, 0x61A)));
    assert_eq!(for_ecu("dde"), Some((0x612, 0x61A)));
    assert_eq!(for_ecu("EGS"), Some((0x618, 0x620)));
    assert_eq!(for_ecu("DSC"), Some((0x6D8, 0x6E0)));
    assert_eq!(for_ecu("kombi"), Some((0x660, 0x668)));
    assert_eq!(for_ecu("CCC"), Some((0x6F1, 0x63F)));
    assert_eq!(for_ecu("CIC"), Some((0x6F1, 0x63F)));
    assert_eq!(for_ecu("XYZ"), None);
}

#[test]
fn test_kline_addresses_by_name() {
    assert_eq!(kline_address_for("DME"), Some(0x12));
    assert_eq!(kline_address_for("egs"), Some(0x32));
    assert_eq!(kline_address_for("ACSM"), Some(0x6C));
    // The head unit is CAN-only.
    assert_eq!(kline_address_for("CCC"), None);
    assert_eq!(kline_address_for("XYZ"), None);
}

#[test]
fn test_wire_frame_round_trip() {
    let data: [u8; 8] = [0x02, 0x3E, 0x00, 0, 0, 0, 0, 0];
    let wire = encode_can_frame(0x6F1, &data);
    assert_eq!(wire.len(), 11);
    assert_eq!(wire[0], 12);
    assert_eq!(wire[1], 0x06);
    assert_eq!(wire[2], 0xF1);
    let (id, back) = decode_can_frame(&wire).unwrap();
    assert_eq!(id, 0x6F1);
    assert_eq!(back, data);
}

#[test]
fn test_wire_frame_too_short() {
    assert!(decode_can_frame(&[12, 0x06, 0xF1, 1, 2, 3]).is_none());
}
