//! The constant tables are self-consistent.

use bmw_diag::constants::{addresses, baud, dpf_routines};

#[test]
fn test_valid_ecus_contains_default() {
    assert!(addresses::valid_ecus().contains(&addresses::DEFAULT_ECU));
}

#[test]
fn test_baud_range() {
    assert!(baud::KLINE_DEFAULT >= baud::MIN_BAUD);
    assert!(baud::KLINE_DEFAULT <= baud::MAX_BAUD);
}

#[test]
fn test_dpf_routines_valid() {
    assert!(dpf_routines::valid_routines().contains(&dpf_routines::RESET_ASH_LOADING));
}

#[test]
fn test_valid_routines_cover_alternates() {
    let routines = dpf_routines::valid_routines();
    assert_eq!(routines.len(), 8);
    assert!(routines.contains(&dpf_routines::ALT_RESET_ASH));
    assert!(routines.contains(&dpf_routines::START_REGENERATION));
}
