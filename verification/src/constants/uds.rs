//! UDS (ISO 14229) and KWP2000 (ISO 14230) service identifiers and
//! sub-function values.

use vstd::prelude::*;

verus! {

pub const DIAGNOSTIC_SESSION_CONTROL: u8 = 0x10;

pub const ECU_RESET: u8 = 0x11;

pub const CLEAR_DIAGNOSTIC_INFO: u8 = 0x14;

pub const READ_DTC_BY_STATUS: u8 = 0x18;

pub const READ_DTC_INFO: u8 = 0x19;

pub const READ_DATA_BY_LOCAL_ID: u8 = 0x21;

pub const READ_DATA_BY_ID: u8 = 0x22;

pub const SECURITY_ACCESS: u8 = 0x27;

pub const IO_CONTROL: u8 = 0x2F;

pub const ROUTINE_CONTROL: u8 = 0x31;

pub const TESTER_PRESENT: u8 = 0x3E;

pub const START_COMMUNICATION: u8 = 0x81;

pub const STOP_COMMUNICATION: u8 = 0x82;

/// Positive responses carry the request's service identifier plus this.
pub const POSITIVE_RESPONSE_OFFSET: u8 = 0x40;

pub const NEGATIVE_RESPONSE: u8 = 0x7F;

// Diagnostic session types.
pub const SESSION_DEFAULT: u8 = 0x01;

pub const SESSION_PROGRAMMING: u8 = 0x02;

pub const SESSION_EXTENDED: u8 = 0x03;

/// The manufacturer-specific extended session of these ECUs.
pub const SESSION_BMW_EXTENDED: u8 = 0x86;

// ReadDTCInformation sub-functions.
pub const REPORT_DTC_BY_STATUS_MASK: u8 = 0x02;

pub const DTC_STATUS_MASK_ALL: u8 = 0xFF;

// RoutineControl sub-functions.
pub const ROUTINE_START: u8 = 0x01;

pub const ROUTINE_STOP: u8 = 0x02;

pub const ROUTINE_REQUEST_RESULTS: u8 = 0x03;

} // verus!
