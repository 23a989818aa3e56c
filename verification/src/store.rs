//! The data model of the persistent store.
//!
//! The store keeps vehicles (unique VIN), diagnostic sessions per ECU,
//! DTC snapshots per session, and key/value settings; the records below are
//! what crosses that boundary.  The store itself lives outside the library.

use vstd::prelude::*;

verus! {

/// A vehicle to be created, without its identifier and timestamps.
#[derive(Debug, Clone)]
pub struct NewVehicle {
    pub vin: Option<String>,
    pub make: String,
    pub model: String,
    pub year: i32,
    pub engine_code: Option<String>,
    pub mileage_km: Option<i32>,
    pub notes: Option<String>,
}

/// A diagnostic session to be recorded for a vehicle.
#[derive(Debug, Clone)]
pub struct NewSession {
    pub vehicle_id: i64,
    pub ecu_id: String,
    pub ecu_name: String,
    pub protocol: String,
    pub mileage_km: Option<i32>,
    pub notes: Option<String>,
}

/// A DTC snapshot to be recorded for a session.
#[derive(Debug, Clone)]
pub struct NewDtc {
    pub session_id: i64,
    pub code: String,
    pub status: String,
    pub description: Option<String>,
    pub is_pending: bool,
    pub is_confirmed: bool,
}

/// One key/value setting.
#[derive(Debug, Clone)]
pub struct Setting {
    pub key: String,
    pub value: String,
}

/// Row counts of the store.
#[derive(Debug, Clone, Copy)]
pub struct DatabaseStats {
    pub vehicle_count: i64,
    pub session_count: i64,
    pub dtc_count: i64,
}

} // verus!
