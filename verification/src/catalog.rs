//! The ECU and parameter catalog.
//!
//! Catalog entries are data the core consumes; the library imposes their
//! schema: every ECU descriptor names at least one transport and carries
//! the addressing that transport needs.

use vstd::prelude::*;

verus! {

/// Which transport reaches an ECU.
#[derive(Debug, Clone, Copy, PartialEq, Eq, Structural)]
pub enum Protocol {
    KLine,
    DCan,
    Both,
}

/// One ECU of the vehicle: identity, addressing, supported transport.
#[derive(Debug, Clone)]
pub struct EcuInfo {
    pub id: String,
    pub name: String,
    pub description: String,
    pub kline_address: Option<u8>,
    pub can_tx_id: Option<u32>,
    pub can_rx_id: Option<u32>,
    pub protocol: Protocol,
}

impl EcuInfo {
    /// The catalog schema: the addressing of every supported transport is
    /// populated.
    pub open spec fn wf(self) -> bool {
        match self.protocol {
            Protocol::KLine => self.kline_address is Some,
            Protocol::DCan => self.can_tx_id is Some && self.can_rx_id is Some,
            Protocol::Both => self.kline_address is Some && self.can_tx_id is Some
                && self.can_rx_id is Some,
        }
    }
}

/// The categories the diesel parameters fall into.
#[derive(Debug, Clone, Copy, PartialEq, Eq, Structural)]
pub enum DieselPidCategory {
    FuelSystem,
    Turbo,
    Egr,
    Temperatures,
    Dpf,
    GlowPlugs,
    Engine,
    Electrical,
}

// Data identifiers of the diesel particulate filter readings.
/// Soot loading, percent.
pub const DID_SOOT_LOADING: u16 = 0xAB10;

/// Ash loading, grams.
pub const DID_ASH_LOADING: u16 = 0xAB11;

/// Differential pressure across the filter, millibar.
pub const DID_DIFFERENTIAL_PRESSURE: u16 = 0xAB12;

/// Exhaust temperature before the filter, degrees Celsius.
pub const DID_TEMP_BEFORE_DPF: u16 = 0xAB13;

/// Exhaust temperature after the filter, degrees Celsius.
pub const DID_TEMP_AFTER_DPF: u16 = 0xAB14;

/// Distance since the last regeneration, kilometres.
pub const DID_DISTANCE_SINCE_REGEN: u16 = 0xAB15;

/// Total regeneration count.
pub const DID_REGEN_COUNT: u16 = 0xAB16;

/// Regeneration status: zero when inactive.
pub const DID_REGEN_STATUS: u16 = 0xAB17;

fn ecu(
    id: &str,
    name: &str,
    description: &str,
    kline_address: Option<u8>,
    can_tx_id: Option<u32>,
    can_rx_id: Option<u32>,
    protocol: Protocol,
) -> (r: EcuInfo)
    requires
        (match protocol {
            Protocol::KLine => kline_address is Some,
            Protocol::DCan => can_tx_id is Some && can_rx_id is Some,
            Protocol::Both => kline_address is Some && can_tx_id is Some && can_rx_id is Some,
        }),
    ensures
        r.id@ == id@,
        r.name@ == name@,
        r.description@ == description@,
        r.kline_address == kline_address,
        r.can_tx_id == can_tx_id,
        r.can_rx_id == can_rx_id,
        r.protocol == protocol,
        r.wf(),
{
    EcuInfo {
        id: id.to_owned(),
        name: name.to_owned(),
        description: description.to_owned(),
        kline_address,
        can_tx_id,
        can_rx_id,
        protocol,
    }
}

/// The E60 ECU catalog.  Every entry satisfies the schema; the first is
/// the petrol engine controller at K-Line address 0x12.
pub fn e60_ecus() -> (r: Vec<EcuInfo>)
    ensures
        r@.len() == 11,
        forall|i: int| 0 <= i < r@.len() ==> (#[trigger] r@[i]).wf(),
        r@[0].id@ == "DME"@ && r@[0].kline_address == Some(0x12u8),
        r@[1].id@ == "DDE"@,
        r@[2].id@ == "EGS"@,
        r@[3].id@ == "DSC"@,
        r@[4].id@ == "ACSM"@,
        r@[5].id@ == "IHKA"@,
        r@[6].id@ == "KOMBI"@,
        r@[7].id@ == "CAS"@,
        r@[8].id@ == "FRM"@,
        r@[9].id@ == "CCC"@,
        r@[10].id@ == "PDC"@,
{
    let mut v: Vec<EcuInfo> = Vec::new();
    v.push(
        ecu(
            "DME",
            "Digital Motor Electronics",
            "Engine control unit (petrol)",
            Some(0x12),
            Some(0x612),
            Some(0x612),
            Protocol::Both,
        ),
    );
    v.push(
        ecu(
            "DDE",
            "Digital Diesel Electronics",
            "Engine control unit (diesel) - DPF control",
            Some(0x12),
            Some(0x612),
            Some(0x612),
            Protocol::Both,
        ),
    );
    v.push(
        ecu(
            "EGS",
            "Electronic Transmission Control",
            "Automatic transmission",
            Some(0x32),
            Some(0x618),
            Some(0x618),
            Protocol::Both,
        ),
    );
    v.push(
        ecu(
            "DSC",
            "Dynamic Stability Control",
            "ABS/Traction control",
            Some(0x44),
            Some(0x6D8),
            Some(0x6D8),
            Protocol::Both,
        ),
    );
    v.push(
        ecu(
            "ACSM",
            "Airbag Control Module",
            "Crash safety module",
            Some(0x4A),
            Some(0x6B8),
            Some(0x6B8),
            Protocol::Both,
        ),
    );
    v.push(
        ecu(
            "IHKA",
            "Integrated Heating/Climate Control",
            "Climate control",
            Some(0x5B),
            None,
            None,
            Protocol::KLine,
        ),
    );
    v.push(
        ecu(
            "KOMBI",
            "Instrument Cluster",
            "Dashboard/gauges",
            Some(0x60),
            Some(0x6F1),
            Some(0x660),
            Protocol::Both,
        ),
    );
    v.push(
        ecu(
            "CAS",
            "Car Access System",
            "Immobilizer/key",
            None,
            Some(0x6F1),
            Some(0x640),
            Protocol::DCan,
        ),
    );
    v.push(
        ecu(
            "FRM",
            "Footwell Module",
            "Lights/switches",
            Some(0x68),
            Some(0x6F1),
            Some(0x668),
            Protocol::Both,
        ),
    );
    v.push(
        ecu(
            "CCC",
            "Car Communication Computer",
            "iDrive/navigation",
            None,
            Some(0x6F1),
            Some(0x663),
            Protocol::DCan,
        ),
    );
    v.push(
        ecu(
            "PDC",
            "Park Distance Control",
            "Parking sensors",
            None,
            Some(0x6F1),
            Some(0x672),
            Protocol::DCan,
        ),
    );
    v
}

/// The short name of an OBD-II mode 01 parameter.
pub open spec fn pid_name_view(pid: u8) -> Seq<char> {
    if pid == 0x04 {
        "engine_load"@
    } else if pid == 0x05 {
        "coolant_temp"@
    } else if pid == 0x06 {
        "short_fuel_trim_b1"@
    } else if pid == 0x07 {
        "long_fuel_trim_b1"@
    } else if pid == 0x08 {
        "short_fuel_trim_b2"@
    } else if pid == 0x09 {
        "long_fuel_trim_b2"@
    } else if pid == 0x0B {
        "intake_manifold_pressure"@
    } else if pid == 0x0C {
        "rpm"@
    } else if pid == 0x0D {
        "speed"@
    } else if pid == 0x0E {
        "timing_advance"@
    } else if pid == 0x0F {
        "intake_air_temp"@
    } else if pid == 0x10 {
        "maf_rate"@
    } else if pid == 0x11 {
        "throttle_position"@
    } else if pid == 0x42 {
        "control_module_voltage"@
    } else if pid == 0x5C {
        "oil_temp"@
    } else {
        "unknown"@
    }
}

/// The short name of an OBD-II mode 01 parameter.
pub fn get_pid_name(pid: u8) -> (r: &'static str)
    ensures
        r@ == pid_name_view(pid),
{
    if pid == 0x04 {
        "engine_load"
    } else if pid == 0x05 {
        "coolant_temp"
    } else if pid == 0x06 {
        "short_fuel_trim_b1"
    } else if pid == 0x07 {
        "long_fuel_trim_b1"
    } else if pid == 0x08 {
        "short_fuel_trim_b2"
    } else if pid == 0x09 {
        "long_fuel_trim_b2"
    } else if pid == 0x0B {
        "intake_manifold_pressure"
    } else if pid == 0x0C {
        "rpm"
    } else if pid == 0x0D {
        "speed"
    } else if pid == 0x0E {
        "timing_advance"
    } else if pid == 0x0F {
        "intake_air_temp"
    } else if pid == 0x10 {
        "maf_rate"
    } else if pid == 0x11 {
        "throttle_position"
    } else if pid == 0x42 {
        "control_module_voltage"
    } else if pid == 0x5C {
        "oil_temp"
    } else {
        "unknown"
    }
}

/// The short name of a transmission parameter read by local identifier.
pub open spec fn transmission_pid_name_view(pid: u8) -> Seq<char> {
    if pid == 0x01 {
        "current_gear"@
    } else if pid == 0x02 {
        "target_gear"@
    } else if pid == 0x03 {
        "selector_position"@
    } else if pid == 0x10 {
        "input_shaft_rpm"@
    } else if pid == 0x11 {
        "output_shaft_rpm"@
    } else if pid == 0x12 {
        "turbine_rpm"@
    } else if pid == 0x13 {
        "converter_slip"@
    } else if pid == 0x20 {
        "oil_temp"@
    } else if pid == 0x21 {
        "converter_temp"@
    } else if pid == 0x30 {
        "main_pressure"@
    } else if pid == 0x31 {
        "converter_pressure"@
    } else if pid == 0x32 {
        "shift_pressure"@
    } else if pid == 0x40 {
        "engine_torque"@
    } else if pid == 0x41 {
        "output_torque"@
    } else if pid == 0x50 {
        "lockup_status"@
    } else if pid == 0x70 {
        "driving_program"@
    } else {
        "unknown"@
    }
}

/// The short name of a transmission parameter read by local identifier.
pub fn get_transmission_pid_name(pid: u8) -> (r: &'static str)
    ensures
        r@ == transmission_pid_name_view(pid),
{
    if pid == 0x01 {
        "current_gear"
    } else if pid == 0x02 {
        "target_gear"
    } else if pid == 0x03 {
        "selector_position"
    } else if pid == 0x10 {
        "input_shaft_rpm"
    } else if pid == 0x11 {
        "output_shaft_rpm"
    } else if pid == 0x12 {
        "turbine_rpm"
    } else if pid == 0x13 {
        "converter_slip"
    } else if pid == 0x20 {
        "oil_temp"
    } else if pid == 0x21 {
        "converter_temp"
    } else if pid == 0x30 {
        "main_pressure"
    } else if pid == 0x31 {
        "converter_pressure"
    } else if pid == 0x32 {
        "shift_pressure"
    } else if pid == 0x40 {
        "engine_torque"
    } else if pid == 0x41 {
        "output_torque"
    } else if pid == 0x50 {
        "lockup_status"
    } else if pid == 0x70 {
        "driving_program"
    } else {
        "unknown"
    }
}

} // verus!
