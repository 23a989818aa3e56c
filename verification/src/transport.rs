//! Adapter-facing data types and the precision-clock split.
//!
//! The transport itself — USB-serial or D2XX handles, reads, writes, line
//! control — lives outside the library; these are the plain values the two
//! sides exchange, and the one computation the precision clock needs: how
//! much of a delay to sleep coarsely before spinning for the remainder.

use vstd::prelude::*;

verus! {

/// Where a connection stands.
#[derive(Debug, Clone, PartialEq)]
pub enum ConnectionState {
    Disconnected,
    Connecting,
    Connected,
    Error(String),
}

/// The connection report handed to the client.
#[derive(Debug, Clone)]
pub struct ConnectionStatus {
    pub state: String,
    pub port: Option<String>,
    pub error: Option<String>,
}

impl ConnectionStatus {
    /// Renders a connection state as the client's status record.
    pub fn from_state(state: &ConnectionState) -> (r: Self)
        ensures
            r.port is None,
            match state {
                ConnectionState::Disconnected => r.state@ == "disconnected"@ && r.error is None,
                ConnectionState::Connecting => r.state@ == "connecting"@ && r.error is None,
                ConnectionState::Connected => r.state@ == "connected"@ && r.error is None,
                ConnectionState::Error(e) => r.state@ == "error"@ && (r.error matches Some(m)
                    && m@ == e@),
            },
    {
        match state {
            ConnectionState::Disconnected => Self {
                state: "disconnected".to_owned(),
                port: None,
                error: None,
            },
            ConnectionState::Connecting => Self {
                state: "connecting".to_owned(),
                port: None,
                error: None,
            },
            ConnectionState::Connected => Self {
                state: "connected".to_owned(),
                port: None,
                error: None,
            },
            ConnectionState::Error(e) => Self {
                state: "error".to_owned(),
                port: None,
                error: Some(e.clone()),
            },
        }
    }
}

/// One serial port as enumeration reports it.
#[derive(Debug, Clone)]
pub struct PortInfo {
    pub name: String,
    pub port_type: String,
    pub vid: Option<u16>,
    pub pid: Option<u16>,
    pub manufacturer: Option<String>,
    pub product: Option<String>,
    pub serial_number: Option<String>,
    pub is_ftdi: bool,
}

/// The USB vendor identifier of FTDI adapters.
pub const FTDI_VID: u16 = 0x0403;

/// Whether a USB vendor identifier belongs to an FTDI adapter.
pub fn is_ftdi_vid(vid: u16) -> (r: bool)
    ensures
        r == (vid == FTDI_VID),
{
    vid == FTDI_VID
}

/// One FTDI adapter as enumeration reports it.
#[derive(Debug, Clone)]
pub struct FtdiDevice {
    pub index: usize,
    pub description: String,
    pub serial_number: String,
}

/// How long the host may sleep coarsely on Linux before spinning.
pub const COARSE_THRESHOLD_LINUX_US: u64 = 2000;

/// The margin left for spinning on Linux.
pub const SLEEP_MARGIN_LINUX_US: u64 = 1000;

/// How long the host may sleep coarsely on Windows, whose timer ticks about
/// every 15.6 ms.
pub const COARSE_THRESHOLD_WINDOWS_US: u64 = 20_000;

/// The margin left for spinning on Windows.
pub const SLEEP_MARGIN_WINDOWS_US: u64 = 5000;

/// How much of a delay to spend in a coarse sleep: beyond the host's
/// threshold, everything but the margin; below it, nothing — the caller
/// spins for the whole delay.  The sleep never reaches past the target.
pub fn coarse_sleep_portion_us(duration_us: u64, threshold_us: u64, margin_us: u64) -> (r: u64)
    ensures
        duration_us > threshold_us ==> r == (if margin_us <= duration_us {
            duration_us - margin_us
        } else {
            0int
        }),
        duration_us <= threshold_us ==> r == 0,
        r <= duration_us,
{
    if duration_us > threshold_us {
        if margin_us <= duration_us {
            duration_us - margin_us
        } else {
            0
        }
    } else {
        0
    }
}

} // verus!
