//! Baud rates of the two transports.

use vstd::prelude::*;

verus! {

/// K-Line standard baud rate (ISO 14230).
pub const KLINE_DEFAULT: u32 = 10_400;

/// K-Line fast-init baud rate.
pub const KLINE_FAST: u32 = 10_400;

/// D-CAN baud rate.
pub const DCAN_DEFAULT: u32 = 500_000;

/// The bit rate of the slow-init address transmission.
pub const FIVE_BAUD: u32 = 5;

/// Lowest accepted baud rate.
pub const MIN_BAUD: u32 = 5;

/// Highest accepted baud rate.
pub const MAX_BAUD: u32 = 3_000_000;

} // verus!
