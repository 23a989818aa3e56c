//! KWP2000 timing parameters and deadlines, in milliseconds.

use vstd::prelude::*;

verus! {

/// P1: longest gap between bytes of an ECU response.
pub const P1_MAX_MS: u64 = 20;

/// P2: nominal time between request and response.
pub const P2_MAX_MS: u64 = 50;

/// P3: shortest quiet time between a response and the next request.
pub const P3_MIN_MS: u64 = 55;

/// P4: shortest gap between bytes of a tester request.
pub const P4_MIN_MS: u64 = 5;

/// Idle time after which a session needs TesterPresent; configurable,
/// this is the default.
pub const P3_MAX_DEFAULT_MS: u64 = 2000;

/// How long the link layer reads before giving up on a response.
pub const RESPONSE_DEADLINE_MS: u64 = 500;

/// The ceiling on waiting while the ECU keeps answering "response pending".
pub const PENDING_CEILING_MS: u64 = 5000;

/// How long an initialization waits for the synchronization byte.
pub const INIT_TIMEOUT_MS: u64 = 400;

/// How long one message read may take.
pub const MESSAGE_TIMEOUT_MS: u64 = 100;

/// How often the keep-alive task wakes.
pub const TESTER_PRESENT_INTERVAL_MS: u64 = 2000;

/// The whole budget of one ISO-TP message.
pub const ISOTP_BUDGET_MS: u64 = 1000;

/// How long the sender waits for a Flow Control frame.
pub const FLOW_CONTROL_TIMEOUT_MS: u64 = 100;

} // verus!
