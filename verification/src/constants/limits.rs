//! Limits on client requests.

use vstd::prelude::*;

verus! {

/// Most parameters one read request may name.
pub const MAX_PIDS_PER_REQUEST: usize = 16;

/// Most data identifiers one read request may name.
pub const MAX_DIDS_PER_REQUEST: usize = 16;

/// Most extra bytes a routine request may carry.
pub const MAX_ROUTINE_DATA_SIZE: usize = 256;

/// Longest accepted hexadecimal input string, in bytes.
pub const MAX_HEX_STRING_LENGTH: usize = 10_000;

/// Most DTCs read in one pass.
pub const MAX_DTCS_PER_READ: usize = 100;

} // verus!
