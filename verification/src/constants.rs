//! Protocol constants: addresses, baud rates, service identifiers, routine
//! identifiers, timing parameters and request limits.

pub mod addresses;
pub mod baud;
pub mod dpf_routines;
pub mod limits;
pub mod timing;
pub mod uds;
