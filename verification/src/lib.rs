//! Verified core of a diagnostic gateway for BMW E-series vehicles.
//!
//! The library covers the protocol logic that a K-Line / D-CAN diagnostic
//! tool needs: KWP2000 (ISO 14230) frame encoding and decoding with its
//! modulo-256 checksum, DTC byte decoding, ISO-TP (ISO 15765-2)
//! segmentation and reassembly, the P3 inter-request timing rule, the
//! negative-response taxonomy, the diagnostic service encoders and
//! decoders, session bookkeeping, the exclusive bus lease, and input
//! validation.  Everything here is pure computation on plain values;
//! the serial and CAN adapters that carry the bytes live outside.

pub mod bytes;
pub mod catalog;
pub mod constants;
pub mod dcan;
pub mod dtc;
pub mod isotp;
pub mod kline;
pub mod kwp;
pub mod lease;
pub mod services;
pub mod session;
pub mod store;
pub mod transport;
pub mod validators;
