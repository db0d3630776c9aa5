//! Differential power sampling for AMD processors.
//!
//! The library holds the verified core of a power telemetry engine: decoding
//! of hardware scaling exponents, parsing of per-CPU topology attributes,
//! the enumeration state machine that discovers cores, and the differential
//! energy computation that turns two passes of raw accumulator readings into
//! a per-core and per-package power snapshot. Reading the model-specific
//! register files themselves is the caller's part; every value that crosses
//! into the library is a plain integer.

pub mod engine;
pub mod enumeration;
pub mod error;
pub mod msr;
pub mod snapshot;
pub mod topology;
pub mod units;
