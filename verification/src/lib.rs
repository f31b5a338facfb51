//! Drives a set of wireless ambient-lighting peripherals: discovery by
//! advertised-name prefix, a per-device connection state machine that resolves
//! the protocol control characteristic, a registry of ready lights, and a
//! fixed 20-byte command frame with an XOR checksum, fanned out to every
//! registered light with per-target outcome aggregation.
//!
//! All transport work (scanning, connecting, characteristic writes) happens
//! outside this crate; the functions here take the transport's observations as
//! plain values and are verified for every such value.

pub mod capture;
pub mod codec;
pub mod errors;
pub mod manager;
pub mod matcher;
pub mod dispatch;
pub mod registry;
pub mod resolver;
