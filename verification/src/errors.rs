//! Error taxonomy for discovery, connection and dispatch.

use vstd::prelude::*;

verus! {

/// A typed failure of the discovery/connection/dispatch subsystem.
///
/// Per-candidate connection failures (`ConnectError`, `DiscoveryError`,
/// `CharacteristicNotFound`) exclude that candidate from the registry without
/// aborting the others; `InsufficientLights` is the hard failure of the
/// connection phase; `TransportWriteError` is recorded per target inside an
/// aggregate dispatch result.
#[derive(Clone, Copy, Debug, PartialEq, Eq, Structural)]
pub enum LightError {
    /// The transport-level connect to a candidate peripheral failed.
    ConnectError,
    /// Enumerating the candidate's services/characteristics failed.
    DiscoveryError,
    /// No characteristic with the protocol control UUID was found.
    CharacteristicNotFound,
    /// Fewer lights became ready than the caller required.
    InsufficientLights { found: usize, required: usize },
    /// A characteristic write to one target failed at the transport level.
    TransportWriteError,
}

} // verus!
