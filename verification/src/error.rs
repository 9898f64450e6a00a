//! The bridge-level error taxonomy.

use vstd::prelude::*;

use crate::resolver::Role;

verus! {

/// Why a bootstrap attempt or a send failed.
///
/// Scan and connection failures are recoverable by retrying the whole
/// bootstrap; a missing characteristic is fatal to the session attempt.
#[derive(Clone, Copy, Debug, PartialEq, Eq)]
pub enum BridgeError {
    /// No peer matched the scan filter within the scan window.
    ScanTimeout,
    /// The stack failed to open the GATT connection.
    ConnectError,
    /// The peer does not expose the target service.
    ServiceNotFound,
    /// A required characteristic stayed unresolved after both passes.
    MissingCharacteristic(Role),
    /// Subscribing to the receive characteristic failed.
    SubscribeFailed,
    /// The downstream session factory rejected the handoff.
    SessionSetupFailed,
}

} // verus!
