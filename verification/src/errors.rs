//! Error kinds of the credential and storage operations.

use vstd::prelude::*;

verus! {

/// Failures of the credential lifecycle.
#[derive(Clone, Copy, Debug, PartialEq, Eq, Structural)]
pub enum AuthError {
    /// No credential record is stored locally.
    NotAuthenticated,
    /// Transport-level failure (connection, timeout, unreadable response).
    Network,
    /// The response body does not match the expected schema.
    Malformed,
}

/// Failures of the remote-storage operations.
#[derive(Clone, Copy, Debug, PartialEq, Eq, Structural)]
pub enum DriveError {
    /// Transport-level failure on a storage call.
    Network,
    /// A storage response body does not match the expected schema.
    Malformed,
    /// The provider answered a primary action with a non-success status.
    RemoteRejected,
    /// The public-read sharing grant failed.
    PermissionDenied,
}

} // verus!
