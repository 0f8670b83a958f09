use vstd::prelude::*;

verus! {

/// Why an operation was refused. A refused operation changes nothing.
#[derive(Clone, Copy, Debug, PartialEq, Eq, Hash, Structural)]
pub enum QuipayError {
    /// No administrator has been set yet, or a needed collaborator address is
    /// not configured.
    NotInitialized,
    /// An administrator is already set.
    AlreadyInitialized,
    /// The pause switch is on.
    ProtocolPaused,
    /// The caller is not the party the operation is reserved for.
    Unauthorized,
    /// No stream has the given id.
    NotFound,
    /// The stream has left the active state.
    NotActive,
    /// The vesting window is malformed or the amount is not positive.
    InvalidWindow,
    /// The custodian could not cover the requested amount.
    InsufficientFunds,
    /// The stream is still active, or its retention window has not elapsed.
    NotEligible,
    /// No agent is registered under the given address.
    AgentNotFound,
    /// The agent does not hold the permission the action needs.
    InsufficientPermissions,
}

} // verus!
