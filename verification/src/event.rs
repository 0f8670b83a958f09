use vstd::prelude::*;
use crate::address::Address;
use crate::gateway::Permission;

verus! {

/// What a stream ledger reports to those who watch it: one event for each
/// change of a stream. An operation that fails reports nothing, nor does a
/// withdrawal that pays nothing.
#[derive(Clone, Copy, Debug, PartialEq, Eq, Hash, Structural)]
pub enum StreamEvent {
    /// A stream was created.
    Created {
        stream_id: u64,
        employer: Address,
        worker: Address,
        asset: Address,
        total_amount: i128,
        start_ts: u64,
        cliff_ts: u64,
        end_ts: u64,
    },
    /// The worker was paid `amount`, which brought what the stream has paid
    /// to `withdrawn_amount`.
    Withdrawn { stream_id: u64, amount: i128, withdrawn_amount: i128 },
    /// The stream was canceled and what was held for it split.
    Canceled { stream_id: u64, to_worker: i128, to_employer: i128 },
    /// The record of the stream was removed.
    CleanedUp { stream_id: u64 },
}

/// What a permission gateway reports to those who watch it: one event for
/// each change that the administrator makes, and one for each action that it
/// lets an agent take. An operation that fails reports nothing.
#[derive(Clone, Copy, Debug, PartialEq, Eq, Hash, Structural)]
pub enum GatewayEvent {
    /// An agent was registered; its record holds the permissions.
    AgentRegistered { agent: Address },
    /// An agent was removed.
    AgentRevoked { agent: Address },
    /// The permissions of an agent were replaced; its record holds them.
    PermissionsSet { agent: Address },
    /// A permission was granted to an agent.
    PermissionGranted { agent: Address, permission: Permission },
    /// A permission was taken from an agent.
    PermissionRevoked { agent: Address, permission: Permission },
    /// An agent took an automated action.
    Executed { agent: Address, action: Permission },
    /// An agent created a stream on behalf of an employer.
    StreamCreated {
        agent: Address,
        employer: Address,
        stream_id: u64,
        worker: Address,
        rate: i128,
        start_ts: u64,
        end_ts: u64,
    },
    /// An agent canceled a stream on behalf of an employer.
    StreamCanceled { agent: Address, employer: Address, stream_id: u64 },
}

} // verus!
