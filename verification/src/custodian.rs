use vstd::prelude::*;
use crate::address::Address;

verus! {

/// What a stream ledger asks of the custodian that holds the funds. The
/// custodian does all of what it is asked, or refuses and does nothing.
#[derive(Clone, Copy, Debug, PartialEq, Eq, Hash, Structural)]
pub enum Request {
    /// Commit `amount` of `asset` out of the balance of `employer`.
    Allocate { employer: Address, asset: Address, amount: i128 },
    /// Hand `amount` of what is committed for `employer` in `asset` to `to`.
    Release { employer: Address, asset: Address, amount: i128, to: Address },
    /// Of what is committed for `employer` in `asset`, hand `to_worker` to
    /// `worker` and `to_employer` back to `employer`.
    Settle {
        employer: Address,
        asset: Address,
        worker: Address,
        to_worker: i128,
        to_employer: i128,
    },
}

} // verus!
