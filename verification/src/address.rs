use vstd::prelude::*;

verus! {

/// What an address names on the hosting ledger.
#[derive(Clone, Copy, Debug, PartialEq, Eq, Hash, Structural)]
pub enum AddressKind {
    /// A keyed account: an employer, a worker, an agent, an administrator.
    Account,
    /// A deployed contract: a custodian, a gateway, a token.
    Contract,
}

/// The identity of a party or contract.
///
/// An address is its kind together with a 256-bit key, held as the high and
/// the low half of the key read as a big-endian number. Two addresses name the
/// same party exactly when kind and key agree, which is what `==` tests.
#[derive(Clone, Copy, Debug, PartialEq, Eq, Hash, Structural)]
pub struct Address {
    pub kind: AddressKind,
    pub hi: u128,
    pub lo: u128,
}

impl Address {
    /// The account with the given key.
    pub fn account(hi: u128, lo: u128) -> (a: Address)
        ensures
            a == (Address { kind: AddressKind::Account, hi, lo }),
    {
        Address { kind: AddressKind::Account, hi, lo }
    }

    /// The contract with the given key.
    pub fn contract(hi: u128, lo: u128) -> (a: Address)
        ensures
            a == (Address { kind: AddressKind::Contract, hi, lo }),
    {
        Address { kind: AddressKind::Contract, hi, lo }
    }
}

} // verus!
