//! Identities of members, recipients and tokens.

use vstd::prelude::*;

verus! {

/// What an address designates on the host platform.
#[derive(Clone, Copy, Debug, PartialEq, Eq, Structural, PartialOrd, Ord, Hash)]
pub enum AddressKind {
    /// An account, identified by its ed25519 public key.
    Account,
    /// A contract, identified by the hash of its instance.
    Contract,
}

/// A fixed-size identity: a kind and a 256-bit key, held as two 128-bit
/// halves (`hi` holds the first sixteen bytes of the key, big-endian).
#[derive(Clone, Copy, Debug, PartialEq, Eq, Structural, PartialOrd, Ord, Hash)]
pub struct Address {
    pub kind: AddressKind,
    pub hi: u128,
    pub lo: u128,
}

/// The platform's reserved "null identity": the account whose key is all zero.
pub open spec fn zero_address() -> Address {
    Address { kind: AddressKind::Account, hi: 0, lo: 0 }
}

impl Address {
    /// The account with the given key.
    pub fn account(hi: u128, lo: u128) -> (r: Address)
        ensures
            r == (Address { kind: AddressKind::Account, hi, lo }),
    {
        Address { kind: AddressKind::Account, hi, lo }
    }

    /// The contract with the given key.
    pub fn contract(hi: u128, lo: u128) -> (r: Address)
        ensures
            r == (Address { kind: AddressKind::Contract, hi, lo }),
    {
        Address { kind: AddressKind::Contract, hi, lo }
    }

    /// The reserved null identity, which can never be a member.
    pub fn zero() -> (r: Address)
        ensures
            r == zero_address(),
    {
        Address { kind: AddressKind::Account, hi: 0, lo: 0 }
    }

    pub fn is_zero(&self) -> (r: bool)
        ensures
            r == (*self == zero_address()),
    {
        *self == Address::zero()
    }
}

/// Whether `a` occurs in `v`.
pub fn contains_address(v: &Vec<Address>, a: Address) -> (r: bool)
    ensures
        r == v@.contains(a),
{
    let mut i: usize = 0;
    while i < v.len()
        invariant
            0 <= i <= v@.len(),
            forall|j: int| 0 <= j < i ==> v@[j] != a,
        decreases v@.len() - i,
    {
        if v[i] == a {
            return true;
        }
        i = i + 1;
    }
    false
}

} // verus!
