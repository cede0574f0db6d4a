//! The records the vault keeps: proposals, their payloads and status, and the
//! summary that queries hand out.

use vstd::prelude::*;

use crate::address::Address;

verus! {

#[derive(Clone, Copy, Debug, PartialEq, Eq, Structural)]
pub enum ProposalStatus {
    Open,
    Closed,
}

/// A transfer of `amount` units of `token` from the vault to `recipient`.
#[derive(Clone, Debug, PartialEq, Eq)]
pub struct Transaction {
    pub token: Address,
    pub amount: u64,
    pub recipient: Address,
    pub title: String,
    pub description: String,
}

/// What a proposal does once executed.
#[derive(Clone, Debug, PartialEq, Eq)]
pub enum ProposalType {
    /// Transfer tokens from the vault to the recipient.
    Transaction(Transaction),
    /// Replace the vault's code by the code with this hash.
    UpdateContract([u8; 32]),
}

#[derive(Clone, Debug, PartialEq, Eq)]
pub struct Proposal {
    pub id: u64,
    pub sender: Address,
    pub proposal: ProposalType,
    pub status: ProposalStatus,
    pub creation_timestamp: u64,
    pub expiration_timestamp: u64,
}

/// The vault's configuration as queries report it.
#[derive(Clone, Debug, PartialEq, Eq)]
pub struct MultisigInfo {
    pub name: String,
    pub description: String,
    pub members: Vec<Address>,
    pub quorum_bps: u32,
    pub version_proposal: u32,
}

/// The vault's persisted key space: one entry per key.
#[derive(Clone, Copy, Debug, PartialEq, Eq, Structural)]
pub enum DataKey {
    IsInitialized,
    NameDescription,
    QuorumBps,
    Multisig,
    LastProposalId,
    Proposal(u64),
    ProposalSignatures(u64),
    Version,
}

impl Transaction {
    /// An equal copy.
    pub fn duplicate(&self) -> (r: Transaction)
        ensures
            r == *self,
    {
        Transaction {
            token: self.token,
            amount: self.amount,
            recipient: self.recipient,
            title: self.title.clone(),
            description: self.description.clone(),
        }
    }
}

impl ProposalType {
    /// An equal copy.
    pub fn duplicate(&self) -> (r: ProposalType)
        ensures
            r == *self,
    {
        match self {
            ProposalType::Transaction(t) => ProposalType::Transaction(t.duplicate()),
            ProposalType::UpdateContract(hash) => ProposalType::UpdateContract(*hash),
        }
    }

    pub open spec fn is_upgrade(&self) -> bool {
        self is UpdateContract
    }
}

impl Proposal {
    /// An equal copy.
    pub fn duplicate(&self) -> (r: Proposal)
        ensures
            r == *self,
    {
        Proposal {
            id: self.id,
            sender: self.sender,
            proposal: self.proposal.duplicate(),
            status: self.status,
            creation_timestamp: self.creation_timestamp,
            expiration_timestamp: self.expiration_timestamp,
        }
    }
}

/// An equal copy of a list of addresses.
pub fn copy_addresses(v: &Vec<Address>) -> (r: Vec<Address>)
    ensures
        r@ == v@,
{
    let mut r: Vec<Address> = Vec::new();
    let mut i: usize = 0;
    while i < v.len()
        invariant
            0 <= i <= v@.len(),
            r@ == v@.take(i as int),
        decreases v@.len() - i,
    {
        r.push(v[i]);
        proof {
            assert(v@.take(i + 1) =~= v@.take(i as int).push(v@[i as int]));
        }
        i = i + 1;
    }
    proof {
        assert(v@.take(v@.len() as int) =~= v@);
    }
    r
}

} // verus!
