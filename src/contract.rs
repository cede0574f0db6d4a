//! The vault's state machine: membership and configuration, the proposal
//! store with its signature sets, and the operations that create, sign and
//! execute proposals.
//!
//! Every operation takes the caller's identity as already authorized by the
//! host and, where time matters, the host's current timestamp. An operation
//! that fails leaves the state as it was, with one exception that the
//! lifecycle requires: executing an expired proposal closes it.

use vstd::prelude::*;

use crate::address::{contains_address, zero_address, Address};
use crate::error::ContractError;
use crate::quorum::{quorum_met, quorum_reached};
use crate::storage::{copy_addresses, MultisigInfo, Proposal, ProposalStatus, ProposalType, Transaction};
use crate::{ONE_HOUR, SEVEN_DAYS_EXPIRATION_DATE};

verus! {

/// How many of `members` occur in `signatures`.
pub open spec fn signed_count(members: Seq<Address>, signatures: Seq<Address>) -> nat
    decreases members.len(),
{
    if members.len() == 0 {
        0
    } else {
        signed_count(members.drop_last(), signatures) + if signatures.contains(members.last()) {
            1nat
        } else {
            0nat
        }
    }
}

/// `s` without repetitions, each element kept where it first occurs.
pub open spec fn dedup(s: Seq<Address>) -> Seq<Address>
    decreases s.len(),
{
    if s.len() == 0 {
        s
    } else {
        let d = dedup(s.drop_last());
        if d.contains(s.last()) {
            d
        } else {
            d.push(s.last())
        }
    }
}

proof fn lemma_dedup(s: Seq<Address>)
    ensures
        dedup(s).no_duplicates(),
        forall|a: Address| dedup(s).contains(a) <==> s.contains(a),
        dedup(s).len() <= s.len(),
        s.len() > 0 ==> dedup(s).len() > 0,
    decreases s.len(),
{
    if s.len() > 0 {
        let t = s.drop_last();
        lemma_dedup(t);
        assert forall|a: Address| s.contains(a) <==> (t.contains(a) || a == s.last()) by {
            if s.contains(a) {
                let j = choose|j: int| 0 <= j < s.len() && s[j] == a;
                if j < s.len() - 1 {
                    assert(t[j] == a);
                }
            }
            if t.contains(a) {
                let j = choose|j: int| 0 <= j < t.len() && t[j] == a;
                assert(s[j] == a);
            }
            if a == s.last() {
                assert(s[s.len() - 1] == a);
            }
        }
        let d = dedup(t);
        if !d.contains(s.last()) {
            assert forall|a: Address| d.push(s.last()).contains(a) <==> (d.contains(a) || a
                == s.last()) by {
                if d.push(s.last()).contains(a) {
                    let j = choose|j: int| 0 <= j < d.len() + 1 && d.push(s.last())[j] == a;
                    if j < d.len() {
                        assert(d[j] == a);
                    }
                }
                if d.contains(a) {
                    let j = choose|j: int| 0 <= j < d.len() && d[j] == a;
                    assert(d.push(s.last())[j] == a);
                }
                if a == s.last() {
                    assert(d.push(s.last())[d.len() as int] == a);
                }
            }
        }
    }
}

/// The lifetime that `expiration_date` asks for: seven days when absent.
pub open spec fn lifetime(expiration_date: Option<u64>) -> int {
    match expiration_date {
        Some(d) => d as int,
        None => SEVEN_DAYS_EXPIRATION_DATE as int,
    }
}

/// The lifetime in seconds that `expiration_date` asks for.
pub fn lifetime_seconds(expiration_date: Option<u64>) -> (r: u64)
    ensures
        r == lifetime(expiration_date),
{
    match expiration_date {
        Some(d) => d,
        None => SEVEN_DAYS_EXPIRATION_DATE,
    }
}

/// `set` with `a` added at the end, unless it is there already: signing
/// twice, or adding a member twice, changes nothing.
pub open spec fn with_address(set: Seq<Address>, a: Address) -> Seq<Address> {
    if set.contains(a) {
        set
    } else {
        set.push(a)
    }
}

/// Why the member list `members` is refused, if it is.
pub open spec fn members_error(members: Seq<Address>) -> Option<ContractError> {
    if members.len() == 0 {
        Some(ContractError::MembersListEmpty)
    } else if members.contains(zero_address()) {
        Some(ContractError::ZeroAddressProvided)
    } else {
        None
    }
}

/// Checks a member list: it must not be empty nor hold the null identity.
pub fn verify_members(members: &Vec<Address>) -> (r: Result<(), ContractError>)
    ensures
        r == match members_error(members@) {
            Some(e) => Err(e),
            None => Ok(()),
        },
{
    if members.len() == 0 {
        return Err(ContractError::MembersListEmpty);
    }
    if contains_address(members, Address::zero()) {
        return Err(ContractError::ZeroAddressProvided);
    }
    Ok(())
}

/// `p` with its status set to `Closed`.
pub open spec fn closed(p: Proposal) -> Proposal {
    Proposal { status: ProposalStatus::Closed, ..p }
}

/// The state of one vault.
///
/// Proposals are stored densely: the proposal with id `i` sits at index
/// `i - 1` of `proposals`, and its signature set at the same index of
/// `signatures`.
pub struct Multisig {
    pub initialized: bool,
    pub name: String,
    pub description: String,
    pub quorum_bps: u32,
    pub members: Vec<Address>,
    pub last_proposal_id: u64,
    pub proposals: Vec<Proposal>,
    pub signatures: Vec<Vec<Address>>,
    pub version: u32,
}

impl Multisig {
    /// The vault's invariant.
    pub open spec fn wf(&self) -> bool {
        &&& self.members@.no_duplicates()
        &&& !self.members@.contains(zero_address())
        &&& self.members@.len() <= u32::MAX
        &&& self.initialized ==> {
            &&& self.members@.len() > 0
            &&& 100 < self.quorum_bps <= 10000
            &&& self.name@.len() <= 64
            &&& self.description@.len() <= 256
        }
        &&& !self.initialized ==> self.members@.len() == 0 && self.proposals@.len() == 0
        &&& self.proposals@.len() == self.last_proposal_id
        &&& self.signatures@.len() == self.proposals@.len()
        &&& forall|i: int|
            0 <= i < self.proposals@.len() ==> {
                &&& (#[trigger] self.proposals@[i]).id == i + 1
                &&& self.proposals@[i].creation_timestamp + ONE_HOUR
                    <= self.proposals@[i].expiration_timestamp
            }
        &&& forall|i: int|
            0 <= i < self.signatures@.len() ==> {
                &&& (#[trigger] self.signatures@[i])@.no_duplicates()
                &&& forall|j: int|
                    0 <= j < self.signatures@[i]@.len() ==> self.members@.contains(
                        self.signatures@[i]@[j],
                    )
            }
    }

    pub open spec fn is_member(&self, a: Address) -> bool {
        self.members@.contains(a)
    }

    pub open spec fn has_proposal(&self, id: u64) -> bool {
        1 <= id <= self.proposals@.len()
    }

    /// The proposal with id `id`, where `has_proposal(id)`.
    pub open spec fn proposal_at(&self, id: u64) -> Proposal {
        self.proposals@[id - 1]
    }

    /// The members who signed proposal `id`; none for an unknown id.
    pub open spec fn signatures_of(&self, id: u64) -> Seq<Address> {
        if self.has_proposal(id) {
            self.signatures@[id - 1]@
        } else {
            Seq::empty()
        }
    }

    /// Everything but the proposals, their signatures and the version.
    pub open spec fn same_config(&self, other: &Multisig) -> bool {
        &&& self.initialized == other.initialized
        &&& self.name == other.name
        &&& self.description == other.description
        &&& self.quorum_bps == other.quorum_bps
        &&& self.members@ == other.members@
    }

    /// Why executing proposal `id` at time `now` by `sender` fails, if it does.
    pub open spec fn execute_error(&self, sender: Address, id: u64, now: u64) -> Option<
        ContractError,
    > {
        if !self.is_member(sender) {
            Some(ContractError::UnauthorizedNotAMember)
        } else if !self.has_proposal(id) {
            Some(ContractError::ProposalNotFound)
        } else if self.proposal_at(id).status != ProposalStatus::Open {
            Some(ContractError::ProposalClosed)
        } else if now > self.proposal_at(id).expiration_timestamp {
            Some(ContractError::ProposalExpired)
        } else if !quorum_met(
            signed_count(self.members@, self.signatures_of(id)) as int,
            self.members@.len() as int,
            self.quorum_bps as int,
        ) {
            Some(ContractError::QuorumNotReached)
        } else {
            None
        }
    }

    /// Why initializing with these values fails, if it does.
    pub open spec fn initialize_error(
        &self,
        name: Seq<char>,
        description: Seq<char>,
        members: Seq<Address>,
        quorum_bps: Option<u32>,
    ) -> Option<ContractError> {
        let q = match quorum_bps {
            Some(q) => q,
            None => 10000u32,
        };
        if members_error(members) is Some {
            members_error(members)
        } else if self.initialized {
            Some(ContractError::AlreadyInitialized)
        } else if name.len() > 64 {
            Some(ContractError::TitleTooLong)
        } else if description.len() > 256 {
            Some(ContractError::DescriptionTooLong)
        } else if q <= 100 {
            Some(ContractError::InitializeTooLowQuorum)
        } else if q > 10000 {
            Some(ContractError::InitializeTooHighQuorum)
        } else {
            None
        }
    }

    /// Why creating a transfer proposal fails, if it does.
    pub open spec fn transaction_proposal_error(
        &self,
        sender: Address,
        title: Seq<char>,
        description: Seq<char>,
        expiration_date: Option<u64>,
    ) -> Option<ContractError> {
        if !self.is_member(sender) {
            Some(ContractError::UnauthorizedNotAMember)
        } else if title.len() > 64 {
            Some(ContractError::TitleTooLong)
        } else if description.len() > 256 {
            Some(ContractError::DescriptionTooLong)
        } else if lifetime(expiration_date) < ONE_HOUR {
            Some(ContractError::InvalidExpirationDate)
        } else {
            None
        }
    }

    /// Why creating an upgrade proposal fails, if it does.
    pub open spec fn update_proposal_error(&self, sender: Address, expiration_date: Option<u64>) -> Option<
        ContractError,
    > {
        if !self.is_member(sender) {
            Some(ContractError::UnauthorizedNotAMember)
        } else if lifetime(expiration_date) < ONE_HOUR {
            Some(ContractError::InvalidExpirationDate)
        } else {
            None
        }
    }

    /// Why signing proposal `id` by `sender` fails, if it does.
    pub open spec fn sign_error(&self, sender: Address, id: u64) -> Option<ContractError> {
        if !self.is_member(sender) {
            Some(ContractError::UnauthorizedNotAMember)
        } else if !self.has_proposal(id) {
            Some(ContractError::ProposalNotFound)
        } else if self.proposal_at(id).status != ProposalStatus::Open {
            Some(ContractError::ProposalClosed)
        } else {
            None
        }
    }

    /// The open proposal that a successful creation stores.
    pub open spec fn new_proposal(
        &self,
        sender: Address,
        kind: ProposalType,
        now: u64,
        expiration_date: Option<u64>,
    ) -> Proposal {
        Proposal {
            id: (self.last_proposal_id + 1) as u64,
            sender,
            proposal: kind,
            status: ProposalStatus::Open,
            creation_timestamp: now,
            expiration_timestamp: (now + lifetime(expiration_date)) as u64,
        }
    }

    /// `self` is what a successful creation of `p` leaves of `before`: `p` is stored with no
    /// signatures and becomes the last proposal; nothing else changes.
    pub open spec fn stored_new(&self, before: &Multisig, p: Proposal) -> bool {
        &&& self.same_config(before)
        &&& self.version == before.version
        &&& self.last_proposal_id == before.last_proposal_id + 1
        &&& self.proposals@ == before.proposals@.push(p)
        &&& self.signatures@.len() == before.signatures@.len() + 1
        &&& self.signatures@.drop_last() == before.signatures@
        &&& self.signatures@.last()@ == Seq::<Address>::empty()
    }

    /// `self` equals `before` in every part that the contracts speak of.
    pub open spec fn unchanged(&self, before: &Multisig) -> bool {
        &&& self.same_config(before)
        &&& self.version == before.version
        &&& self.last_proposal_id == before.last_proposal_id
        &&& self.proposals@ == before.proposals@
        &&& self.signatures@ == before.signatures@
    }

    /// An empty vault, not yet initialized.
    pub fn new() -> (r: Multisig)
        ensures
            r.wf(),
            !r.initialized,
            r.members@.len() == 0,
            r.proposals@.len() == 0,
            r.last_proposal_id == 0,
            r.version == 0,
    {
        Multisig {
            initialized: false,
            name: String::new(),
            description: String::new(),
            quorum_bps: 0,
            members: Vec::new(),
            last_proposal_id: 0,
            proposals: Vec::new(),
            signatures: Vec::new(),
            version: 0,
        }
    }

    /// What `initialize(name, description, members, quorum_bps)` returns and
    /// leaves as `post`.
    pub open spec fn initialize_post(
        &self,
        post: &Multisig,
        name: String,
        description: String,
        members: Seq<Address>,
        quorum_bps: Option<u32>,
        r: Result<(), ContractError>,
    ) -> bool {
        &&& r == match self.initialize_error(name@, description@, members, quorum_bps) {
            Some(e) => Err(e),
            None => Ok(()),
        }
        &&& r is Err ==> post.unchanged(self)
        &&& r is Ok ==> {
            &&& post.initialized
            &&& post.name == name
            &&& post.description == description
            &&& post.members@ == dedup(members)
            &&& post.quorum_bps == match quorum_bps {
                Some(q) => q,
                None => 10000u32,
            }
            &&& post.version == 0
            &&& post.last_proposal_id == self.last_proposal_id
            &&& post.proposals@ == self.proposals@
            &&& post.signatures@ == self.signatures@
        }
    }

    /// Sets up the vault once: its name and description, its members (each
    /// kept once, in order of first occurrence) and its quorum in basis
    /// points, 10000 when none is given. Everything is checked before
    /// anything is written.
    pub fn initialize(
        &mut self,
        name: String,
        description: String,
        members: Vec<Address>,
        quorum_bps: Option<u32>,
    ) -> (r: Result<(), ContractError>)
        requires
            old(self).wf(),
            members@.len() <= u32::MAX,
        ensures
            final(self).wf(),
            old(self).initialize_post(final(self), name, description, members@, quorum_bps, r),
    {
        match verify_members(&members) {
            Err(e) => {
                return Err(e);
            },
            Ok(()) => {},
        }
        if self.initialized {
            return Err(ContractError::AlreadyInitialized);
        }
        if name.as_str().unicode_len() > 64 {
            return Err(ContractError::TitleTooLong);
        }
        if description.as_str().unicode_len() > 256 {
            return Err(ContractError::DescriptionTooLong);
        }
        let quorum_bps = match quorum_bps {
            Some(q) => q,
            None => 10_000u32,
        };
        if quorum_bps <= 100 {
            return Err(ContractError::InitializeTooLowQuorum);
        }
        if quorum_bps > 10_000 {
            return Err(ContractError::InitializeTooHighQuorum);
        }
        proof {
            lemma_dedup(members@);
        }
        self.save_new_multisig(&members);
        self.initialized = true;
        self.name = name;
        self.description = description;
        self.quorum_bps = quorum_bps;
        self.version = 0;
        Ok(())
    }

    /// Replaces the member set by `members`, each kept once in order of first
    /// occurrence.
    pub fn save_new_multisig(&mut self, members: &Vec<Address>)
        ensures
            final(self).members@ == dedup(members@),
            final(self).initialized == old(self).initialized,
            final(self).name == old(self).name,
            final(self).description == old(self).description,
            final(self).quorum_bps == old(self).quorum_bps,
            final(self).version == old(self).version,
            final(self).last_proposal_id == old(self).last_proposal_id,
            final(self).proposals@ == old(self).proposals@,
            final(self).signatures@ == old(self).signatures@,
    {
        let mut kept: Vec<Address> = Vec::new();
        let mut i: usize = 0;
        while i < members.len()
            invariant
                0 <= i <= members@.len(),
                kept@ == dedup(members@.take(i as int)),
            decreases members@.len() - i,
        {
            proof {
                let next = members@.take(i + 1);
                assert(next.drop_last() =~= members@.take(i as int));
                assert(next.last() == members@[i as int]);
            }
            let m = members[i];
            if !contains_address(&kept, m) {
                kept.push(m);
            }
            i = i + 1;
        }
        proof {
            assert(members@.take(members@.len() as int) =~= members@);
        }
        self.members = kept;
    }

    /// Stores `p` as the next proposal, with no signatures yet.
    fn store_new_proposal(&mut self, p: Proposal)
        requires
            old(self).wf(),
            old(self).last_proposal_id < u64::MAX,
            old(self).is_member(p.sender),
            p.id == old(self).last_proposal_id + 1,
            p.creation_timestamp + ONE_HOUR <= p.expiration_timestamp,
        ensures
            final(self).wf(),
            final(self).stored_new(old(self), p),
    {
        self.proposals.push(p);
        self.signatures.push(Vec::new());
        self.last_proposal_id = self.last_proposal_id + 1;
        proof {
            assert(self.signatures@.drop_last() =~= old(self).signatures@);
            assert forall|i: int| 0 <= i < self.signatures@.len() implies {
                &&& (#[trigger] self.signatures@[i])@.no_duplicates()
                &&& forall|j: int|
                    0 <= j < self.signatures@[i]@.len() ==> self.members@.contains(
                        self.signatures@[i]@[j],
                    )
            } by {
                if i < old(self).signatures@.len() {
                    assert(self.signatures@[i] == old(self).signatures@[i]);
                }
            }
        }
    }

    /// Proposes that the vault transfer `amount` units of `token` to
    /// `recipient`. The proposal gets the next id, is open, and expires
    /// `expiration_date` seconds after `now` (seven days when absent).
    pub fn create_transaction_proposal(
        &mut self,
        sender: Address,
        title: String,
        description: String,
        recipient: Address,
        amount: u64,
        token: Address,
        expiration_date: Option<u64>,
        now: u64,
    ) -> (r: Result<(), ContractError>)
        requires
            old(self).wf(),
            old(self).last_proposal_id < u64::MAX,
            now + lifetime(expiration_date) <= u64::MAX,
        ensures
            final(self).wf(),
            r == match old(self).transaction_proposal_error(
                sender,
                title@,
                description@,
                expiration_date,
            ) {
                Some(e) => Err(e),
                None => Ok(()),
            },
            r is Err ==> final(self).unchanged(old(self)),
            r is Ok ==> final(self).stored_new(
                old(self),
                old(self).new_proposal(
                    sender,
                    ProposalType::Transaction(
                        Transaction { token, amount, recipient, title, description },
                    ),
                    now,
                    expiration_date,
                ),
            ),
    {
        if !self.has_member(sender) {
            return Err(ContractError::UnauthorizedNotAMember);
        }
        if title.as_str().unicode_len() > 64 {
            return Err(ContractError::TitleTooLong);
        }
        if description.as_str().unicode_len() > 256 {
            return Err(ContractError::DescriptionTooLong);
        }
        let lifetime = lifetime_seconds(expiration_date);
        if lifetime < ONE_HOUR {
            return Err(ContractError::InvalidExpirationDate);
        }
        let proposal = Proposal {
            id: self.last_proposal_id + 1,
            sender,
            proposal: ProposalType::Transaction(
                Transaction { token, amount, recipient, title, description },
            ),
            status: ProposalStatus::Open,
            creation_timestamp: now,
            expiration_timestamp: now + lifetime,
        };
        self.store_new_proposal(proposal);
        Ok(())
    }

    /// Proposes that the vault replace its code by the code with hash
    /// `new_wasm_hash`. Ids, status and expiration are as for transfers.
    pub fn create_update_proposal(
        &mut self,
        sender: Address,
        new_wasm_hash: [u8; 32],
        expiration_date: Option<u64>,
        now: u64,
    ) -> (r: Result<(), ContractError>)
        requires
            old(self).wf(),
            old(self).last_proposal_id < u64::MAX,
            now + lifetime(expiration_date) <= u64::MAX,
        ensures
            final(self).wf(),
            r == match old(self).update_proposal_error(sender, expiration_date) {
                Some(e) => Err(e),
                None => Ok(()),
            },
            r is Err ==> final(self).unchanged(old(self)),
            r is Ok ==> final(self).stored_new(
                old(self),
                old(self).new_proposal(
                    sender,
                    ProposalType::UpdateContract(new_wasm_hash),
                    now,
                    expiration_date,
                ),
            ),
    {
        if !self.has_member(sender) {
            return Err(ContractError::UnauthorizedNotAMember);
        }
        let lifetime = lifetime_seconds(expiration_date);
        if lifetime < ONE_HOUR {
            return Err(ContractError::InvalidExpirationDate);
        }
        let proposal = Proposal {
            id: self.last_proposal_id + 1,
            sender,
            proposal: ProposalType::UpdateContract(new_wasm_hash),
            status: ProposalStatus::Open,
            creation_timestamp: now,
            expiration_timestamp: now + lifetime,
        };
        self.store_new_proposal(proposal);
        Ok(())
    }

    /// What `sign_proposal(sender, id)` returns and leaves as `post`.
    pub open spec fn sign_post(
        &self,
        post: &Multisig,
        sender: Address,
        id: u64,
        r: Result<(), ContractError>,
    ) -> bool {
        &&& r == match self.sign_error(sender, id) {
            Some(e) => Err(e),
            None => Ok(()),
        }
        &&& r is Err ==> post.unchanged(self)
        &&& r is Ok ==> {
            &&& post.same_config(self)
            &&& post.version == self.version
            &&& post.last_proposal_id == self.last_proposal_id
            &&& post.proposals@ == self.proposals@
            &&& post.signatures@.len() == self.signatures@.len()
            &&& forall|j: u64|
                #![trigger post.signatures_of(j)]
                post.signatures_of(j) == if j == id {
                    with_address(self.signatures_of(j), sender)
                } else {
                    self.signatures_of(j)
                }
        }
    }

    /// Records that member `sender` signs open proposal `proposal_id`.
    /// Signing again is accepted and changes nothing.
    pub fn sign_proposal(&mut self, sender: Address, proposal_id: u64) -> (r: Result<
        (),
        ContractError,
    >)
        requires
            old(self).wf(),
        ensures
            final(self).wf(),
            old(self).sign_post(final(self), sender, proposal_id, r),
    {
        if !self.has_member(sender) {
            return Err(ContractError::UnauthorizedNotAMember);
        }
        if proposal_id == 0 || proposal_id > self.proposals.len() as u64 {
            return Err(ContractError::ProposalNotFound);
        }
        let idx = (proposal_id - 1) as usize;
        if let ProposalStatus::Closed = self.proposals[idx].status {
            return Err(ContractError::ProposalClosed);
        }
        self.save_proposal_signature(idx, sender);
        Ok(())
    }

    /// Adds member `signer` to the signature set at index `idx`, unless it is
    /// there already.
    fn save_proposal_signature(&mut self, idx: usize, signer: Address)
        requires
            old(self).wf(),
            idx < old(self).signatures@.len(),
            old(self).is_member(signer),
        ensures
            final(self).wf(),
            final(self).same_config(old(self)),
            final(self).version == old(self).version,
            final(self).last_proposal_id == old(self).last_proposal_id,
            final(self).proposals@ == old(self).proposals@,
            final(self).signatures@.len() == old(self).signatures@.len(),
            forall|i: int|
                #![trigger final(self).signatures@[i]]
                0 <= i < final(self).signatures@.len() && i != idx ==> final(self).signatures@[i]
                    == old(self).signatures@[i],
            final(self).signatures@[idx as int]@ == with_address(
                old(self).signatures@[idx as int]@,
                signer,
            ),
    {
        if !contains_address(&self.signatures[idx], signer) {
            self.signatures[idx].push(signer);
        }
        proof {
            assert forall|i: int| 0 <= i < self.signatures@.len() implies {
                &&& (#[trigger] self.signatures@[i])@.no_duplicates()
                &&& forall|j: int|
                    0 <= j < self.signatures@[i]@.len() ==> self.members@.contains(
                        self.signatures@[i]@[j],
                    )
            } by {
                if i != idx {
                    assert(self.signatures@[i] == old(self).signatures@[i]);
                } else {
                    let before = old(self).signatures@[i]@;
                    assert forall|j: int| 0 <= j < self.signatures@[i]@.len() implies
                        self.members@.contains(self.signatures@[i]@[j]) by {
                        if j < before.len() {
                            assert(self.signatures@[i]@[j] == before[j]);
                        }
                    }
                }
            }
        }
    }

    /// Whether the signatures on proposal `proposal_id` reach the quorum
    /// (false while the vault has no members). Expiration and status are not
    /// looked at.
    pub fn is_proposal_ready(&self, proposal_id: u64) -> (r: bool)
        requires
            self.wf(),
        ensures
            r == (self.members@.len() > 0 && quorum_met(
                self.signatures_of(proposal_id).len() as int,
                self.members@.len() as int,
                self.quorum_bps as int,
            )),
    {
        if self.members.len() == 0 {
            return false;
        }
        let signed = self.get_proposal_signatures(proposal_id);
        proof {
            if self.has_proposal(proposal_id) {
                let sigs = self.signatures_of(proposal_id);
                assert(sigs.to_set().subset_of(self.members@.to_set()));
                sigs.unique_seq_to_set();
                self.members@.unique_seq_to_set();
                vstd::set_lib::lemma_len_subset(sigs.to_set(), self.members@.to_set());
            }
        }
        quorum_reached(signed.len() as u32, self.members.len() as u32, self.quorum_bps)
    }

    /// The vault's name, description, members, quorum and version.
    pub fn query_multisig_info(&self) -> (r: MultisigInfo)
        ensures
            r.name == self.name,
            r.description == self.description,
            r.members@ == self.members@,
            r.quorum_bps == self.quorum_bps,
            r.version_proposal == self.version,
    {
        MultisigInfo {
            name: self.name.clone(),
            description: self.description.clone(),
            members: copy_addresses(&self.members),
            quorum_bps: self.quorum_bps,
            version_proposal: self.version,
        }
    }

    pub fn query_multisig_members(&self) -> (r: Vec<Address>)
        ensures
            r@ == self.members@,
    {
        copy_addresses(&self.members)
    }

    /// The proposal with id `proposal_id`, if there is one.
    pub fn get_proposal(&self, proposal_id: u64) -> (r: Option<Proposal>)
        ensures
            r == if self.has_proposal(proposal_id) {
                Some(self.proposal_at(proposal_id))
            } else {
                None::<Proposal>
            },
    {
        if proposal_id == 0 || proposal_id > self.proposals.len() as u64 {
            return None;
        }
        Some(self.proposals[(proposal_id - 1) as usize].duplicate())
    }

    /// The proposal with id `proposal_id`; none for an unknown id.
    pub fn query_proposal(&self, proposal_id: u64) -> (r: Option<Proposal>)
        ensures
            r == if self.has_proposal(proposal_id) {
                Some(self.proposal_at(proposal_id))
            } else {
                None::<Proposal>
            },
    {
        self.get_proposal(proposal_id)
    }

    /// The members who signed proposal `proposal_id`, in signing order.
    pub fn get_proposal_signatures(&self, proposal_id: u64) -> (r: Vec<Address>)
        requires
            self.wf(),
        ensures
            r@ == self.signatures_of(proposal_id),
    {
        if proposal_id == 0 || proposal_id > self.signatures.len() as u64 {
            return Vec::new();
        }
        copy_addresses(&self.signatures[(proposal_id - 1) as usize])
    }

    /// Each member, in member order, with whether it signed `proposal_id`.
    pub fn query_signatures(&self, proposal_id: u64) -> (r: Vec<(Address, bool)>)
        requires
            self.wf(),
        ensures
            r@.len() == self.members@.len(),
            forall|i: int|
                0 <= i < r@.len() ==> #[trigger] r@[i] == (
                    self.members@[i],
                    self.signatures_of(proposal_id).contains(self.members@[i]),
                ),
    {
        let signatures = self.get_proposal_signatures(proposal_id);
        let mut response: Vec<(Address, bool)> = Vec::new();
        let mut i: usize = 0;
        while i < self.members.len()
            invariant
                0 <= i <= self.members@.len(),
                signatures@ == self.signatures_of(proposal_id),
                response@.len() == i,
                forall|k: int|
                    0 <= k < i ==> #[trigger] response@[k] == (
                        self.members@[k],
                        self.signatures_of(proposal_id).contains(self.members@[k]),
                    ),
            decreases self.members@.len() - i,
        {
            let member = self.members[i];
            let signed = contains_address(&signatures, member);
            response.push((member, signed));
            i = i + 1;
        }
        response
    }

    pub fn query_last_proposal_id(&self) -> (r: u64)
        ensures
            r == self.last_proposal_id,
    {
        self.last_proposal_id
    }

    /// Every stored proposal, by increasing id.
    pub fn query_all_proposals(&self) -> (r: Vec<Proposal>)
        ensures
            r@ == self.proposals@,
    {
        let mut all: Vec<Proposal> = Vec::new();
        let mut i: usize = 0;
        while i < self.proposals.len()
            invariant
                0 <= i <= self.proposals@.len(),
                all@ == self.proposals@.take(i as int),
            decreases self.proposals@.len() - i,
        {
            all.push(self.proposals[i].duplicate());
            proof {
                assert(self.proposals@.take(i + 1) =~= self.proposals@.take(i as int).push(
                    self.proposals@[i as int],
                ));
            }
            i = i + 1;
        }
        proof {
            assert(self.proposals@.take(self.proposals@.len() as int) =~= self.proposals@);
        }
        all
    }

    /// Adds `member` to the member set unless it is there already. Signature
    /// sets stay as they are: a signature recorded earlier keeps counting for
    /// the member who gave it.
    pub fn add_multisig_member(&mut self, member: Address)
        requires
            old(self).wf(),
            old(self).initialized,
            member != zero_address(),
            old(self).members@.len() < u32::MAX,
        ensures
            final(self).wf(),
            final(self).members@ == with_address(old(self).members@, member),
            final(self).initialized == old(self).initialized,
            final(self).name == old(self).name,
            final(self).description == old(self).description,
            final(self).quorum_bps == old(self).quorum_bps,
            final(self).version == old(self).version,
            final(self).last_proposal_id == old(self).last_proposal_id,
            final(self).proposals@ == old(self).proposals@,
            final(self).signatures@ == old(self).signatures@,
    {
        if !contains_address(&self.members, member) {
            self.members.push(member);
            proof {
                assert forall|a: Address| old(self).members@.contains(a) implies self.members@.contains(a) by {
                    let j = choose|j: int| 0 <= j < old(self).members@.len() && old(self).members@[j] == a;
                    assert(self.members@[j] == a);
                }
                assert forall|a: Address| self.members@.contains(a) implies (old(self).members@.contains(a) || a == member) by {
                    let j = choose|j: int| 0 <= j < self.members@.len() && self.members@[j] == a;
                    if j < old(self).members@.len() {
                        assert(old(self).members@[j] == a);
                    }
                }
            }
        }
    }

    pub fn has_member(&self, a: Address) -> (r: bool)
        ensures
            r == self.is_member(a),
    {
        contains_address(&self.members, a)
    }

    /// Counts the members who signed the proposal at index `idx`.
    fn count_signed(&self, idx: usize) -> (r: u32)
        requires
            self.wf(),
            idx < self.signatures@.len(),
        ensures
            r == signed_count(self.members@, self.signatures@[idx as int]@),
    {
        let sigs = &self.signatures[idx];
        let mut signed: u32 = 0;
        let mut i: usize = 0;
        while i < self.members.len()
            invariant
                self.wf(),
                0 <= i <= self.members@.len(),
                sigs@ == self.signatures@[idx as int]@,
                signed == signed_count(self.members@.take(i as int), sigs@),
                signed <= i,
            decreases self.members@.len() - i,
        {
            proof {
                let next = self.members@.take(i + 1);
                assert(next.drop_last() =~= self.members@.take(i as int));
                assert(next.last() == self.members@[i as int]);
            }
            if contains_address(sigs, self.members[i]) {
                signed = signed + 1;
            }
            i = i + 1;
        }
        proof {
            assert(self.members@.take(self.members@.len() as int) =~= self.members@);
        }
        signed
    }

    /// What `execute_proposal(sender, id, now)` returns and leaves as `post`.
    pub open spec fn execute_post(
        &self,
        post: &Multisig,
        sender: Address,
        id: u64,
        now: u64,
        r: Result<ProposalType, ContractError>,
    ) -> bool {
        &&& r == match self.execute_error(sender, id, now) {
            Some(e) => Err(e),
            None => Ok(self.proposal_at(id).proposal),
        }
        &&& post.same_config(self)
        &&& post.last_proposal_id == self.last_proposal_id
        &&& post.signatures@ == self.signatures@
        &&& post.proposals@ == if r is Ok || r == Err::<ProposalType, ContractError>(
            ContractError::ProposalExpired,
        ) {
            self.proposals@.update(id - 1, closed(self.proposal_at(id)))
        } else {
            self.proposals@
        }
        &&& post.version == if r is Ok && self.proposal_at(id).proposal.is_upgrade() {
            self.version + 1
        } else {
            self.version as int
        }
    }

    /// Executes proposal `proposal_id` on behalf of `sender` at time `now`.
    ///
    /// The sender must be a member, the proposal must exist and be open, `now`
    /// must not be past its expiration, and the members who signed it must
    /// reach the quorum. Then the proposal is closed (an upgrade also bumps
    /// the version) and its payload is returned for the host to perform. An
    /// expired proposal is closed and `ProposalExpired` is reported.
    pub fn execute_proposal(&mut self, sender: Address, proposal_id: u64, now: u64) -> (r: Result<
        ProposalType,
        ContractError,
    >)
        requires
            old(self).wf(),
            old(self).version < u32::MAX,
        ensures
            final(self).wf(),
            old(self).execute_post(final(self), sender, proposal_id, now, r),
    {
        if !self.has_member(sender) {
            return Err(ContractError::UnauthorizedNotAMember);
        }
        if proposal_id == 0 || proposal_id > self.proposals.len() as u64 {
            return Err(ContractError::ProposalNotFound);
        }
        let idx = (proposal_id - 1) as usize;
        let mut proposal = self.proposals[idx].duplicate();
        if let ProposalStatus::Closed = proposal.status {
            return Err(ContractError::ProposalClosed);
        }
        if now > proposal.expiration_timestamp {
            proposal.status = ProposalStatus::Closed;
            self.proposals.set(idx, proposal);
            return Err(ContractError::ProposalExpired);
        }
        let signed = self.count_signed(idx);
        if !quorum_reached(signed, self.members.len() as u32, self.quorum_bps) {
            return Err(ContractError::QuorumNotReached);
        }
        let payload = proposal.proposal.duplicate();
        if let ProposalType::UpdateContract(_) = payload {
            self.version = self.version + 1;
        }
        proposal.status = ProposalStatus::Closed;
        self.proposals.set(idx, proposal);
        Ok(payload)
    }
}

} // verus!
