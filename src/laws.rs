//! Properties that hold across operations of the vault, proved from the
//! operations' own contracts.

use vstd::prelude::*;

use crate::address::{zero_address, Address};
use crate::contract::{closed, members_error, signed_count, Multisig};
use crate::error::ContractError;
use crate::quorum::quorum_met;
use crate::storage::{ProposalStatus, ProposalType};

verus! {

/// Initialization succeeds exactly once: on a fresh vault with a non-empty
/// member list free of the null identity, a name of at most 64 and a
/// description of at most 256 characters and a quorum in (100, 10000] basis
/// points it succeeds; a second call with a valid member list then fails with
/// `AlreadyInitialized` and leaves the stored configuration and members as
/// they were.
pub proof fn law_initialize_once(
    s0: Multisig,
    s1: Multisig,
    s2: Multisig,
    name: String,
    description: String,
    members: Seq<Address>,
    quorum_bps: u32,
    r1: Result<(), ContractError>,
    name2: String,
    description2: String,
    members2: Seq<Address>,
    quorum_bps2: Option<u32>,
    r2: Result<(), ContractError>,
)
    requires
        s0.wf(),
        !s0.initialized,
        members.len() > 0,
        !members.contains(zero_address()),
        name@.len() <= 64,
        description@.len() <= 256,
        100 < quorum_bps <= 10000,
        s0.initialize_post(&s1, name, description, members, Some(quorum_bps), r1),
        members2.len() > 0,
        !members2.contains(zero_address()),
        s1.initialize_post(&s2, name2, description2, members2, quorum_bps2, r2),
    ensures
        r1 is Ok,
        s1.initialized,
        r2 == Err::<(), ContractError>(ContractError::AlreadyInitialized),
        s2.unchanged(&s1),
{
    assert(members_error(members) is None);
    assert(members_error(members2) is None);
}

/// Proposal ids start at 1 and strictly increase, whatever the kind of
/// proposal: a stored proposal gets the id after the last one, which is
/// larger than every id already stored, and becomes the last id.
pub proof fn law_ids_increase(
    s0: Multisig,
    s1: Multisig,
    sender: Address,
    kind: ProposalType,
    now: u64,
    expiration_date: Option<u64>,
)
    requires
        s0.wf(),
        s0.last_proposal_id < u64::MAX,
        s1.stored_new(&s0, s0.new_proposal(sender, kind, now, expiration_date)),
    ensures
        s1.proposal_at(s1.last_proposal_id).id == s0.last_proposal_id + 1,
        s1.last_proposal_id == s0.last_proposal_id + 1,
        s0.last_proposal_id == 0 ==> s1.proposal_at(s1.last_proposal_id).id == 1,
        forall|i: int|
            0 <= i < s0.proposals@.len() ==> #[trigger] s0.proposals@[i].id < s1.proposal_at(
                s1.last_proposal_id,
            ).id,
{
    let p = s0.new_proposal(sender, kind, now, expiration_date);
    assert(s1.proposals@[s1.proposals@.len() - 1] == p);
}

/// Signing by a non-member always fails with `UnauthorizedNotAMember` and
/// leaves every signature set as it was.
pub proof fn law_non_member_cannot_sign(
    s0: Multisig,
    s1: Multisig,
    sender: Address,
    id: u64,
    r: Result<(), ContractError>,
)
    requires
        s0.wf(),
        !s0.is_member(sender),
        s0.sign_post(&s1, sender, id, r),
    ensures
        r == Err::<(), ContractError>(ContractError::UnauthorizedNotAMember),
        s1.signatures@ == s0.signatures@,
        forall|j: u64| #[trigger] s1.signatures_of(j) == s0.signatures_of(j),
{
}

/// Executing an open proposal by a member succeeds exactly when `now` is not
/// past its expiration and `signed * 10000 >= quorum_bps * members`. On
/// success the proposal is closed, and a repeated execution by any member at
/// any time fails with `ProposalClosed`.
pub proof fn law_execute_iff_quorum_in_time(
    s0: Multisig,
    s1: Multisig,
    s2: Multisig,
    sender: Address,
    id: u64,
    now: u64,
    r1: Result<ProposalType, ContractError>,
    sender2: Address,
    now2: u64,
    r2: Result<ProposalType, ContractError>,
)
    requires
        s0.wf(),
        s0.is_member(sender),
        s0.has_proposal(id),
        s0.proposal_at(id).status == ProposalStatus::Open,
        s0.execute_post(&s1, sender, id, now, r1),
        s1.is_member(sender2),
        s1.execute_post(&s2, sender2, id, now2, r2),
    ensures
        r1 is Ok <==> (now <= s0.proposal_at(id).expiration_timestamp && quorum_met(
            signed_count(s0.members@, s0.signatures_of(id)) as int,
            s0.members@.len() as int,
            s0.quorum_bps as int,
        )),
        r1 is Ok ==> s1.proposal_at(id).status == ProposalStatus::Closed,
        r1 is Ok ==> r2 == Err::<ProposalType, ContractError>(ContractError::ProposalClosed),
{
    if r1 is Ok {
        assert(s1.proposals@[id - 1] == closed(s0.proposal_at(id)));
    }
}

/// Executing an open proposal after its expiration closes it and reports
/// `ProposalExpired`, even when its signatures reach the quorum.
pub proof fn law_expired_execution_closes(
    s0: Multisig,
    s1: Multisig,
    sender: Address,
    id: u64,
    now: u64,
    r: Result<ProposalType, ContractError>,
)
    requires
        s0.wf(),
        s0.is_member(sender),
        s0.has_proposal(id),
        s0.proposal_at(id).status == ProposalStatus::Open,
        now > s0.proposal_at(id).expiration_timestamp,
        s0.execute_post(&s1, sender, id, now, r),
    ensures
        r == Err::<ProposalType, ContractError>(ContractError::ProposalExpired),
        s1.proposal_at(id).status == ProposalStatus::Closed,
        s1.proposal_at(id) == closed(s0.proposal_at(id)),
{
    assert(s1.proposals@[id - 1] == closed(s0.proposal_at(id)));
}

/// Executing an upgrade proposal raises the version by exactly one;
/// executing a transfer proposal, or failing to execute, leaves it as it was.
pub proof fn law_version_counts_upgrades(
    s0: Multisig,
    s1: Multisig,
    sender: Address,
    id: u64,
    now: u64,
    r: Result<ProposalType, ContractError>,
)
    requires
        s0.wf(),
        s0.execute_post(&s1, sender, id, now, r),
    ensures
        r matches Ok(ProposalType::UpdateContract(_)) ==> s1.version == s0.version + 1,
        r matches Ok(ProposalType::Transaction(_)) ==> s1.version == s0.version,
        r is Err ==> s1.version == s0.version,
{
}

} // verus!
