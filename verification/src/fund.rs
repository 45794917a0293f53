//! The fund registry: creation of a governed treasury and direct membership
//! administration by its owner.

use vstd::prelude::*;

use crate::errors::ErrorCode;
use crate::ids::{account_id_eq, contains_account, distinct_ids, holds_id, lemma_distinct_push,
    lemma_holds_id_push, AccountId};

verus! {

/// Longest permitted fund handle, in bytes.
pub const MAX_HANDLE_SIZE: usize = 15;

/// Largest permitted membership of a group fund, the owner included.
pub const MAX_GROUP_SIZE: usize = 15;

/// Minimum deposit policy: a fund's join amount must strictly exceed this floor.
pub const MIN_JOIN_AMOUNT: u64 = 100000;

/// The governed treasury entity: membership, join policy, the single-flight
/// vote lock and the replay nonce.
///
/// The fund's pooled balance itself lives with the custody primitive; the
/// engine reads it as a plain value where a decision depends on it.
#[derive(Clone, Debug)]
pub struct SquadMintFund {
    /// The identity that created the fund; sole authority to admit or reject
    /// members.
    pub owner: AccountId,
    /// Short human-readable label, immutable after creation; also a seed of
    /// the fund's derived address.
    pub account_handle: Vec<u8>,
    /// True while a proposal is open; enforces one proposal in flight.
    pub has_active_vote: bool,
    /// Whether membership is gated behind the join-escrow workflow.
    pub is_private_group: bool,
    /// The voting members, owner first, pairwise distinct, bounded.
    pub members: Vec<AccountId>,
    /// Fixed deposit required to request membership.
    pub join_amount: u64,
    /// Monotonic counter, advanced exactly once per resolved proposal.
    pub master_nonce: u64,
}

/// Well-formedness of a fund: what `initialize` establishes and every
/// operation preserves.
pub open spec fn fund_wf(f: SquadMintFund) -> bool {
    &&& 1 <= f.members@.len() <= MAX_GROUP_SIZE
    &&& distinct_ids(f.members@)
    &&& f.members@[0]@ == f.owner@
    &&& 1 <= f.account_handle@.len() <= MAX_HANDLE_SIZE
    &&& f.join_amount > MIN_JOIN_AMOUNT
}

/// Create a fund owned by `owner`, with the owner as its only member, no
/// vote in flight and the replay nonce at zero.
pub fn initialize(owner: AccountId, account_handle: Vec<u8>, join_amount: u64) -> (r: Result<
    SquadMintFund,
    ErrorCode,
>)
    ensures
        r is Ok <==> (1 <= account_handle@.len() <= MAX_HANDLE_SIZE && join_amount
            > MIN_JOIN_AMOUNT),
        match r {
            Ok(f) => {
                &&& f.owner@ == owner@
                &&& f.account_handle@ == account_handle@
                &&& !f.has_active_vote
                &&& f.is_private_group
                &&& f.members@.len() == 1
                &&& f.members@[0]@ == owner@
                &&& f.join_amount == join_amount
                &&& f.master_nonce == 0
                &&& fund_wf(f)
            },
            Err(e) => {
                &&& (e is HandleLenNotValid <==> (account_handle@.len() == 0 || account_handle@.len()
                    > MAX_HANDLE_SIZE))
                &&& (e is InsufficientJoiningAmount <==> (1 <= account_handle@.len()
                    <= MAX_HANDLE_SIZE && join_amount <= MIN_JOIN_AMOUNT))
                &&& (e is HandleLenNotValid || e is InsufficientJoiningAmount)
            },
        },
{
    if account_handle.len() == 0 || account_handle.len() > MAX_HANDLE_SIZE {
        return Err(ErrorCode::HandleLenNotValid);
    }
    if join_amount <= MIN_JOIN_AMOUNT {
        return Err(ErrorCode::InsufficientJoiningAmount);
    }
    let mut members: Vec<AccountId> = Vec::new();
    members.push(owner);
    Ok(
        SquadMintFund {
            owner,
            account_handle,
            has_active_vote: false,
            is_private_group: true,
            members,
            join_amount,
            master_nonce: 0,
        },
    )
}

/// Direct admission by owner fiat, bypassing the join-escrow workflow
/// (escrowed admission is `crate::escrow::add_member`).
///
/// Fails unless the fund is group-gated, has room, the caller is the owner
/// and the identity is new; on success appends `new_member` and changes
/// nothing else.
pub fn add_member_direct(fund: &mut SquadMintFund, acting_owner: &AccountId, new_member: &AccountId) -> (r:
    Result<(), ErrorCode>)
    requires
        fund_wf(*old(fund)),
    ensures
        fund_wf(*final(fund)),
        r is Ok <==> {
            &&& old(fund).is_private_group
            &&& old(fund).members@.len() < MAX_GROUP_SIZE
            &&& acting_owner@ == old(fund).owner@
            &&& !holds_id(old(fund).members@, new_member@)
        },
        match r {
            Ok(()) => {
                &&& final(fund).members@ == old(fund).members@.push(*new_member)
                &&& final(fund).owner == old(fund).owner
                &&& final(fund).account_handle == old(fund).account_handle
                &&& final(fund).has_active_vote == old(fund).has_active_vote
                &&& final(fund).is_private_group == old(fund).is_private_group
                &&& final(fund).join_amount == old(fund).join_amount
                &&& final(fund).master_nonce == old(fund).master_nonce
            },
            Err(e) => {
                &&& *final(fund) == *old(fund)
                &&& (e is OperationOnlyApplicableToPrivateGroupFund <==> !old(
                    fund,
                ).is_private_group)
                &&& (e is MaxMembersReached <==> (old(fund).is_private_group && old(
                    fund,
                ).members@.len() >= MAX_GROUP_SIZE))
                &&& (e is CannotAddMember <==> (old(fund).is_private_group && old(
                    fund,
                ).members@.len() < MAX_GROUP_SIZE && acting_owner@ != old(fund).owner@))
                &&& (e is DuplicateMember <==> (old(fund).is_private_group && old(
                    fund,
                ).members@.len() < MAX_GROUP_SIZE && acting_owner@ == old(fund).owner@ && holds_id(
                    old(fund).members@,
                    new_member@,
                )))
            },
        },
{
    if !fund.is_private_group {
        return Err(ErrorCode::OperationOnlyApplicableToPrivateGroupFund);
    }
    if fund.members.len() >= MAX_GROUP_SIZE {
        return Err(ErrorCode::MaxMembersReached);
    }
    if !account_id_eq(acting_owner, &fund.owner) {
        return Err(ErrorCode::CannotAddMember);
    }
    if contains_account(&fund.members, new_member) {
        return Err(ErrorCode::DuplicateMember);
    }
    proof {
        lemma_distinct_push(fund.members@, *new_member);
        lemma_holds_id_push(fund.members@, *new_member, fund.owner@);
    }
    fund.members.push(*new_member);
    Ok(())
}

} // verus!
