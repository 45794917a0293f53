//! The join-escrow workflow.
//!
//! A prospective member deposits the fund's fixed join amount into a
//! custodial holding account scoped to the (fund, requester) pair, together
//! with a request record. The owner then either admits — the deposit moves
//! into the fund's custody and the requester becomes a member — or rejects,
//! refunding the deposit. Both outcomes close the holding account; a request
//! never outlives its resolution.

use vstd::prelude::*;

use crate::custody::{CloseDirective, TransferDirective};
use crate::errors::ErrorCode;
use crate::fund::{fund_wf, SquadMintFund, MAX_GROUP_SIZE};
use crate::ids::{account_id_eq, contains_account, holds_id, lemma_distinct_push,
    lemma_holds_id_push, AccountId};

verus! {

/// The escrow record of one pending join request: who asked to join which
/// fund, and how much is held for them.
#[derive(Clone, Copy, Debug, PartialEq, Eq)]
pub struct JoinRequestCustodialWallet {
    /// Address of the fund the requester asks to join.
    pub request_to_join_squad_mint_fund: AccountId,
    /// The prospective member.
    pub request_to_join_user: AccountId,
    /// The amount actually escrowed for this request.
    pub join_amount: u64,
}

/// Whether the escrow record matches the fund it is resolved against: right
/// fund address, right requester, and a deposit equal to the fund's current
/// join policy.
pub open spec fn join_request_matches(
    jr: JoinRequestCustodialWallet,
    fund: SquadMintFund,
    fund_address: Seq<u8>,
    joiner: Seq<u8>,
) -> bool {
    &&& jr.request_to_join_squad_mint_fund@ == fund_address
    &&& jr.request_to_join_user@ == joiner
    &&& jr.join_amount == fund.join_amount
}

/// Open a join request: record the escrow and order the deposit moved from
/// the requester into the custodial holding account.
///
/// Fails with `JoiningAmountShouldMatchTargetWallet` unless the deposit
/// equals the fund's join policy, and with `DuplicateMember` if the
/// requester already belongs to the fund; on failure nothing is escrowed.
pub fn initiate_join_request(
    fund: &SquadMintFund,
    fund_address: &AccountId,
    proposing_joiner: &AccountId,
    join_custodial_account: &AccountId,
    join_amount: u64,
) -> (r: Result<(JoinRequestCustodialWallet, TransferDirective), ErrorCode>)
    ensures
        r is Ok <==> (join_amount == fund.join_amount && !holds_id(
            fund.members@,
            proposing_joiner@,
        )),
        match r {
            Ok((jr, t)) => {
                &&& jr.request_to_join_squad_mint_fund == *fund_address
                &&& jr.request_to_join_user == *proposing_joiner
                &&& jr.join_amount == join_amount
                &&& join_request_matches(jr, *fund, fund_address@, proposing_joiner@)
                &&& t == (TransferDirective {
                    from: *proposing_joiner,
                    to: *join_custodial_account,
                    amount: join_amount,
                    authority: *proposing_joiner,
                })
            },
            Err(e) => {
                &&& (e is JoiningAmountShouldMatchTargetWallet <==> join_amount
                    != fund.join_amount)
                &&& (e is DuplicateMember <==> (join_amount == fund.join_amount && holds_id(
                    fund.members@,
                    proposing_joiner@,
                )))
            },
        },
{
    if join_amount != fund.join_amount {
        return Err(ErrorCode::JoiningAmountShouldMatchTargetWallet);
    }
    if contains_account(&fund.members, proposing_joiner) {
        return Err(ErrorCode::DuplicateMember);
    }
    let jr = JoinRequestCustodialWallet {
        request_to_join_squad_mint_fund: *fund_address,
        request_to_join_user: *proposing_joiner,
        join_amount,
    };
    let t = TransferDirective {
        from: *proposing_joiner,
        to: *join_custodial_account,
        amount: join_amount,
        authority: *proposing_joiner,
    };
    Ok((jr, t))
}

/// The validation shared by admission and rejection of a join request.
///
/// `check_capacity` is set for admission, which grows the membership; a
/// refusal never does, so it skips the bound.
pub open spec fn resolve_join_error(
    fund: SquadMintFund,
    fund_address: Seq<u8>,
    acting_owner: Seq<u8>,
    joiner: Seq<u8>,
    jr: JoinRequestCustodialWallet,
    check_capacity: bool,
) -> Option<ErrorCode> {
    if !fund.is_private_group {
        Some(ErrorCode::OperationOnlyApplicableToPrivateGroupFund)
    } else if check_capacity && fund.members@.len() >= MAX_GROUP_SIZE {
        Some(ErrorCode::MaxMembersReached)
    } else if acting_owner != fund.owner@ {
        Some(ErrorCode::CannotAddMember)
    } else if holds_id(fund.members@, joiner) {
        Some(ErrorCode::DuplicateMember)
    } else if !join_request_matches(jr, fund, fund_address, joiner) {
        Some(ErrorCode::InvalidJoinRequest)
    } else {
        None
    }
}

/// Admit the requester: move the escrowed deposit into the fund's custody,
/// append them to the membership, and close the emptied holding account.
///
/// Validation and state change are one atomic step: on any failure the fund
/// is unchanged and no custody movement is ordered.
pub fn add_member(
    fund: &mut SquadMintFund,
    fund_address: &AccountId,
    acting_owner: &AccountId,
    proposing_joiner: &AccountId,
    join_request: &JoinRequestCustodialWallet,
    join_custodial_account: &AccountId,
    fee_payer: &AccountId,
) -> (r: Result<(TransferDirective, CloseDirective), ErrorCode>)
    requires
        fund_wf(*old(fund)),
    ensures
        fund_wf(*final(fund)),
        r is Ok <==> resolve_join_error(
            *old(fund),
            fund_address@,
            acting_owner@,
            proposing_joiner@,
            *join_request,
            true,
        ) is None,
        match r {
            Ok((t, c)) => {
                &&& final(fund).members@ == old(fund).members@.push(*proposing_joiner)
                &&& final(fund).owner == old(fund).owner
                &&& final(fund).account_handle == old(fund).account_handle
                &&& final(fund).has_active_vote == old(fund).has_active_vote
                &&& final(fund).is_private_group == old(fund).is_private_group
                &&& final(fund).join_amount == old(fund).join_amount
                &&& final(fund).master_nonce == old(fund).master_nonce
                &&& t == (TransferDirective {
                    from: *join_custodial_account,
                    to: *fund_address,
                    amount: join_request.join_amount,
                    authority: *join_custodial_account,
                })
                &&& c == (CloseDirective {
                    account: *join_custodial_account,
                    authority: *join_custodial_account,
                    rent_recipient: *fee_payer,
                })
            },
            Err(e) => {
                &&& *final(fund) == *old(fund)
                &&& Some(e) == resolve_join_error(
                    *old(fund),
                    fund_address@,
                    acting_owner@,
                    proposing_joiner@,
                    *join_request,
                    true,
                )
            },
        },
{
    if !fund.is_private_group {
        return Err(ErrorCode::OperationOnlyApplicableToPrivateGroupFund);
    }
    if fund.members.len() >= MAX_GROUP_SIZE {
        return Err(ErrorCode::MaxMembersReached);
    }
    if !account_id_eq(acting_owner, &fund.owner) {
        return Err(ErrorCode::CannotAddMember);
    }
    if contains_account(&fund.members, proposing_joiner) {
        return Err(ErrorCode::DuplicateMember);
    }
    if !account_id_eq(&join_request.request_to_join_squad_mint_fund, fund_address)
        || !account_id_eq(&join_request.request_to_join_user, proposing_joiner)
        || join_request.join_amount != fund.join_amount {
        return Err(ErrorCode::InvalidJoinRequest);
    }
    proof {
        lemma_distinct_push(fund.members@, *proposing_joiner);
        lemma_holds_id_push(fund.members@, *proposing_joiner, fund.owner@);
    }
    fund.members.push(*proposing_joiner);
    let t = TransferDirective {
        from: *join_custodial_account,
        to: *fund_address,
        amount: join_request.join_amount,
        authority: *join_custodial_account,
    };
    let c = CloseDirective {
        account: *join_custodial_account,
        authority: *join_custodial_account,
        rent_recipient: *fee_payer,
    };
    Ok((t, c))
}

/// Reject the requester: refund the escrowed deposit to them and close the
/// holding account. The membership is never touched.
///
/// Validation mirrors admission, except that a refusal does not grow the
/// membership and so ignores the capacity bound.
pub fn reject_member(
    fund: &SquadMintFund,
    fund_address: &AccountId,
    acting_owner: &AccountId,
    proposing_joiner: &AccountId,
    join_request: &JoinRequestCustodialWallet,
    join_custodial_account: &AccountId,
    fee_payer: &AccountId,
) -> (r: Result<(TransferDirective, CloseDirective), ErrorCode>)
    ensures
        r is Ok <==> resolve_join_error(
            *fund,
            fund_address@,
            acting_owner@,
            proposing_joiner@,
            *join_request,
            false,
        ) is None,
        match r {
            Ok((t, c)) => {
                &&& t == (TransferDirective {
                    from: *join_custodial_account,
                    to: *proposing_joiner,
                    amount: join_request.join_amount,
                    authority: *join_custodial_account,
                })
                &&& c == (CloseDirective {
                    account: *join_custodial_account,
                    authority: *join_custodial_account,
                    rent_recipient: *fee_payer,
                })
            },
            Err(e) => Some(e) == resolve_join_error(
                *fund,
                fund_address@,
                acting_owner@,
                proposing_joiner@,
                *join_request,
                false,
            ),
        },
{
    if !fund.is_private_group {
        return Err(ErrorCode::OperationOnlyApplicableToPrivateGroupFund);
    }
    if !account_id_eq(acting_owner, &fund.owner) {
        return Err(ErrorCode::CannotAddMember);
    }
    if contains_account(&fund.members, proposing_joiner) {
        return Err(ErrorCode::DuplicateMember);
    }
    if !account_id_eq(&join_request.request_to_join_squad_mint_fund, fund_address)
        || !account_id_eq(&join_request.request_to_join_user, proposing_joiner)
        || join_request.join_amount != fund.join_amount {
        return Err(ErrorCode::InvalidJoinRequest);
    }
    let t = TransferDirective {
        from: *join_custodial_account,
        to: *proposing_joiner,
        amount: join_request.join_amount,
        authority: *join_custodial_account,
    };
    let c = CloseDirective {
        account: *join_custodial_account,
        authority: *join_custodial_account,
        rent_recipient: *fee_payer,
    };
    Ok((t, c))
}

} // verus!
