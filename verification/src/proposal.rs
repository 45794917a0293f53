//! The proposal and voting engine.
//!
//! A member opens a spend proposal against a fund with no vote in flight;
//! each member may cast exactly one vote; the tally is evaluated after every
//! ballot against a fixed percentage threshold of the *current* membership.
//! A proposal resolves exactly once — approved, with an ordered transfer, or
//! rejected — and each resolution advances the fund's replay nonce by one,
//! which is what makes any other proposal stamped with an older nonce
//! permanently stale.

use vstd::prelude::*;

use crate::custody::TransferDirective;
use crate::errors::ErrorCode;
use crate::fund::{fund_wf, SquadMintFund};
use crate::ids::{contains_account, distinct_ids, holds_id, lemma_distinct_push,
    lemma_distinct_subset_len, AccountId};

verus! {

/// Percentage of the current membership whose ballots resolve a proposal,
/// for approval and rejection alike.
pub const THRESHOLD_PERCENTAGE: u64 = 51;

/// The spend request members vote on.
#[derive(Clone, Copy, Debug, PartialEq, Eq)]
pub struct TransactionMessage {
    /// Amount to release from the fund's custody.
    pub amount: u64,
    /// The member that opened the proposal.
    pub proposer_account: AccountId,
    /// The identity to be paid.
    pub proposed_to_account: AccountId,
    /// Snapshot of the fund's replay nonce at creation time; the proposal is
    /// actionable only while this equals the fund's current nonce.
    pub nonce: u64,
}

/// One proposal in flight: the request, the ballots so far, and whether a
/// terminal outcome has been reached.
#[derive(Clone, Debug)]
pub struct Transaction {
    /// Address of the fund this proposal belongs to.
    pub belongs_to_squad_mint_fund: AccountId,
    /// The members that have voted, in ballot order, pairwise distinct.
    pub executors: Vec<AccountId>,
    /// The ballots, aligned with `executors`.
    pub votes: Vec<bool>,
    /// The spend request itself.
    pub message_data: TransactionMessage,
    /// True once the proposal reached a terminal outcome; a resolved
    /// proposal accepts no further votes.
    pub resolved: bool,
}

/// What one ballot did to the proposal.
#[derive(Clone, Copy, Debug, PartialEq, Eq)]
pub enum VoteOutcome {
    /// Neither bound is reached; the proposal stays open.
    StillVoting,
    /// The yes side reached the threshold: the proposal is resolved and the
    /// carried transfer must be performed by the custody primitive.
    Approved(TransferDirective),
    /// The no side reached the threshold: resolved, and no transfer occurs.
    Rejected,
}

/// How many ballots in the sequence are `yes`.
pub open spec fn count_true(s: Seq<bool>) -> nat
    decreases s.len(),
{
    if s.len() == 0 {
        0
    } else {
        count_true(s.drop_last()) + if s.last() {
            1nat
        } else {
            0nat
        }
    }
}

/// There are never more `yes` ballots than ballots.
pub proof fn lemma_count_true_le(s: Seq<bool>)
    ensures
        count_true(s) <= s.len(),
    decreases s.len(),
{
    if s.len() > 0 {
        lemma_count_true_le(s.drop_last());
    }
}

/// One more ballot raises the `yes` count by exactly its value.
pub proof fn lemma_count_true_push(s: Seq<bool>, b: bool)
    ensures
        count_true(s.push(b)) == count_true(s) + if b {
            1nat
        } else {
            0nat
        },
{
    assert(s.push(b).drop_last() =~= s);
}

/// The approval bound: the `yes` ballots reach the threshold percentage of
/// the current membership.
pub open spec fn approved_by(votes: Seq<bool>, member_count: int) -> bool {
    100 * count_true(votes) >= THRESHOLD_PERCENTAGE * member_count
}

/// The rejection bound: the `no` ballots alone reach the same threshold
/// percentage of the current membership.
pub open spec fn rejected_by(votes: Seq<bool>, member_count: int) -> bool {
    100 * (votes.len() - count_true(votes)) >= THRESHOLD_PERCENTAGE * member_count
}

/// Count the `yes` ballots.
pub fn count_yes(votes: &Vec<bool>) -> (n: usize)
    ensures
        n == count_true(votes@),
        n <= votes@.len(),
{
    let mut n: usize = 0;
    let mut i: usize = 0;
    while i < votes.len()
        invariant
            i <= votes@.len(),
            n == count_true(votes@.take(i as int)),
            n <= i,
        decreases votes@.len() - i,
    {
        proof {
            assert(votes@.take(i + 1).drop_last() =~= votes@.take(i as int));
            assert(votes@.take(i + 1).last() == votes@[i as int]);
        }
        if votes[i] {
            n = n + 1;
        }
        i = i + 1;
    }
    proof {
        assert(votes@.take(votes@.len() as int) =~= votes@);
    }
    n
}

/// Well-formedness of a proposal: ballots align with voters, at least the
/// proposer's seed ballot is present, and no voter appears twice.
pub open spec fn tx_wf(t: Transaction) -> bool {
    &&& t.executors@.len() == t.votes@.len()
    &&& 1 <= t.executors@.len()
    &&& distinct_ids(t.executors@)
}

/// Well-formedness of a proposal against the fund it is voted under: both
/// are well-formed and every voter is a member.
pub open spec fn fund_tx_wf(f: SquadMintFund, t: Transaction) -> bool {
    &&& fund_wf(f)
    &&& tx_wf(t)
    &&& forall|i: int| 0 <= i < t.executors@.len() ==> holds_id(f.members@, t.executors@[i]@)
}

/// The single-flight lock discipline: while a proposal is live — unresolved
/// and stamped with the fund's current nonce — the fund's vote lock is held.
pub open spec fn fund_proposal_linked(f: SquadMintFund, t: Transaction) -> bool {
    (!t.resolved && t.message_data.nonce == f.master_nonce) ==> f.has_active_vote
}

/// Open a spend proposal, seeding it with the proposer's own `yes` ballot
/// and taking the fund's vote lock.
///
/// Fails with `CanOnlyInitOneVoteAtATime` while another vote is in flight,
/// with `MemberNotPartOfFund` unless the proposer is a member, and with
/// `InsufficientFunds` if the fund's custody balance cannot cover the
/// request; on failure the fund is unchanged.
pub fn create_proposal(
    fund: &mut SquadMintFund,
    fund_address: &AccountId,
    proposer: &AccountId,
    proposed_to_account: &AccountId,
    amount: u64,
    multisig_balance: u64,
) -> (r: Result<Transaction, ErrorCode>)
    requires
        fund_wf(*old(fund)),
    ensures
        fund_wf(*final(fund)),
        r is Ok <==> {
            &&& !old(fund).has_active_vote
            &&& holds_id(old(fund).members@, proposer@)
            &&& multisig_balance >= amount
        },
        match r {
            Ok(t) => {
                &&& final(fund).has_active_vote
                &&& final(fund).owner == old(fund).owner
                &&& final(fund).account_handle == old(fund).account_handle
                &&& final(fund).is_private_group == old(fund).is_private_group
                &&& final(fund).members@ == old(fund).members@
                &&& final(fund).join_amount == old(fund).join_amount
                &&& final(fund).master_nonce == old(fund).master_nonce
                &&& t.belongs_to_squad_mint_fund == *fund_address
                &&& t.message_data == (TransactionMessage {
                    amount,
                    proposer_account: *proposer,
                    proposed_to_account: *proposed_to_account,
                    nonce: old(fund).master_nonce,
                })
                &&& t.executors@.len() == 1
                &&& t.executors@[0] == *proposer
                &&& t.votes@ =~= seq![true]
                &&& !t.resolved
                &&& fund_tx_wf(*final(fund), t)
                &&& fund_proposal_linked(*final(fund), t)
            },
            Err(e) => {
                &&& *final(fund) == *old(fund)
                &&& (e is CanOnlyInitOneVoteAtATime <==> old(fund).has_active_vote)
                &&& (e is MemberNotPartOfFund <==> (!old(fund).has_active_vote && !holds_id(
                    old(fund).members@,
                    proposer@,
                )))
                &&& (e is InsufficientFunds <==> (!old(fund).has_active_vote && holds_id(
                    old(fund).members@,
                    proposer@,
                ) && multisig_balance < amount))
            },
        },
{
    if fund.has_active_vote {
        return Err(ErrorCode::CanOnlyInitOneVoteAtATime);
    }
    if !contains_account(&fund.members, proposer) {
        return Err(ErrorCode::MemberNotPartOfFund);
    }
    if multisig_balance < amount {
        return Err(ErrorCode::InsufficientFunds);
    }
    let mut executors: Vec<AccountId> = Vec::new();
    executors.push(*proposer);
    let mut votes: Vec<bool> = Vec::new();
    votes.push(true);
    let t = Transaction {
        belongs_to_squad_mint_fund: *fund_address,
        executors,
        votes,
        message_data: TransactionMessage {
            amount,
            proposer_account: *proposer,
            proposed_to_account: *proposed_to_account,
            nonce: fund.master_nonce,
        },
        resolved: false,
    };
    fund.has_active_vote = true;
    Ok(t)
}

/// Why a ballot would be refused, in the order the checks are made, or
/// `None` where the ballot goes through.
///
/// The last two cases guard resolution itself: a tally that would resolve
/// the proposal is refused outright — with no state change — where the
/// fund's nonce cannot advance, or where an approval could not be paid.
pub open spec fn cast_vote_error(
    f: SquadMintFund,
    t: Transaction,
    submitter: Seq<u8>,
    vote: bool,
    multisig_balance: u64,
) -> Option<ErrorCode> {
    let new_votes = t.votes@.push(vote);
    let m = f.members@.len() as int;
    if !f.has_active_vote {
        Some(ErrorCode::HasNoActiveVote)
    } else if t.resolved {
        Some(ErrorCode::AlreadyExecuted)
    } else if t.message_data.nonce != f.master_nonce {
        Some(ErrorCode::AlreadyExecutedInvalidNonce)
    } else if !holds_id(f.members@, submitter) {
        Some(ErrorCode::MemberNotPartOfFund)
    } else if holds_id(t.executors@, submitter) {
        Some(ErrorCode::CannotVoteTwice)
    } else if (approved_by(new_votes, m) || rejected_by(new_votes, m)) && f.master_nonce
        == u64::MAX {
        Some(ErrorCode::NonceOverflow)
    } else if approved_by(new_votes, m) && multisig_balance < t.message_data.amount {
        Some(ErrorCode::InsufficientFunds)
    } else {
        None
    }
}

/// Cast one ballot and resolve the proposal if either bound is reached.
///
/// The ballot is recorded only for a member that has not voted on this
/// proposal, and only while the proposal is unresolved and stamped with the
/// fund's current nonce. The tally is then evaluated against the threshold
/// percentage of the current membership: on approval the fund's custody is
/// ordered to pay the proposed destination, on rejection nothing is paid;
/// either resolution advances the nonce by one and releases the vote lock.
/// Any failure — a failed check, an exhausted nonce, or an approval the
/// custody balance cannot cover — leaves fund and proposal untouched, so a
/// corrected retry of the same call is always safe.
pub fn submit_and_execute(
    fund: &mut SquadMintFund,
    transaction: &mut Transaction,
    submitter: &AccountId,
    vote: bool,
    multisig_balance: u64,
) -> (r: Result<VoteOutcome, ErrorCode>)
    requires
        fund_tx_wf(*old(fund), *old(transaction)),
    ensures
        fund_tx_wf(*final(fund), *final(transaction)),
        fund_proposal_linked(*old(fund), *old(transaction)) ==> fund_proposal_linked(
            *final(fund),
            *final(transaction),
        ),
        r is Err <==> cast_vote_error(
            *old(fund),
            *old(transaction),
            submitter@,
            vote,
            multisig_balance,
        ) is Some,
        match r {
            Err(e) => {
                &&& Some(e) == cast_vote_error(
                    *old(fund),
                    *old(transaction),
                    submitter@,
                    vote,
                    multisig_balance,
                )
                &&& *final(fund) == *old(fund)
                &&& *final(transaction) == *old(transaction)
            },
            Ok(outcome) => {
                let new_votes = old(transaction).votes@.push(vote);
                let m = old(fund).members@.len() as int;
                &&& final(transaction).executors@ == old(transaction).executors@.push(*submitter)
                &&& final(transaction).votes@ == new_votes
                &&& final(transaction).message_data == old(transaction).message_data
                &&& final(transaction).belongs_to_squad_mint_fund == old(
                    transaction,
                ).belongs_to_squad_mint_fund
                &&& final(fund).owner == old(fund).owner
                &&& final(fund).account_handle == old(fund).account_handle
                &&& final(fund).is_private_group == old(fund).is_private_group
                &&& final(fund).members@ == old(fund).members@
                &&& final(fund).join_amount == old(fund).join_amount
                &&& (outcome is Approved <==> approved_by(new_votes, m))
                &&& (outcome is Rejected <==> (!approved_by(new_votes, m) && rejected_by(
                    new_votes,
                    m,
                )))
                &&& (outcome is StillVoting <==> (!approved_by(new_votes, m) && !rejected_by(
                    new_votes,
                    m,
                )))
                &&& match outcome {
                    VoteOutcome::StillVoting => {
                        &&& !final(transaction).resolved
                        &&& final(fund).has_active_vote
                        &&& final(fund).master_nonce == old(fund).master_nonce
                    },
                    VoteOutcome::Approved(d) => {
                        &&& final(transaction).resolved
                        &&& !final(fund).has_active_vote
                        &&& final(fund).master_nonce == old(fund).master_nonce + 1
                        &&& multisig_balance >= old(transaction).message_data.amount
                        &&& d == (TransferDirective {
                            from: old(transaction).belongs_to_squad_mint_fund,
                            to: old(transaction).message_data.proposed_to_account,
                            amount: old(transaction).message_data.amount,
                            authority: old(transaction).belongs_to_squad_mint_fund,
                        })
                    },
                    VoteOutcome::Rejected => {
                        &&& final(transaction).resolved
                        &&& !final(fund).has_active_vote
                        &&& final(fund).master_nonce == old(fund).master_nonce + 1
                    },
                }
            },
        },
{
    if !fund.has_active_vote {
        return Err(ErrorCode::HasNoActiveVote);
    }
    if transaction.resolved {
        return Err(ErrorCode::AlreadyExecuted);
    }
    if transaction.message_data.nonce != fund.master_nonce {
        return Err(ErrorCode::AlreadyExecutedInvalidNonce);
    }
    if !contains_account(&fund.members, submitter) {
        return Err(ErrorCode::MemberNotPartOfFund);
    }
    if contains_account(&transaction.executors, submitter) {
        return Err(ErrorCode::CannotVoteTwice);
    }
    let ghost new_votes = transaction.votes@.push(vote);
    proof {
        lemma_distinct_subset_len(transaction.executors@, fund.members@);
        lemma_count_true_le(transaction.votes@);
        lemma_count_true_push(transaction.votes@, vote);
    }
    let m = fund.members.len();
    let yes_prev = count_yes(&transaction.votes);
    let new_yes: u64 = yes_prev as u64 + if vote {
        1
    } else {
        0
    };
    let new_total: u64 = transaction.votes.len() as u64 + 1;
    let new_no: u64 = new_total - new_yes;
    let appr = 100 * new_yes >= THRESHOLD_PERCENTAGE * (m as u64);
    let rej = 100 * new_no >= THRESHOLD_PERCENTAGE * (m as u64);
    proof {
        assert(new_yes == count_true(new_votes));
        assert(new_no == new_votes.len() - count_true(new_votes));
        assert(appr == approved_by(new_votes, m as int));
        assert(rej == rejected_by(new_votes, m as int));
    }
    if (appr || rej) && fund.master_nonce == u64::MAX {
        return Err(ErrorCode::NonceOverflow);
    }
    if appr && multisig_balance < transaction.message_data.amount {
        return Err(ErrorCode::InsufficientFunds);
    }
    proof {
        lemma_distinct_push(transaction.executors@, *submitter);
    }
    transaction.executors.push(*submitter);
    transaction.votes.push(vote);
    assert forall|i: int| 0 <= i < transaction.executors@.len() implies holds_id(
        fund.members@,
        transaction.executors@[i]@,
    ) by {
        if i < transaction.executors@.len() - 1 {
            assert(transaction.executors@[i] == old(transaction).executors@[i]);
        }
    }
    if appr {
        transaction.resolved = true;
        fund.has_active_vote = false;
        fund.master_nonce = fund.master_nonce + 1;
        Ok(
            VoteOutcome::Approved(
                TransferDirective {
                    from: transaction.belongs_to_squad_mint_fund,
                    to: transaction.message_data.proposed_to_account,
                    amount: transaction.message_data.amount,
                    authority: transaction.belongs_to_squad_mint_fund,
                },
            ),
        )
    } else if rej {
        transaction.resolved = true;
        fund.has_active_vote = false;
        fund.master_nonce = fund.master_nonce + 1;
        Ok(VoteOutcome::Rejected)
    } else {
        Ok(VoteOutcome::StillVoting)
    }
}

/// Why a no-consensus closure would be refused, in the order the checks are
/// made, or `None` where it goes through.
pub open spec fn close_error(f: SquadMintFund, t: Transaction, caller: Seq<u8>) -> Option<
    ErrorCode,
> {
    if !f.has_active_vote {
        Some(ErrorCode::HasNoActiveVote)
    } else if t.resolved {
        Some(ErrorCode::AlreadyExecuted)
    } else if t.message_data.nonce != f.master_nonce {
        Some(ErrorCode::AlreadyExecutedInvalidNonce)
    } else if !holds_id(f.members@, caller) {
        Some(ErrorCode::MemberNotPartOfFund)
    } else if f.master_nonce == u64::MAX {
        Some(ErrorCode::NonceOverflow)
    } else {
        None
    }
}

/// Force-close a live proposal whose majority has become unreachable.
///
/// Any member may declare no consensus on an unresolved, current-nonce
/// proposal: it resolves as rejected with no transfer, the nonce advances by
/// one and the vote lock is released — exactly as a voted-down resolution,
/// but without recording a ballot.
pub fn declare_no_consensus(
    fund: &mut SquadMintFund,
    transaction: &mut Transaction,
    caller: &AccountId,
) -> (r: Result<(), ErrorCode>)
    requires
        fund_tx_wf(*old(fund), *old(transaction)),
    ensures
        fund_tx_wf(*final(fund), *final(transaction)),
        fund_proposal_linked(*old(fund), *old(transaction)) ==> fund_proposal_linked(
            *final(fund),
            *final(transaction),
        ),
        r is Err <==> close_error(*old(fund), *old(transaction), caller@) is Some,
        match r {
            Err(e) => {
                &&& Some(e) == close_error(*old(fund), *old(transaction), caller@)
                &&& *final(fund) == *old(fund)
                &&& *final(transaction) == *old(transaction)
            },
            Ok(()) => {
                &&& final(transaction).resolved
                &&& final(transaction).executors@ == old(transaction).executors@
                &&& final(transaction).votes@ == old(transaction).votes@
                &&& final(transaction).message_data == old(transaction).message_data
                &&& final(transaction).belongs_to_squad_mint_fund == old(
                    transaction,
                ).belongs_to_squad_mint_fund
                &&& !final(fund).has_active_vote
                &&& final(fund).master_nonce == old(fund).master_nonce + 1
                &&& final(fund).owner == old(fund).owner
                &&& final(fund).account_handle == old(fund).account_handle
                &&& final(fund).is_private_group == old(fund).is_private_group
                &&& final(fund).members@ == old(fund).members@
                &&& final(fund).join_amount == old(fund).join_amount
            },
        },
{
    if !fund.has_active_vote {
        return Err(ErrorCode::HasNoActiveVote);
    }
    if transaction.resolved {
        return Err(ErrorCode::AlreadyExecuted);
    }
    if transaction.message_data.nonce != fund.master_nonce {
        return Err(ErrorCode::AlreadyExecutedInvalidNonce);
    }
    if !contains_account(&fund.members, caller) {
        return Err(ErrorCode::MemberNotPartOfFund);
    }
    if fund.master_nonce == u64::MAX {
        return Err(ErrorCode::NonceOverflow);
    }
    transaction.resolved = true;
    fund.has_active_vote = false;
    fund.master_nonce = fund.master_nonce + 1;
    Ok(())
}

} // verus!
