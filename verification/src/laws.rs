//! The engine's governing properties, stated on their own.
//!
//! Most of what the engine guarantees is carried by the operations'
//! `ensures` clauses — a failed action changes nothing, a resolution
//! advances the nonce by exactly one, the vote lock is taken and released
//! where it must be. The laws here state the system-wide shapes that follow
//! from those contracts, so a reader finds them written down rather than
//! having to derive them.

use vstd::prelude::*;

use crate::fund::{fund_wf, SquadMintFund, MAX_GROUP_SIZE};
use crate::ids::distinct_ids;
use crate::proposal::{approved_by, count_true, fund_proposal_linked, rejected_by, tx_wf,
    Transaction, THRESHOLD_PERCENTAGE};

verus! {

/// Membership bound: a well-formed fund never has more members than the
/// bound, whatever sequence of admissions produced it — `initialize`
/// establishes well-formedness and every admission preserves it, refusing
/// the admission that would exceed the bound with `MaxMembersReached`.
pub proof fn lemma_membership_bound(f: SquadMintFund)
    requires
        fund_wf(f),
    ensures
        f.members@.len() <= MAX_GROUP_SIZE,
{
}

/// A proposal is *live* while it is unresolved and stamped with the fund's
/// current nonce: exactly the proposals a ballot can still act on.
pub open spec fn proposal_live(f: SquadMintFund, t: Transaction) -> bool {
    &&& !t.resolved
    &&& t.message_data.nonce == f.master_nonce
}

/// Single active proposal, part one: under the lock discipline that
/// `create_proposal` establishes and every ballot preserves, a live
/// proposal holds the fund's vote lock — so `create_proposal` refuses to
/// open a second one with `CanOnlyInitOneVoteAtATime`.
pub proof fn lemma_live_proposal_locks(f: SquadMintFund, t: Transaction)
    requires
        fund_proposal_linked(f, t),
        proposal_live(f, t),
    ensures
        f.has_active_vote,
{
}

/// Single active proposal, part two: any two live proposals of one fund
/// carry the same nonce snapshot. The substrate stores a fund's proposal
/// record at the address derived from the fund and that snapshot, so equal
/// snapshots name the same account: at most one proposal is live at a time.
pub proof fn lemma_single_active_proposal(f: SquadMintFund, t1: Transaction, t2: Transaction)
    requires
        proposal_live(f, t1),
        proposal_live(f, t2),
    ensures
        t1.message_data.nonce == t2.message_data.nonce,
        t1.message_data.nonce == f.master_nonce,
{
}

/// No double voting: in a well-formed proposal an identity appears at most
/// once among the voters.
pub proof fn lemma_no_double_vote(t: Transaction, id: Seq<u8>)
    requires
        tx_wf(t),
    ensures
        forall|i: int, j: int|
            (0 <= i < t.executors@.len() && 0 <= j < t.executors@.len() && t.executors@[i]@ == id
                && t.executors@[j]@ == id) ==> i == j,
{
    assert(distinct_ids(t.executors@));
}

/// The two resolution bounds are mutually exclusive: as long as there are
/// no more ballots than members, no tally reaches the threshold percentage
/// for `yes` and for `no` at once.
pub proof fn lemma_thresholds_exclusive(votes: Seq<bool>, member_count: int)
    requires
        1 <= member_count,
        votes.len() <= member_count,
    ensures
        !(approved_by(votes, member_count) && rejected_by(votes, member_count)),
{
    crate::proposal::lemma_count_true_le(votes);
    if approved_by(votes, member_count) && rejected_by(votes, member_count) {
        assert(100 * count_true(votes) + 100 * (votes.len() - count_true(votes)) == 100
            * votes.len());
        assert(100 * votes.len() >= 2 * THRESHOLD_PERCENTAGE * member_count);
        assert(100 * votes.len() <= 100 * member_count);
        assert(false);
    }
}

} // verus!
