//! The error taxonomy of the governance engine.
//!
//! Every operation either commits in full or fails with one of these codes
//! and leaves all state untouched. All codes are locally recoverable — the
//! caller may simply retry with corrected inputs — except `NonceOverflow`,
//! which marks a fund whose replay counter is exhausted and which can
//! therefore never resolve another proposal.

use vstd::prelude::*;

verus! {

/// Why a governance action was rejected.
#[derive(Clone, Copy, Debug, PartialEq, Eq, Structural)]
pub enum ErrorCode {
    /// A fund handle was empty or longer than the bound.
    HandleLenNotValid,
    /// Admission would grow the membership beyond the bound.
    MaxMembersReached,
    /// The identity is already a member of the fund.
    DuplicateMember,
    /// The identity is not a member of the fund.
    MemberNotPartOfFund,
    /// A non-owner attempted an owner-only membership action.
    CannotAddMember,
    /// A membership action was attempted on a fund that is not group-gated.
    OperationOnlyApplicableToPrivateGroupFund,
    /// A vote was cast against a fund with no proposal in flight.
    HasNoActiveVote,
    /// A proposal was opened while another one was still in flight.
    CanOnlyInitOneVoteAtATime,
    /// The proposal already reached a terminal outcome.
    AlreadyExecuted,
    /// The proposal's nonce snapshot no longer matches the fund's counter.
    AlreadyExecutedInvalidNonce,
    /// The fund's replay counter cannot be advanced any further.
    NonceOverflow,
    /// The voter already appears in the proposal's voter list.
    CannotVoteTwice,
    /// A caller-supplied address does not match its expected derivation.
    InvalidDestinationOwner,
    /// The fund's custody balance is below the requested amount.
    InsufficientFunds,
    /// The proposed join amount does not exceed the minimum floor.
    InsufficientJoiningAmount,
    /// The deposited amount differs from the fund's join policy.
    JoiningAmountShouldMatchTargetWallet,
    /// The escrow record does not match the claimed fund, requester and amount.
    InvalidJoinRequest,
}

} // verus!
