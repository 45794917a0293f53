//! End-to-end tests of the governance state machine: fund creation,
//! membership, the join-escrow workflow, and the proposal/voting engine.

use squad_mint_multi_sig::custody::TransferDirective;
use squad_mint_multi_sig::errors::ErrorCode;
use squad_mint_multi_sig::escrow;
use squad_mint_multi_sig::fund::{add_member_direct, initialize, SquadMintFund};
use squad_mint_multi_sig::ids::AccountId;
use squad_mint_multi_sig::proposal::{
    create_proposal, declare_no_consensus, submit_and_execute, Transaction, TransactionMessage,
    VoteOutcome,
};

fn id(n: u8) -> AccountId {
    AccountId { bytes: [n; 32] }
}

fn two_member_fund() -> (SquadMintFund, AccountId, AccountId) {
    let owner = id(1);
    let member = id(2);
    let mut fund = initialize(owner, b"squad".to_vec(), 200000).unwrap();
    add_member_direct(&mut fund, &owner, &member).unwrap();
    (fund, owner, member)
}

#[test]
fn initialize_sets_initial_state() {
    let owner = id(1);
    let fund = initialize(owner, b"my_squad".to_vec(), 200000).unwrap();
    assert_eq!(fund.owner, owner);
    assert_eq!(fund.account_handle, b"my_squad".to_vec());
    assert!(!fund.has_active_vote);
    assert!(fund.is_private_group);
    assert_eq!(fund.members, vec![owner]);
    assert_eq!(fund.join_amount, 200000);
    assert_eq!(fund.master_nonce, 0);
}

#[test]
fn initialize_rejects_bad_handles() {
    assert_eq!(
        initialize(id(1), Vec::new(), 200000).unwrap_err(),
        ErrorCode::HandleLenNotValid
    );
    assert_eq!(
        initialize(id(1), vec![b'x'; 16], 200000).unwrap_err(),
        ErrorCode::HandleLenNotValid
    );
    // Fifteen bytes is still within the bound.
    assert!(initialize(id(1), vec![b'x'; 15], 200000).is_ok());
}

#[test]
fn initialize_rejects_low_join_amount() {
    // The join amount must strictly exceed the floor.
    assert_eq!(
        initialize(id(1), b"squad".to_vec(), 100000).unwrap_err(),
        ErrorCode::InsufficientJoiningAmount
    );
    assert!(initialize(id(1), b"squad".to_vec(), 100001).is_ok());
}

#[test]
fn add_member_direct_appends_member() {
    let owner = id(1);
    let mut fund = initialize(owner, b"squad".to_vec(), 200000).unwrap();
    add_member_direct(&mut fund, &owner, &id(2)).unwrap();
    assert_eq!(fund.members, vec![owner, id(2)]);
}

#[test]
fn add_member_direct_requires_owner() {
    let (mut fund, _owner, member) = two_member_fund();
    let before = fund.members.clone();
    assert_eq!(
        add_member_direct(&mut fund, &member, &id(9)).unwrap_err(),
        ErrorCode::CannotAddMember
    );
    assert_eq!(fund.members, before);
}

#[test]
fn add_member_direct_rejects_duplicate() {
    let (mut fund, owner, member) = two_member_fund();
    assert_eq!(
        add_member_direct(&mut fund, &owner, &member).unwrap_err(),
        ErrorCode::DuplicateMember
    );
    assert_eq!(fund.members.len(), 2);
}

#[test]
fn add_member_direct_requires_private_group() {
    let (mut fund, owner, _) = two_member_fund();
    fund.is_private_group = false;
    assert_eq!(
        add_member_direct(&mut fund, &owner, &id(9)).unwrap_err(),
        ErrorCode::OperationOnlyApplicableToPrivateGroupFund
    );
}

#[test]
fn membership_bound_sixteenth_admission_fails() {
    let owner = id(1);
    let mut fund = initialize(owner, b"squad".to_vec(), 200000).unwrap();
    for n in 2..=15 {
        add_member_direct(&mut fund, &owner, &id(n)).unwrap();
    }
    assert_eq!(fund.members.len(), 15);
    // The sixteenth distinct admission always fails, by either path.
    assert_eq!(
        add_member_direct(&mut fund, &owner, &id(16)).unwrap_err(),
        ErrorCode::MaxMembersReached
    );
    let jr = escrow::JoinRequestCustodialWallet {
        request_to_join_squad_mint_fund: id(100),
        request_to_join_user: id(16),
        join_amount: 200000,
    };
    assert_eq!(
        escrow::add_member(&mut fund, &id(100), &owner, &id(16), &jr, &id(101), &id(102))
            .unwrap_err(),
        ErrorCode::MaxMembersReached
    );
    assert_eq!(fund.members.len(), 15);
}

#[test]
fn happy_path_approve() {
    // Fund with owner O and joinAmount 200000; A joins via escrow; O proposes
    // paying 150000 to D; O is an automatic yes, A votes yes: 100% >= 51%,
    // the fund pays D, the nonce becomes 1 and the vote lock is released.
    let owner = id(1);
    let joiner = id(2);
    let destination = id(3);
    let fund_address = id(10);
    let custodial = id(11);
    let fee_payer = id(12);
    let mut fund = initialize(owner, b"squad".to_vec(), 200000).unwrap();

    let (jr, deposit) =
        escrow::initiate_join_request(&fund, &fund_address, &joiner, &custodial, 200000).unwrap();
    assert_eq!(
        deposit,
        TransferDirective {
            from: joiner,
            to: custodial,
            amount: 200000,
            authority: joiner,
        }
    );
    let (escrow_move, close) =
        escrow::add_member(&mut fund, &fund_address, &owner, &joiner, &jr, &custodial, &fee_payer)
            .unwrap();
    assert_eq!(escrow_move.from, custodial);
    assert_eq!(escrow_move.to, fund_address);
    assert_eq!(escrow_move.amount, 200000);
    assert_eq!(close.account, custodial);
    assert_eq!(close.rent_recipient, fee_payer);
    assert_eq!(fund.members, vec![owner, joiner]);

    let mut tx =
        create_proposal(&mut fund, &fund_address, &owner, &destination, 150000, 200000).unwrap();
    assert!(fund.has_active_vote);
    assert_eq!(tx.executors, vec![owner]);
    assert_eq!(tx.votes, vec![true]);
    assert_eq!(tx.message_data.nonce, 0);

    let outcome = submit_and_execute(&mut fund, &mut tx, &joiner, true, 200000).unwrap();
    assert_eq!(
        outcome,
        VoteOutcome::Approved(TransferDirective {
            from: fund_address,
            to: destination,
            amount: 150000,
            authority: fund_address,
        })
    );
    assert!(tx.resolved);
    assert_eq!(fund.master_nonce, 1);
    assert!(!fund.has_active_vote);
}

#[test]
fn reject_path_tie_then_force_close() {
    // Two members split one against one: 50% on each side reaches neither
    // bound, the proposal stays open, and the tie-break closer resolves it
    // as rejected with no transfer, advancing the nonce to 1.
    let (mut fund, owner, member) = two_member_fund();
    let mut tx =
        create_proposal(&mut fund, &id(10), &owner, &id(3), 150000, 200000).unwrap();
    let outcome = submit_and_execute(&mut fund, &mut tx, &member, false, 200000).unwrap();
    assert_eq!(outcome, VoteOutcome::StillVoting);
    assert!(!tx.resolved);
    assert!(fund.has_active_vote);
    assert_eq!(fund.master_nonce, 0);

    declare_no_consensus(&mut fund, &mut tx, &member).unwrap();
    assert!(tx.resolved);
    assert!(!fund.has_active_vote);
    assert_eq!(fund.master_nonce, 1);
}

#[test]
fn stale_proposal_rejected() {
    // A proposal stamped with nonce 0 while the fund's counter has moved to
    // 1 is refused, even though it was never resolved.
    let (fund, owner, member) = two_member_fund();
    let mut stale_fund = fund;
    stale_fund.master_nonce = 1;
    stale_fund.has_active_vote = true;
    let mut tx = Transaction {
        belongs_to_squad_mint_fund: id(10),
        executors: vec![owner],
        votes: vec![true],
        message_data: TransactionMessage {
            amount: 150000,
            proposer_account: owner,
            proposed_to_account: id(3),
            nonce: 0,
        },
        resolved: false,
    };
    assert_eq!(
        submit_and_execute(&mut stale_fund, &mut tx, &member, true, 200000).unwrap_err(),
        ErrorCode::AlreadyExecutedInvalidNonce
    );
    assert!(!tx.resolved);
}

#[test]
fn duplicate_join_request_fails_before_escrow() {
    // Once admitted, a second join request from the same identity fails
    // before any new escrow transfer is ordered.
    let owner = id(1);
    let joiner = id(2);
    let fund_address = id(10);
    let custodial = id(11);
    let mut fund = initialize(owner, b"squad".to_vec(), 200000).unwrap();
    let (jr, _) =
        escrow::initiate_join_request(&fund, &fund_address, &joiner, &custodial, 200000).unwrap();
    escrow::add_member(&mut fund, &fund_address, &owner, &joiner, &jr, &custodial, &id(12))
        .unwrap();
    assert_eq!(
        escrow::initiate_join_request(&fund, &fund_address, &joiner, &custodial, 200000)
            .unwrap_err(),
        ErrorCode::DuplicateMember
    );
}

#[test]
fn join_request_amount_must_match_policy() {
    let (fund, _, _) = two_member_fund();
    assert_eq!(
        escrow::initiate_join_request(&fund, &id(10), &id(9), &id(11), 150000).unwrap_err(),
        ErrorCode::JoiningAmountShouldMatchTargetWallet
    );
}

#[test]
fn escrow_atomicity_on_failed_admission() {
    // A join request whose record does not match leaves membership and
    // escrow untouched: the admission orders no transfer and no close.
    let owner = id(1);
    let joiner = id(2);
    let fund_address = id(10);
    let mut fund = initialize(owner, b"squad".to_vec(), 200000).unwrap();
    let (mut jr, _) =
        escrow::initiate_join_request(&fund, &fund_address, &joiner, &id(11), 200000).unwrap();
    jr.join_amount = 150000;
    let before = fund.members.clone();
    assert_eq!(
        escrow::add_member(&mut fund, &fund_address, &owner, &joiner, &jr, &id(11), &id(12))
            .unwrap_err(),
        ErrorCode::InvalidJoinRequest
    );
    assert_eq!(fund.members, before);
    // Rejection validates the same way and never touches membership.
    assert_eq!(
        escrow::reject_member(&fund, &fund_address, &joiner, &joiner, &jr, &id(11), &id(12))
            .unwrap_err(),
        ErrorCode::CannotAddMember
    );
    assert_eq!(fund.members, before);
}

#[test]
fn reject_member_refunds_requester() {
    let owner = id(1);
    let joiner = id(2);
    let fund_address = id(10);
    let custodial = id(11);
    let fund = initialize(owner, b"squad".to_vec(), 200000).unwrap();
    let (jr, _) =
        escrow::initiate_join_request(&fund, &fund_address, &joiner, &custodial, 200000).unwrap();
    let (refund, close) =
        escrow::reject_member(&fund, &fund_address, &owner, &joiner, &jr, &custodial, &id(12))
            .unwrap();
    assert_eq!(
        refund,
        TransferDirective {
            from: custodial,
            to: joiner,
            amount: 200000,
            authority: custodial,
        }
    );
    assert_eq!(close.account, custodial);
    assert_eq!(fund.members, vec![owner]);
}

#[test]
fn second_proposal_while_active_fails() {
    let (mut fund, owner, _member) = two_member_fund();
    create_proposal(&mut fund, &id(10), &owner, &id(3), 150000, 200000).unwrap();
    assert_eq!(
        create_proposal(&mut fund, &id(10), &owner, &id(4), 1000, 200000).unwrap_err(),
        ErrorCode::CanOnlyInitOneVoteAtATime
    );
}

#[test]
fn proposal_requires_member_and_funds() {
    let (mut fund, _owner, _member) = two_member_fund();
    assert_eq!(
        create_proposal(&mut fund, &id(10), &id(9), &id(3), 150000, 200000).unwrap_err(),
        ErrorCode::MemberNotPartOfFund
    );
    let owner = fund.owner;
    assert_eq!(
        create_proposal(&mut fund, &id(10), &owner, &id(3), 150000, 149999).unwrap_err(),
        ErrorCode::InsufficientFunds
    );
    assert!(!fund.has_active_vote);
}

#[test]
fn double_vote_fails() {
    let (mut fund, owner, member) = two_member_fund();
    let mut tx = create_proposal(&mut fund, &id(10), &owner, &id(3), 150000, 200000).unwrap();
    // The proposer's seed ballot already counts as their vote.
    assert_eq!(
        submit_and_execute(&mut fund, &mut tx, &owner, true, 200000).unwrap_err(),
        ErrorCode::CannotVoteTwice
    );
    let outcome = submit_and_execute(&mut fund, &mut tx, &member, false, 200000).unwrap();
    assert_eq!(outcome, VoteOutcome::StillVoting);
    assert_eq!(
        submit_and_execute(&mut fund, &mut tx, &member, true, 200000).unwrap_err(),
        ErrorCode::CannotVoteTwice
    );
    assert_eq!(tx.executors, vec![owner, member]);
    assert_eq!(tx.votes, vec![true, false]);
}

#[test]
fn outsider_cannot_vote() {
    let (mut fund, owner, _member) = two_member_fund();
    let mut tx = create_proposal(&mut fund, &id(10), &owner, &id(3), 150000, 200000).unwrap();
    assert_eq!(
        submit_and_execute(&mut fund, &mut tx, &id(9), true, 200000).unwrap_err(),
        ErrorCode::MemberNotPartOfFund
    );
}

#[test]
fn vote_without_active_proposal_fails() {
    let (mut fund, owner, member) = two_member_fund();
    let mut tx = Transaction {
        belongs_to_squad_mint_fund: id(10),
        executors: vec![owner],
        votes: vec![true],
        message_data: TransactionMessage {
            amount: 150000,
            proposer_account: owner,
            proposed_to_account: id(3),
            nonce: 0,
        },
        resolved: false,
    };
    assert_eq!(
        submit_and_execute(&mut fund, &mut tx, &member, true, 200000).unwrap_err(),
        ErrorCode::HasNoActiveVote
    );
}

#[test]
fn vote_on_resolved_proposal_fails() {
    let (mut fund, owner, member) = two_member_fund();
    let mut tx = create_proposal(&mut fund, &id(10), &owner, &id(3), 150000, 200000).unwrap();
    tx.resolved = true;
    assert_eq!(
        submit_and_execute(&mut fund, &mut tx, &member, true, 200000).unwrap_err(),
        ErrorCode::AlreadyExecuted
    );
}

#[test]
fn approval_blocked_by_balance_keeps_proposal_open() {
    // A resolving yes ballot that the custody balance cannot cover aborts
    // the whole resolution: the ballot is not recorded, the proposal stays
    // open, and the same call with a sufficient balance succeeds.
    let (mut fund, owner, member) = two_member_fund();
    let mut tx = create_proposal(&mut fund, &id(10), &owner, &id(3), 150000, 200000).unwrap();
    assert_eq!(
        submit_and_execute(&mut fund, &mut tx, &member, true, 100000).unwrap_err(),
        ErrorCode::InsufficientFunds
    );
    assert!(!tx.resolved);
    assert!(fund.has_active_vote);
    assert_eq!(fund.master_nonce, 0);
    assert_eq!(tx.executors, vec![owner]);
    let outcome = submit_and_execute(&mut fund, &mut tx, &member, true, 150000).unwrap();
    assert!(matches!(outcome, VoteOutcome::Approved(_)));
}

#[test]
fn nonce_overflow_is_refused_without_state_change() {
    let (mut fund, owner, member) = two_member_fund();
    fund.master_nonce = u64::MAX;
    fund.has_active_vote = true;
    let mut tx = Transaction {
        belongs_to_squad_mint_fund: id(10),
        executors: vec![owner],
        votes: vec![true],
        message_data: TransactionMessage {
            amount: 150000,
            proposer_account: owner,
            proposed_to_account: id(3),
            nonce: u64::MAX,
        },
        resolved: false,
    };
    assert_eq!(
        submit_and_execute(&mut fund, &mut tx, &member, true, 200000).unwrap_err(),
        ErrorCode::NonceOverflow
    );
    assert_eq!(
        declare_no_consensus(&mut fund, &mut tx, &member).unwrap_err(),
        ErrorCode::NonceOverflow
    );
    assert!(!tx.resolved);
    assert!(fund.has_active_vote);
    assert_eq!(fund.master_nonce, u64::MAX);
}

#[test]
fn nonce_advances_once_per_resolution() {
    // Two proposals resolved in sequence move the counter to exactly 2.
    let (mut fund, owner, member) = two_member_fund();
    let mut tx0 = create_proposal(&mut fund, &id(10), &owner, &id(3), 1000, 200000).unwrap();
    submit_and_execute(&mut fund, &mut tx0, &member, true, 200000).unwrap();
    assert_eq!(fund.master_nonce, 1);
    let mut tx1 = create_proposal(&mut fund, &id(10), &owner, &id(4), 2000, 200000).unwrap();
    assert_eq!(tx1.message_data.nonce, 1);
    submit_and_execute(&mut fund, &mut tx1, &member, true, 200000).unwrap();
    assert_eq!(fund.master_nonce, 2);
}

#[test]
fn three_member_tally_approves_at_two_thirds() {
    let owner = id(1);
    let mut fund = initialize(owner, b"squad".to_vec(), 200000).unwrap();
    add_member_direct(&mut fund, &owner, &id(2)).unwrap();
    add_member_direct(&mut fund, &owner, &id(3)).unwrap();
    let mut tx = create_proposal(&mut fund, &id(10), &owner, &id(4), 1000, 200000).unwrap();
    // Two of three yes: 100 * 2 >= 51 * 3.
    let outcome = submit_and_execute(&mut fund, &mut tx, &id(2), true, 200000).unwrap();
    assert!(matches!(outcome, VoteOutcome::Approved(_)));
}

#[test]
fn three_member_tally_rejects_at_two_thirds_no() {
    let owner = id(1);
    let mut fund = initialize(owner, b"squad".to_vec(), 200000).unwrap();
    add_member_direct(&mut fund, &owner, &id(2)).unwrap();
    add_member_direct(&mut fund, &owner, &id(3)).unwrap();
    let mut tx = create_proposal(&mut fund, &id(10), &owner, &id(4), 1000, 200000).unwrap();
    let first = submit_and_execute(&mut fund, &mut tx, &id(2), false, 200000).unwrap();
    // One yes, one no out of three members reaches neither bound.
    assert_eq!(first, VoteOutcome::StillVoting);
    // Two of three no: 100 * 2 >= 51 * 3 on the no side resolves rejected.
    let second = submit_and_execute(&mut fund, &mut tx, &id(3), false, 200000).unwrap();
    assert_eq!(second, VoteOutcome::Rejected);
    assert!(tx.resolved);
    assert_eq!(fund.master_nonce, 1);
    assert!(!fund.has_active_vote);
}

#[test]
fn declare_no_consensus_requires_membership_and_live_proposal() {
    let (mut fund, owner, _member) = two_member_fund();
    let mut tx = create_proposal(&mut fund, &id(10), &owner, &id(3), 150000, 200000).unwrap();
    assert_eq!(
        declare_no_consensus(&mut fund, &mut tx, &id(9)).unwrap_err(),
        ErrorCode::MemberNotPartOfFund
    );
    declare_no_consensus(&mut fund, &mut tx, &owner).unwrap();
    // A second closure finds no active vote.
    assert_eq!(
        declare_no_consensus(&mut fund, &mut tx, &owner).unwrap_err(),
        ErrorCode::HasNoActiveVote
    );
}
