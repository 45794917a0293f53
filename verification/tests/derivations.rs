//! Tests of the address derivations and the account-context validation,
//! cross-checked against the ledger substrate's own derivation functions.

use anchor_lang::solana_program::pubkey::Pubkey;
use squad_mint_multi_sig::addresses::{
    derive_associated_token_address, derive_fund_address, derive_join_custodial_address,
    derive_join_custodial_ata_address, derive_proposal_address, derive_vault_address,
    u64_le_bytes,
};
use squad_mint_multi_sig::contexts::{CreateProposal, Initialize, SubmitAndExecute, UpdateFund};
use squad_mint_multi_sig::errors::ErrorCode;
use squad_mint_multi_sig::fund::initialize;
use squad_mint_multi_sig::ids::AccountId;
use squad_mint_multi_sig::proposal::{Transaction, TransactionMessage};

fn id(n: u8) -> AccountId {
    AccountId { bytes: [n; 32] }
}

fn pk(a: &AccountId) -> Pubkey {
    Pubkey::new_from_array(a.bytes)
}

fn aid(p: Pubkey) -> AccountId {
    AccountId { bytes: p.to_bytes() }
}

#[test]
fn u64_le_bytes_matches_std_encoding() {
    for n in [0u64, 1, 255, 256, 0x0102030405060708, u64::MAX] {
        assert_eq!(u64_le_bytes(n), n.to_le_bytes().to_vec());
    }
}

#[test]
fn fund_address_matches_substrate_derivation() {
    let owner = id(1);
    let program = id(7);
    let handle = b"squad".to_vec();
    let derived = derive_fund_address(&handle, &owner, &program).unwrap();
    let (expected, _bump) =
        Pubkey::find_program_address(&[b"squad", &owner.bytes], &pk(&program));
    assert_eq!(derived.bytes, expected.to_bytes());
    // The derivation is a real computation, not an echo of its inputs.
    assert_ne!(derived.bytes, owner.bytes);
    assert_ne!(derived.bytes, program.bytes);
}

#[test]
fn vault_address_matches_substrate_derivation() {
    let fund_address = id(10);
    let program = id(7);
    let derived = derive_vault_address(&fund_address, &program).unwrap();
    let (expected, _) =
        Pubkey::find_program_address(&[b"token_vault", &fund_address.bytes], &pk(&program));
    assert_eq!(derived.bytes, expected.to_bytes());
}

#[test]
fn join_custodial_addresses_match_substrate_derivation() {
    let fund_address = id(10);
    let joiner = id(2);
    let program = id(7);
    let custodial = derive_join_custodial_address(&fund_address, &joiner, &program).unwrap();
    let (expected, _) = Pubkey::find_program_address(
        &[b"join_custodial_account", &fund_address.bytes, &joiner.bytes],
        &pk(&program),
    );
    assert_eq!(custodial.bytes, expected.to_bytes());

    let custodial_ata = derive_join_custodial_ata_address(&custodial, &program).unwrap();
    let (expected_ata, _) = Pubkey::find_program_address(
        &[b"join_custodial_account_ata", &custodial.bytes],
        &pk(&program),
    );
    assert_eq!(custodial_ata.bytes, expected_ata.to_bytes());
}

#[test]
fn proposal_address_matches_substrate_derivation() {
    let fund_address = id(10);
    let program = id(7);
    for nonce in [0u64, 1, 77, u64::MAX] {
        let derived = derive_proposal_address(&fund_address, nonce, &program).unwrap();
        let (expected, _) = Pubkey::find_program_address(
            &[b"proposal_tx_data", &fund_address.bytes, &nonce.to_le_bytes()],
            &pk(&program),
        );
        assert_eq!(derived.bytes, expected.to_bytes());
    }
}

#[test]
fn associated_token_address_matches_token_program_derivation() {
    let wallet = id(2);
    let mint = id(5);
    let token_program = aid(anchor_spl::token::ID);
    let associated_token_program = aid(anchor_spl::associated_token::ID);
    let derived =
        derive_associated_token_address(&wallet, &mint, &token_program, &associated_token_program)
            .unwrap();
    let expected = anchor_spl::associated_token::get_associated_token_address(
        &pk(&wallet),
        &pk(&mint),
    );
    assert_eq!(derived.bytes, expected.to_bytes());
}

#[test]
fn initialize_context_validates_derived_addresses() {
    let owner = id(1);
    let program = id(7);
    let handle = b"squad".to_vec();
    let multisig = derive_fund_address(&handle, &owner, &program).unwrap();
    let vault = derive_vault_address(&multisig, &program).unwrap();
    let ctx = Initialize {
        fee_payer: id(12),
        multisig_owner: owner,
        multisig,
        mint: id(5),
        multisig_ata: vault,
        token_program: aid(anchor_spl::token::ID),
        associated_token_program: aid(anchor_spl::associated_token::ID),
    };
    assert!(ctx.validate(&handle, &program).is_ok());

    let mut bad = ctx;
    bad.multisig_ata = id(99);
    assert_eq!(
        bad.validate(&handle, &program).unwrap_err(),
        ErrorCode::InvalidDestinationOwner
    );
}

#[test]
fn update_fund_context_validates_derived_addresses() {
    let owner = id(1);
    let joiner = id(2);
    let mint = id(5);
    let program = id(7);
    let token_program = aid(anchor_spl::token::ID);
    let associated_token_program = aid(anchor_spl::associated_token::ID);
    let fund = initialize(owner, b"squad".to_vec(), 200000).unwrap();
    let multisig = derive_fund_address(&fund.account_handle, &owner, &program).unwrap();
    let custodial = derive_join_custodial_address(&multisig, &joiner, &program).unwrap();
    let ctx = UpdateFund {
        multisig,
        fee_payer: id(12),
        multisig_owner: owner,
        mint,
        proposing_joiner: joiner,
        proposing_joiner_ata: derive_associated_token_address(
            &joiner,
            &mint,
            &token_program,
            &associated_token_program,
        )
        .unwrap(),
        join_custodial_account: custodial,
        join_custodial_account_ata: derive_join_custodial_ata_address(&custodial, &program)
            .unwrap(),
        multisig_ata: derive_vault_address(&multisig, &program).unwrap(),
        token_program,
        associated_token_program,
    };
    assert!(ctx.validate(&fund, &program).is_ok());

    let mut bad = ctx;
    bad.join_custodial_account = id(99);
    assert_eq!(
        bad.validate(&fund, &program).unwrap_err(),
        ErrorCode::InvalidDestinationOwner
    );
}

#[test]
fn create_proposal_context_validates_nonce_stamped_address() {
    let owner = id(1);
    let destination = id(3);
    let mint = id(5);
    let program = id(7);
    let token_program = aid(anchor_spl::token::ID);
    let associated_token_program = aid(anchor_spl::associated_token::ID);
    let mut fund = initialize(owner, b"squad".to_vec(), 200000).unwrap();
    let multisig = derive_fund_address(&fund.account_handle, &owner, &program).unwrap();
    let ctx = CreateProposal {
        transaction: derive_proposal_address(&multisig, 0, &program).unwrap(),
        multisig,
        fee_payer: id(12),
        proposer: owner,
        mint,
        proposed_to_owner: destination,
        multisig_ata: derive_vault_address(&multisig, &program).unwrap(),
        proposed_to_ata: derive_associated_token_address(
            &destination,
            &mint,
            &token_program,
            &associated_token_program,
        )
        .unwrap(),
        token_program,
        associated_token_program,
    };
    assert!(ctx.validate(&fund, &program).is_ok());
    // A proposal account stamped with a different nonce does not validate.
    fund.master_nonce = 1;
    assert_eq!(
        ctx.validate(&fund, &program).unwrap_err(),
        ErrorCode::InvalidDestinationOwner
    );
}

#[test]
fn submit_context_checks_recorded_destination() {
    let owner = id(1);
    let destination = id(3);
    let mint = id(5);
    let program = id(7);
    let token_program = aid(anchor_spl::token::ID);
    let associated_token_program = aid(anchor_spl::associated_token::ID);
    let fund = initialize(owner, b"squad".to_vec(), 200000).unwrap();
    let multisig = derive_fund_address(&fund.account_handle, &owner, &program).unwrap();
    let tx = Transaction {
        belongs_to_squad_mint_fund: multisig,
        executors: vec![owner],
        votes: vec![true],
        message_data: TransactionMessage {
            amount: 150000,
            proposer_account: owner,
            proposed_to_account: destination,
            nonce: 0,
        },
        resolved: false,
    };
    let ctx = SubmitAndExecute {
        transaction: derive_proposal_address(&multisig, 0, &program).unwrap(),
        multisig,
        fee_payer: id(12),
        submitter: owner,
        proposed_to_owner: destination,
        multisig_ata: derive_vault_address(&multisig, &program).unwrap(),
        proposed_to_ata: derive_associated_token_address(
            &destination,
            &mint,
            &token_program,
            &associated_token_program,
        )
        .unwrap(),
        mint,
        token_program,
        associated_token_program,
    };
    assert!(ctx.validate(&fund, &tx, &program).is_ok());

    // A context naming a destination other than the proposal's recorded one
    // is refused.
    let mut bad = ctx;
    bad.proposed_to_owner = id(99);
    assert_eq!(
        bad.validate(&fund, &tx, &program).unwrap_err(),
        ErrorCode::InvalidDestinationOwner
    );
}
