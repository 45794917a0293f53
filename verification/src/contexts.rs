//! The account contexts of the governance instructions.
//!
//! Each instruction of the engine is invoked against a set of
//! caller-supplied account addresses. Before an instruction trusts any of
//! them, the addresses with a canonical derivation are re-derived and
//! compared: the fund from its handle and owner, the custody vault and the
//! escrow accounts from their seed tags, the proposal record from the
//! fund's nonce, and associated token accounts from wallet and mint. A
//! context whose addresses all match validates; any mismatch — or a seed
//! combination that admits no address at all — is refused with
//! `InvalidDestinationOwner` and nothing is trusted.

use vstd::prelude::*;

use crate::addresses::{derive_associated_token_address, derive_fund_address,
    derive_join_custodial_address, derive_join_custodial_ata_address, derive_proposal_address,
    derive_vault_address, join_custodial_ata_tag, join_custodial_tag, pda_address, proposal_tag,
    token_vault_tag, u64_le_seq};
use crate::errors::ErrorCode;
use crate::fund::SquadMintFund;
use crate::ids::{account_id_eq, AccountId};
use crate::proposal::Transaction;

verus! {

/// Whether `derived` names exactly the address `supplied`.
pub open spec fn matches_derivation(derived: Option<Seq<u8>>, supplied: Seq<u8>) -> bool {
    derived == Some(supplied)
}

/// Compare a supplied address against a derived one; a failed derivation
/// matches nothing.
fn check_address(derived: Option<AccountId>, supplied: &AccountId, expected: Ghost<
    Option<Seq<u8>>,
>) -> (r: bool)
    requires
        match derived {
            Some(a) => expected@ == Some(a@),
            None => expected@ is None,
        },
    ensures
        r == matches_derivation(expected@, supplied@),
{
    match derived {
        Some(a) => account_id_eq(&a, supplied),
        None => false,
    }
}

/// The accounts a fund is created against.
pub struct Initialize {
    /// Pays for the created accounts and receives reclaimed rent.
    pub fee_payer: AccountId,
    /// The signing identity that will own the fund.
    pub multisig_owner: AccountId,
    /// The fund account, at the address derived from handle and owner.
    pub multisig: AccountId,
    /// The token mint the fund's custody is denominated in.
    pub mint: AccountId,
    /// The fund's custody vault, at its derived address.
    pub multisig_ata: AccountId,
    /// The token program.
    pub token_program: AccountId,
    /// The associated-token program.
    pub associated_token_program: AccountId,
}

impl Initialize {
    /// Whether every derivable address in the context matches its
    /// derivation under `program_id` for a fund with this handle.
    pub open spec fn valid(self, account_handle: Seq<u8>, program_id: Seq<u8>) -> bool {
        &&& matches_derivation(
            pda_address(seq![account_handle, self.multisig_owner@], program_id),
            self.multisig@,
        )
        &&& matches_derivation(
            pda_address(seq![token_vault_tag(), self.multisig@], program_id),
            self.multisig_ata@,
        )
    }

    /// Validate the supplied addresses against their derivations.
    pub fn validate(&self, account_handle: &Vec<u8>, program_id: &AccountId) -> (r: Result<
        (),
        ErrorCode,
    >)
        ensures
            r is Ok <==> self.valid(account_handle@, program_id@),
            r is Err ==> r->Err_0 is InvalidDestinationOwner,
    {
        let fund = derive_fund_address(account_handle, &self.multisig_owner, program_id);
        if !check_address(
            fund,
            &self.multisig,
            Ghost(pda_address(seq![account_handle@, self.multisig_owner@], program_id@)),
        ) {
            return Err(ErrorCode::InvalidDestinationOwner);
        }
        let vault = derive_vault_address(&self.multisig, program_id);
        if !check_address(
            vault,
            &self.multisig_ata,
            Ghost(pda_address(seq![token_vault_tag(), self.multisig@], program_id@)),
        ) {
            return Err(ErrorCode::InvalidDestinationOwner);
        }
        Ok(())
    }
}

/// The accounts a join request is resolved against, for admission and
/// rejection alike.
pub struct UpdateFund {
    /// The fund account, at the address derived from its handle and owner.
    pub multisig: AccountId,
    /// Pays fees and receives the rent of the closed escrow account.
    pub fee_payer: AccountId,
    /// The signing fund owner.
    pub multisig_owner: AccountId,
    /// The token mint of the fund's custody.
    pub mint: AccountId,
    /// The requester whose join request is resolved.
    pub proposing_joiner: AccountId,
    /// The requester's own token account, refunded on rejection.
    pub proposing_joiner_ata: AccountId,
    /// The join-escrow record account.
    pub join_custodial_account: AccountId,
    /// The token account holding the escrowed deposit.
    pub join_custodial_account_ata: AccountId,
    /// The fund's custody vault.
    pub multisig_ata: AccountId,
    /// The token program.
    pub token_program: AccountId,
    /// The associated-token program.
    pub associated_token_program: AccountId,
}

impl UpdateFund {
    /// Whether every derivable address in the context matches its
    /// derivation under `program_id` against the stored fund.
    pub open spec fn valid(self, fund: SquadMintFund, program_id: Seq<u8>) -> bool {
        &&& matches_derivation(
            pda_address(seq![fund.account_handle@, fund.owner@], program_id),
            self.multisig@,
        )
        &&& matches_derivation(
            pda_address(
                seq![self.proposing_joiner@, self.token_program@, self.mint@],
                self.associated_token_program@,
            ),
            self.proposing_joiner_ata@,
        )
        &&& matches_derivation(
            pda_address(
                seq![join_custodial_tag(), self.multisig@, self.proposing_joiner@],
                program_id,
            ),
            self.join_custodial_account@,
        )
        &&& matches_derivation(
            pda_address(
                seq![join_custodial_ata_tag(), self.join_custodial_account@],
                program_id,
            ),
            self.join_custodial_account_ata@,
        )
        &&& matches_derivation(
            pda_address(seq![token_vault_tag(), self.multisig@], program_id),
            self.multisig_ata@,
        )
    }

    /// Validate the supplied addresses against their derivations.
    pub fn validate(&self, fund: &SquadMintFund, program_id: &AccountId) -> (r: Result<
        (),
        ErrorCode,
    >)
        ensures
            r is Ok <==> self.valid(*fund, program_id@),
            r is Err ==> r->Err_0 is InvalidDestinationOwner,
    {
        let fund_addr = derive_fund_address(&fund.account_handle, &fund.owner, program_id);
        if !check_address(
            fund_addr,
            &self.multisig,
            Ghost(pda_address(seq![fund.account_handle@, fund.owner@], program_id@)),
        ) {
            return Err(ErrorCode::InvalidDestinationOwner);
        }
        let joiner_ata = derive_associated_token_address(
            &self.proposing_joiner,
            &self.mint,
            &self.token_program,
            &self.associated_token_program,
        );
        if !check_address(
            joiner_ata,
            &self.proposing_joiner_ata,
            Ghost(
                pda_address(
                    seq![self.proposing_joiner@, self.token_program@, self.mint@],
                    self.associated_token_program@,
                ),
            ),
        ) {
            return Err(ErrorCode::InvalidDestinationOwner);
        }
        let custodial = derive_join_custodial_address(
            &self.multisig,
            &self.proposing_joiner,
            program_id,
        );
        if !check_address(
            custodial,
            &self.join_custodial_account,
            Ghost(
                pda_address(
                    seq![join_custodial_tag(), self.multisig@, self.proposing_joiner@],
                    program_id@,
                ),
            ),
        ) {
            return Err(ErrorCode::InvalidDestinationOwner);
        }
        let custodial_ata = derive_join_custodial_ata_address(
            &self.join_custodial_account,
            program_id,
        );
        if !check_address(
            custodial_ata,
            &self.join_custodial_account_ata,
            Ghost(
                pda_address(
                    seq![join_custodial_ata_tag(), self.join_custodial_account@],
                    program_id@,
                ),
            ),
        ) {
            return Err(ErrorCode::InvalidDestinationOwner);
        }
        let vault = derive_vault_address(&self.multisig, program_id);
        if !check_address(
            vault,
            &self.multisig_ata,
            Ghost(pda_address(seq![token_vault_tag(), self.multisig@], program_id@)),
        ) {
            return Err(ErrorCode::InvalidDestinationOwner);
        }
        Ok(())
    }
}

/// The accounts a join request is opened against.
pub struct CreateJoinRequestProposal {
    /// The signing prospective member.
    pub proposing_joiner: AccountId,
    /// The fund account, at the address derived from its handle and owner.
    pub multisig: AccountId,
    /// Pays for the created escrow accounts.
    pub fee_payer: AccountId,
    /// The token mint of the fund's custody.
    pub mint: AccountId,
    /// The join-escrow record account to be created.
    pub join_custodial_account: AccountId,
    /// The token account that will hold the escrowed deposit.
    pub join_custodial_account_ata: AccountId,
    /// The fund's custody vault.
    pub multisig_ata: AccountId,
    /// The requester's own token account, the source of the deposit.
    pub proposing_joiner_ata: AccountId,
    /// The token program.
    pub token_program: AccountId,
    /// The associated-token program.
    pub associated_token_program: AccountId,
}

impl CreateJoinRequestProposal {
    /// Whether every derivable address in the context matches its
    /// derivation under `program_id` against the stored fund.
    pub open spec fn valid(self, fund: SquadMintFund, program_id: Seq<u8>) -> bool {
        &&& matches_derivation(
            pda_address(seq![fund.account_handle@, fund.owner@], program_id),
            self.multisig@,
        )
        &&& matches_derivation(
            pda_address(
                seq![join_custodial_tag(), self.multisig@, self.proposing_joiner@],
                program_id,
            ),
            self.join_custodial_account@,
        )
        &&& matches_derivation(
            pda_address(
                seq![join_custodial_ata_tag(), self.join_custodial_account@],
                program_id,
            ),
            self.join_custodial_account_ata@,
        )
        &&& matches_derivation(
            pda_address(seq![token_vault_tag(), self.multisig@], program_id),
            self.multisig_ata@,
        )
        &&& matches_derivation(
            pda_address(
                seq![self.proposing_joiner@, self.token_program@, self.mint@],
                self.associated_token_program@,
            ),
            self.proposing_joiner_ata@,
        )
    }

    /// Validate the supplied addresses against their derivations.
    pub fn validate(&self, fund: &SquadMintFund, program_id: &AccountId) -> (r: Result<
        (),
        ErrorCode,
    >)
        ensures
            r is Ok <==> self.valid(*fund, program_id@),
            r is Err ==> r->Err_0 is InvalidDestinationOwner,
    {
        let fund_addr = derive_fund_address(&fund.account_handle, &fund.owner, program_id);
        if !check_address(
            fund_addr,
            &self.multisig,
            Ghost(pda_address(seq![fund.account_handle@, fund.owner@], program_id@)),
        ) {
            return Err(ErrorCode::InvalidDestinationOwner);
        }
        let custodial = derive_join_custodial_address(
            &self.multisig,
            &self.proposing_joiner,
            program_id,
        );
        if !check_address(
            custodial,
            &self.join_custodial_account,
            Ghost(
                pda_address(
                    seq![join_custodial_tag(), self.multisig@, self.proposing_joiner@],
                    program_id@,
                ),
            ),
        ) {
            return Err(ErrorCode::InvalidDestinationOwner);
        }
        let custodial_ata = derive_join_custodial_ata_address(
            &self.join_custodial_account,
            program_id,
        );
        if !check_address(
            custodial_ata,
            &self.join_custodial_account_ata,
            Ghost(
                pda_address(
                    seq![join_custodial_ata_tag(), self.join_custodial_account@],
                    program_id@,
                ),
            ),
        ) {
            return Err(ErrorCode::InvalidDestinationOwner);
        }
        let vault = derive_vault_address(&self.multisig, program_id);
        if !check_address(
            vault,
            &self.multisig_ata,
            Ghost(pda_address(seq![token_vault_tag(), self.multisig@], program_id@)),
        ) {
            return Err(ErrorCode::InvalidDestinationOwner);
        }
        let joiner_ata = derive_associated_token_address(
            &self.proposing_joiner,
            &self.mint,
            &self.token_program,
            &self.associated_token_program,
        );
        if !check_address(
            joiner_ata,
            &self.proposing_joiner_ata,
            Ghost(
                pda_address(
                    seq![self.proposing_joiner@, self.token_program@, self.mint@],
                    self.associated_token_program@,
                ),
            ),
        ) {
            return Err(ErrorCode::InvalidDestinationOwner);
        }
        Ok(())
    }
}

/// The accounts a spend proposal is opened against.
pub struct CreateProposal {
    /// The proposal record account, at the address derived from the fund
    /// and its current nonce.
    pub transaction: AccountId,
    /// The fund account.
    pub multisig: AccountId,
    /// Pays for the created proposal account.
    pub fee_payer: AccountId,
    /// The signing member opening the proposal.
    pub proposer: AccountId,
    /// The token mint of the fund's custody.
    pub mint: AccountId,
    /// The identity to be paid if the proposal is approved.
    pub proposed_to_owner: AccountId,
    /// The fund's custody vault.
    pub multisig_ata: AccountId,
    /// The destination's associated token account.
    pub proposed_to_ata: AccountId,
    /// The token program.
    pub token_program: AccountId,
    /// The associated-token program.
    pub associated_token_program: AccountId,
}

impl CreateProposal {
    /// Whether every derivable address in the context matches its
    /// derivation under `program_id` against the stored fund.
    pub open spec fn valid(self, fund: SquadMintFund, program_id: Seq<u8>) -> bool {
        &&& matches_derivation(
            pda_address(
                seq![proposal_tag(), self.multisig@, u64_le_seq(fund.master_nonce)],
                program_id,
            ),
            self.transaction@,
        )
        &&& matches_derivation(
            pda_address(seq![token_vault_tag(), self.multisig@], program_id),
            self.multisig_ata@,
        )
        &&& matches_derivation(
            pda_address(
                seq![self.proposed_to_owner@, self.token_program@, self.mint@],
                self.associated_token_program@,
            ),
            self.proposed_to_ata@,
        )
    }

    /// Validate the supplied addresses against their derivations.
    pub fn validate(&self, fund: &SquadMintFund, program_id: &AccountId) -> (r: Result<
        (),
        ErrorCode,
    >)
        ensures
            r is Ok <==> self.valid(*fund, program_id@),
            r is Err ==> r->Err_0 is InvalidDestinationOwner,
    {
        let tx = derive_proposal_address(&self.multisig, fund.master_nonce, program_id);
        if !check_address(
            tx,
            &self.transaction,
            Ghost(
                pda_address(
                    seq![proposal_tag(), self.multisig@, u64_le_seq(fund.master_nonce)],
                    program_id@,
                ),
            ),
        ) {
            return Err(ErrorCode::InvalidDestinationOwner);
        }
        let vault = derive_vault_address(&self.multisig, program_id);
        if !check_address(
            vault,
            &self.multisig_ata,
            Ghost(pda_address(seq![token_vault_tag(), self.multisig@], program_id@)),
        ) {
            return Err(ErrorCode::InvalidDestinationOwner);
        }
        let dest_ata = derive_associated_token_address(
            &self.proposed_to_owner,
            &self.mint,
            &self.token_program,
            &self.associated_token_program,
        );
        if !check_address(
            dest_ata,
            &self.proposed_to_ata,
            Ghost(
                pda_address(
                    seq![self.proposed_to_owner@, self.token_program@, self.mint@],
                    self.associated_token_program@,
                ),
            ),
        ) {
            return Err(ErrorCode::InvalidDestinationOwner);
        }
        Ok(())
    }
}

/// The accounts a ballot is cast against.
pub struct SubmitAndExecute {
    /// The proposal record being voted on.
    pub transaction: AccountId,
    /// The fund account, at the address derived from its handle and owner.
    pub multisig: AccountId,
    /// Pays fees.
    pub fee_payer: AccountId,
    /// The signing member casting the ballot.
    pub submitter: AccountId,
    /// The identity the proposal pays on approval.
    pub proposed_to_owner: AccountId,
    /// The fund's custody vault, the source of an approved payment.
    pub multisig_ata: AccountId,
    /// The destination's associated token account.
    pub proposed_to_ata: AccountId,
    /// The token mint of the fund's custody.
    pub mint: AccountId,
    /// The token program.
    pub token_program: AccountId,
    /// The associated-token program.
    pub associated_token_program: AccountId,
}

impl SubmitAndExecute {
    /// Whether the supplied addresses match their derivations under
    /// `program_id`, against the stored fund and the proposal's recorded
    /// destination.
    pub open spec fn valid(
        self,
        fund: SquadMintFund,
        transaction: Transaction,
        program_id: Seq<u8>,
    ) -> bool {
        &&& self.proposed_to_owner@ == transaction.message_data.proposed_to_account@
        &&& matches_derivation(
            pda_address(
                seq![self.proposed_to_owner@, self.token_program@, self.mint@],
                self.associated_token_program@,
            ),
            self.proposed_to_ata@,
        )
        &&& matches_derivation(
            pda_address(seq![token_vault_tag(), self.multisig@], program_id),
            self.multisig_ata@,
        )
        &&& matches_derivation(
            pda_address(seq![fund.account_handle@, fund.owner@], program_id),
            self.multisig@,
        )
    }

    /// Validate the supplied addresses against their derivations and the
    /// proposal's recorded destination.
    pub fn validate(
        &self,
        fund: &SquadMintFund,
        transaction: &Transaction,
        program_id: &AccountId,
    ) -> (r: Result<(), ErrorCode>)
        ensures
            r is Ok <==> self.valid(*fund, *transaction, program_id@),
            r is Err ==> r->Err_0 is InvalidDestinationOwner,
    {
        if !account_id_eq(&self.proposed_to_owner, &transaction.message_data.proposed_to_account) {
            return Err(ErrorCode::InvalidDestinationOwner);
        }
        let dest_ata = derive_associated_token_address(
            &self.proposed_to_owner,
            &self.mint,
            &self.token_program,
            &self.associated_token_program,
        );
        if !check_address(
            dest_ata,
            &self.proposed_to_ata,
            Ghost(
                pda_address(
                    seq![self.proposed_to_owner@, self.token_program@, self.mint@],
                    self.associated_token_program@,
                ),
            ),
        ) {
            return Err(ErrorCode::InvalidDestinationOwner);
        }
        let vault = derive_vault_address(&self.multisig, program_id);
        if !check_address(
            vault,
            &self.multisig_ata,
            Ghost(pda_address(seq![token_vault_tag(), self.multisig@], program_id@)),
        ) {
            return Err(ErrorCode::InvalidDestinationOwner);
        }
        let fund_addr = derive_fund_address(&fund.account_handle, &fund.owner, program_id);
        if !check_address(
            fund_addr,
            &self.multisig,
            Ghost(pda_address(seq![fund.account_handle@, fund.owner@], program_id@)),
        ) {
            return Err(ErrorCode::InvalidDestinationOwner);
        }
        Ok(())
    }
}

} // verus!
