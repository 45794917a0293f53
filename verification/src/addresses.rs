//! Derived addresses of the ledger substrate.
//!
//! Every account the engine touches lives at a deterministic address derived
//! from seeds under a program: the fund from its handle and owner, the
//! fund's custody vault, the join-escrow accounts, the proposal record, and
//! associated token accounts. The derivation itself is the substrate's (a
//! hash-based search it alone defines); the engine calls it through one
//! trusted declaration and only ever compares the result against
//! caller-supplied addresses.

use vstd::prelude::*;
use vstd::slice::slice_to_vec;

use crate::ids::AccountId;

verus! {

/// The canonical program-derived address (and bump) of `seeds` under
/// `program`, or `None` where the derivation admits no address. A pure
/// function of its arguments; the engine states nothing else about it.
pub uninterp spec fn pda_of(seeds: Seq<Seq<u8>>, program: Seq<u8>) -> Option<(Seq<u8>, u8)>;

/// The address part of `pda_of`.
pub open spec fn pda_address(seeds: Seq<Seq<u8>>, program: Seq<u8>) -> Option<Seq<u8>> {
    match pda_of(seeds, program) {
        Some(p) => Some(p.0),
        None => None,
    }
}

/// The byte sequences of a list of seeds.
pub open spec fn seeds_view(seeds: Seq<Vec<u8>>) -> Seq<Seq<u8>> {
    seeds.map_values(|s: Vec<u8>| s@)
}

/// Relies on `Pubkey::try_find_program_address`: finds the canonical
/// program-derived address and bump for the seeds under the program — a
/// deterministic function of its arguments alone — and returns `None`
/// (rather than panicking, as its unchecked sibling does) where no bump
/// yields a valid address or the seeds are out of range.
#[verifier::external_body]
fn find_program_address(seeds: &Vec<Vec<u8>>, program_id: &AccountId) -> (r: Option<
    (AccountId, u8),
>)
    ensures
        match r {
            Some(p) => pda_of(seeds_view(seeds@), program_id@) == Some((p.0@, p.1)),
            None => pda_of(seeds_view(seeds@), program_id@) is None,
        },
{
    let program = anchor_lang::solana_program::pubkey::Pubkey::new_from_array(program_id.bytes);
    let seed_slices: Vec<&[u8]> = seeds.iter().map(|s| s.as_slice()).collect();
    anchor_lang::solana_program::pubkey::Pubkey::try_find_program_address(&seed_slices, &program)
        .map(|(address, bump)| (AccountId { bytes: address.to_bytes() }, bump))
}

/// Derive the address for `seeds` under `program_id`, keeping the address
/// and dropping the bump.
pub fn derive_address(seeds: &Vec<Vec<u8>>, program_id: &AccountId) -> (r: Option<AccountId>)
    ensures
        match r {
            Some(a) => pda_address(seeds_view(seeds@), program_id@) == Some(a@),
            None => pda_address(seeds_view(seeds@), program_id@) is None,
        },
{
    match find_program_address(seeds, program_id) {
        Some(p) => Some(p.0),
        None => None,
    }
}

/// The address bytes of an identity, as one seed.
fn id_seed(a: &AccountId) -> (r: Vec<u8>)
    ensures
        r@ == a@,
{
    slice_to_vec(a.bytes.as_slice())
}

/// Seed tag of the fund's custody vault.
pub open spec fn token_vault_tag() -> Seq<u8> {
    seq![116u8, 111u8, 107u8, 101u8, 110u8, 95u8, 118u8, 97u8, 117u8, 108u8, 116u8]
}

/// Seed tag of a join-escrow record account.
pub open spec fn join_custodial_tag() -> Seq<u8> {
    seq![
        106u8, 111u8, 105u8, 110u8, 95u8, 99u8, 117u8, 115u8, 116u8, 111u8, 100u8, 105u8, 97u8,
        108u8, 95u8, 97u8, 99u8, 99u8, 111u8, 117u8, 110u8, 116u8,
    ]
}

/// Seed tag of a join-escrow token account.
pub open spec fn join_custodial_ata_tag() -> Seq<u8> {
    seq![
        106u8, 111u8, 105u8, 110u8, 95u8, 99u8, 117u8, 115u8, 116u8, 111u8, 100u8, 105u8, 97u8,
        108u8, 95u8, 97u8, 99u8, 99u8, 111u8, 117u8, 110u8, 116u8, 95u8, 97u8, 116u8, 97u8,
    ]
}

/// Seed tag of a proposal record account.
pub open spec fn proposal_tag() -> Seq<u8> {
    seq![
        112u8, 114u8, 111u8, 112u8, 111u8, 115u8, 97u8, 108u8, 95u8, 116u8, 120u8, 95u8, 100u8,
        97u8, 116u8, 97u8,
    ]
}

/// The seed tag `token_vault`, as bytes.
fn token_vault_seed() -> (r: Vec<u8>)
    ensures
        r@ == token_vault_tag(),
{
    let a: [u8; 11] = [116, 111, 107, 101, 110, 95, 118, 97, 117, 108, 116];
    let r = slice_to_vec(a.as_slice());
    proof {
        assert(r@ =~= token_vault_tag());
    }
    r
}

/// The seed tag `join_custodial_account`, as bytes.
fn join_custodial_seed() -> (r: Vec<u8>)
    ensures
        r@ == join_custodial_tag(),
{
    let a: [u8; 22] = [
        106,
        111,
        105,
        110,
        95,
        99,
        117,
        115,
        116,
        111,
        100,
        105,
        97,
        108,
        95,
        97,
        99,
        99,
        111,
        117,
        110,
        116,
    ];
    let r = slice_to_vec(a.as_slice());
    proof {
        assert(r@ =~= join_custodial_tag());
    }
    r
}

/// The seed tag `join_custodial_account_ata`, as bytes.
fn join_custodial_ata_seed() -> (r: Vec<u8>)
    ensures
        r@ == join_custodial_ata_tag(),
{
    let a: [u8; 26] = [
        106,
        111,
        105,
        110,
        95,
        99,
        117,
        115,
        116,
        111,
        100,
        105,
        97,
        108,
        95,
        97,
        99,
        99,
        111,
        117,
        110,
        116,
        95,
        97,
        116,
        97,
    ];
    let r = slice_to_vec(a.as_slice());
    proof {
        assert(r@ =~= join_custodial_ata_tag());
    }
    r
}

/// The seed tag `proposal_tx_data`, as bytes.
fn proposal_seed() -> (r: Vec<u8>)
    ensures
        r@ == proposal_tag(),
{
    let a: [u8; 16] = [112, 114, 111, 112, 111, 115, 97, 108, 95, 116, 120, 95, 100, 97, 116, 97];
    let r = slice_to_vec(a.as_slice());
    proof {
        assert(r@ =~= proposal_tag());
    }
    r
}

/// The eight bytes of `n`, least significant first.
pub open spec fn u64_le_seq(n: u64) -> Seq<u8> {
    seq![
        (n & 0xff) as u8,
        ((n >> 8) & 0xff) as u8,
        ((n >> 16) & 0xff) as u8,
        ((n >> 24) & 0xff) as u8,
        ((n >> 32) & 0xff) as u8,
        ((n >> 40) & 0xff) as u8,
        ((n >> 48) & 0xff) as u8,
        ((n >> 56) & 0xff) as u8,
    ]
}

/// Encode `n` as its eight little-endian bytes.
pub fn u64_le_bytes(n: u64) -> (r: Vec<u8>)
    ensures
        r@ == u64_le_seq(n),
{
    let mut r: Vec<u8> = Vec::new();
    proof {
        assert((n & 0xff) < 256 && ((n >> 8) & 0xff) < 256 && ((n >> 16) & 0xff) < 256 && ((n
            >> 24) & 0xff) < 256 && ((n >> 32) & 0xff) < 256 && ((n >> 40) & 0xff) < 256 && ((n
            >> 48) & 0xff) < 256 && ((n >> 56) & 0xff) < 256) by (bit_vector);
    }
    r.push((n & 0xff) as u8);
    r.push(((n >> 8) & 0xff) as u8);
    r.push(((n >> 16) & 0xff) as u8);
    r.push(((n >> 24) & 0xff) as u8);
    r.push(((n >> 32) & 0xff) as u8);
    r.push(((n >> 40) & 0xff) as u8);
    r.push(((n >> 48) & 0xff) as u8);
    r.push(((n >> 56) & 0xff) as u8);
    proof {
        assert(r@ =~= u64_le_seq(n));
    }
    r
}

/// The expected address of the fund created by `owner` under `account_handle`.
pub fn derive_fund_address(
    account_handle: &Vec<u8>,
    owner: &AccountId,
    program_id: &AccountId,
) -> (r: Option<AccountId>)
    ensures
        match r {
            Some(a) => pda_address(seq![account_handle@, owner@], program_id@) == Some(a@),
            None => pda_address(seq![account_handle@, owner@], program_id@) is None,
        },
{
    let mut seeds: Vec<Vec<u8>> = Vec::new();
    seeds.push(slice_to_vec(account_handle.as_slice()));
    seeds.push(id_seed(owner));
    proof {
        assert(seeds_view(seeds@) =~= seq![account_handle@, owner@]);
    }
    derive_address(&seeds, program_id)
}

/// The expected address of the fund's custody vault.
pub fn derive_vault_address(fund_address: &AccountId, program_id: &AccountId) -> (r: Option<
    AccountId,
>)
    ensures
        match r {
            Some(a) => pda_address(seq![token_vault_tag(), fund_address@], program_id@) == Some(
                a@,
            ),
            None => pda_address(seq![token_vault_tag(), fund_address@], program_id@) is None,
        },
{
    let mut seeds: Vec<Vec<u8>> = Vec::new();
    seeds.push(token_vault_seed());
    seeds.push(id_seed(fund_address));
    proof {
        assert(seeds_view(seeds@) =~= seq![token_vault_tag(), fund_address@]);
    }
    derive_address(&seeds, program_id)
}

/// The expected address of the join-escrow record for `joiner` at the fund.
pub fn derive_join_custodial_address(
    fund_address: &AccountId,
    joiner: &AccountId,
    program_id: &AccountId,
) -> (r: Option<AccountId>)
    ensures
        match r {
            Some(a) => pda_address(
                seq![join_custodial_tag(), fund_address@, joiner@],
                program_id@,
            ) == Some(a@),
            None => pda_address(
                seq![join_custodial_tag(), fund_address@, joiner@],
                program_id@,
            ) is None,
        },
{
    let mut seeds: Vec<Vec<u8>> = Vec::new();
    seeds.push(join_custodial_seed());
    seeds.push(id_seed(fund_address));
    seeds.push(id_seed(joiner));
    proof {
        assert(seeds_view(seeds@) =~= seq![join_custodial_tag(), fund_address@, joiner@]);
    }
    derive_address(&seeds, program_id)
}

/// The expected address of the token account held by a join-escrow record.
pub fn derive_join_custodial_ata_address(
    join_custodial_account: &AccountId,
    program_id: &AccountId,
) -> (r: Option<AccountId>)
    ensures
        match r {
            Some(a) => pda_address(
                seq![join_custodial_ata_tag(), join_custodial_account@],
                program_id@,
            ) == Some(a@),
            None => pda_address(
                seq![join_custodial_ata_tag(), join_custodial_account@],
                program_id@,
            ) is None,
        },
{
    let mut seeds: Vec<Vec<u8>> = Vec::new();
    seeds.push(join_custodial_ata_seed());
    seeds.push(id_seed(join_custodial_account));
    proof {
        assert(seeds_view(seeds@) =~= seq![join_custodial_ata_tag(), join_custodial_account@]);
    }
    derive_address(&seeds, program_id)
}

/// The expected address of the proposal record stamped with `nonce` at the
/// fund.
pub fn derive_proposal_address(
    fund_address: &AccountId,
    nonce: u64,
    program_id: &AccountId,
) -> (r: Option<AccountId>)
    ensures
        match r {
            Some(a) => pda_address(
                seq![proposal_tag(), fund_address@, u64_le_seq(nonce)],
                program_id@,
            ) == Some(a@),
            None => pda_address(
                seq![proposal_tag(), fund_address@, u64_le_seq(nonce)],
                program_id@,
            ) is None,
        },
{
    let mut seeds: Vec<Vec<u8>> = Vec::new();
    seeds.push(proposal_seed());
    seeds.push(id_seed(fund_address));
    seeds.push(u64_le_bytes(nonce));
    proof {
        assert(seeds_view(seeds@) =~= seq![proposal_tag(), fund_address@, u64_le_seq(nonce)]);
    }
    derive_address(&seeds, program_id)
}

/// The expected associated token account of `wallet` for `mint`: the address
/// derived from the wallet, the token program and the mint, under the
/// associated-token program.
pub fn derive_associated_token_address(
    wallet: &AccountId,
    mint: &AccountId,
    token_program: &AccountId,
    associated_token_program: &AccountId,
) -> (r: Option<AccountId>)
    ensures
        match r {
            Some(a) => pda_address(
                seq![wallet@, token_program@, mint@],
                associated_token_program@,
            ) == Some(a@),
            None => pda_address(
                seq![wallet@, token_program@, mint@],
                associated_token_program@,
            ) is None,
        },
{
    let mut seeds: Vec<Vec<u8>> = Vec::new();
    seeds.push(id_seed(wallet));
    seeds.push(id_seed(token_program));
    seeds.push(id_seed(mint));
    proof {
        assert(seeds_view(seeds@) =~= seq![wallet@, token_program@, mint@]);
    }
    derive_address(&seeds, associated_token_program)
}

} // verus!
