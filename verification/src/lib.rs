//! A multi-party treasury governance engine.
//!
//! A group of members jointly custodies a pooled fund and releases money only
//! when a qualified majority approves a specific transfer. The crate verifies
//! the whole governance state machine: fund creation and membership, the
//! escrowed join workflow, and the single-flight proposal/voting engine with
//! its replay nonce.
//!
//! Everything the engine decides is computed here over plain values and
//! proved against the contracts. The external collaborators — the ledger
//! substrate that persists accounts, the token-custody primitive that moves
//! balances, and signer verification — are consumed at their interface
//! boundary: address derivations are called through trusted declarations, and
//! every balance movement the engine orders is returned as an explicit
//! directive for the runtime to perform.

pub mod addresses;
pub mod contexts;
pub mod custody;
pub mod errors;
pub mod escrow;
pub mod fund;
pub mod ids;
pub mod laws;
pub mod proposal;
