//! Orders for the external custody primitive.
//!
//! The engine never moves a balance itself. Where an operation commits to a
//! value transfer it returns one of these directives, naming the custody
//! accounts at the identity level; the runtime performs the movement
//! atomically with the state change. An operation that fails returns no
//! directive, so a rejected action never moves money.

use vstd::prelude::*;

use crate::ids::AccountId;

verus! {

/// Debit `amount` from `from`, credit it to `to`, authorized by `authority`.
#[derive(Clone, Copy, Debug, PartialEq, Eq)]
pub struct TransferDirective {
    pub from: AccountId,
    pub to: AccountId,
    pub amount: u64,
    pub authority: AccountId,
}

/// Close the now-empty custody account `account`, reclaiming its rent to
/// `rent_recipient`, authorized by `authority`.
#[derive(Clone, Copy, Debug, PartialEq, Eq)]
pub struct CloseDirective {
    pub account: AccountId,
    pub authority: AccountId,
    pub rent_recipient: AccountId,
}

} // verus!
