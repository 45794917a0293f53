//! Account identities.
//!
//! Every participant of the governance engine — fund owners, members,
//! prospective joiners, custody accounts and the funds themselves — is named
//! by a 32-byte account address. The engine never interprets the bytes; it
//! only compares addresses for equality and keeps bounded collections of
//! them.

use vstd::prelude::*;
use vstd::seq_lib::*;
use vstd::set_lib::lemma_len_subset;

verus! {

/// A 32-byte account address, as the ledger substrate assigns them.
#[derive(Clone, Copy, Debug, PartialEq, Eq)]
pub struct AccountId {
    pub bytes: [u8; 32],
}

impl View for AccountId {
    type V = Seq<u8>;

    open spec fn view(&self) -> Seq<u8> {
        self.bytes@
    }
}

/// Whether the sequence of identities holds `id` (compared by address bytes).
pub open spec fn holds_id(s: Seq<AccountId>, id: Seq<u8>) -> bool {
    exists|i: int| 0 <= i < s.len() && s[i]@ == id
}

/// Whether all identities in the sequence are pairwise distinct.
pub open spec fn distinct_ids(s: Seq<AccountId>) -> bool {
    forall|i: int, j: int| 0 <= i < j < s.len() ==> s[i]@ != s[j]@
}

/// Byte-wise equality of two account addresses.
pub fn account_id_eq(a: &AccountId, b: &AccountId) -> (r: bool)
    ensures
        r == (a@ == b@),
{
    let mut i: usize = 0;
    while i < 32
        invariant
            i <= 32,
            forall|j: int| 0 <= j < i ==> a.bytes@[j] == b.bytes@[j],
        decreases 32 - i,
    {
        if a.bytes[i] != b.bytes[i] {
            assert(a@[i as int] != b@[i as int]);
            return false;
        }
        i += 1;
    }
    proof {
        assert(a@ =~= b@);
    }
    true
}

/// Linear scan for `id` in a vector of identities.
pub fn contains_account(v: &Vec<AccountId>, id: &AccountId) -> (r: bool)
    ensures
        r == holds_id(v@, id@),
{
    let mut i: usize = 0;
    while i < v.len()
        invariant
            i <= v@.len(),
            forall|j: int| 0 <= j < i ==> v@[j]@ != id@,
        decreases v@.len() - i,
    {
        if account_id_eq(&v[i], id) {
            assert(v@[i as int]@ == id@);
            return true;
        }
        i += 1;
    }
    false
}

/// Pushing an identity extends membership by exactly that identity.
pub proof fn lemma_holds_id_push(s: Seq<AccountId>, a: AccountId, id: Seq<u8>)
    ensures
        holds_id(s.push(a), id) <==> (holds_id(s, id) || a@ == id),
{
    if holds_id(s, id) {
        let i = choose|i: int| 0 <= i < s.len() && s[i]@ == id;
        assert(s.push(a)[i]@ == id);
    }
    if a@ == id {
        assert(s.push(a)[s.len() as int]@ == id);
    }
    if holds_id(s.push(a), id) {
        let i = choose|i: int| 0 <= i < s.push(a).len() && s.push(a)[i]@ == id;
        if i < s.len() {
            assert(s[i]@ == id);
        }
    }
}

/// Pairwise-distinct identities that all occur in `sup` cannot outnumber it.
pub proof fn lemma_distinct_subset_len(sub: Seq<AccountId>, sup: Seq<AccountId>)
    requires
        distinct_ids(sub),
        forall|i: int| 0 <= i < sub.len() ==> holds_id(sup, sub[i]@),
    ensures
        sub.len() <= sup.len(),
{
    broadcast use seq_to_set_is_finite;

    let sv = sub.map_values(|a: AccountId| a@);
    let pv = sup.map_values(|a: AccountId| a@);
    assert forall|i: int, j: int| 0 <= i < j < sv.len() implies sv[i] != sv[j] by {
        assert(sub[i]@ != sub[j]@);
    }
    assert(sv.no_duplicates());
    assert forall|x: Seq<u8>| sv.to_set().contains(x) implies pv.to_set().contains(x) by {
        let i = choose|i: int| 0 <= i < sv.len() && sv[i] == x;
        assert(holds_id(sup, sub[i]@));
        let j = choose|j: int| 0 <= j < sup.len() && sup[j]@ == x;
        assert(pv[j] == x);
    }
    assert(sv.to_set().subset_of(pv.to_set()));
    sv.unique_seq_to_set();
    pv.lemma_cardinality_of_set();
    lemma_len_subset(sv.to_set(), pv.to_set());
}

/// Appending a fresh identity preserves distinctness.
pub proof fn lemma_distinct_push(s: Seq<AccountId>, a: AccountId)
    requires
        distinct_ids(s),
        !holds_id(s, a@),
    ensures
        distinct_ids(s.push(a)),
{
    assert forall|i: int, j: int| 0 <= i < j < s.push(a).len() implies s.push(a)[i]@ != s.push(a)[j]@ by {
        if j < s.len() {
            assert(s.push(a)[i] == s[i]);
            assert(s.push(a)[j] == s[j]);
        } else {
            assert(s.push(a)[i] == s[i]);
            assert(!(s[i]@ == a@));
        }
    }
}

} // verus!
