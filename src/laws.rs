use vstd::prelude::*;
use crate::pallet::{Pallet, mint_post};
use crate::types::{AccountId, Dna, Entropy, Error, Gender, KittyId};

verus! {

/// No account ever owns more kitties than the configured maximum.
pub proof fn lemma_owned_within_capacity(p: Pallet, o: AccountId)
    requires
        p.wf(),
    ensures
        p@.owned_by(o).len() <= p@.max_owned,
{
}

/// A mint for an owner already at capacity fails and leaves the registry
/// exactly as it was.
pub proof fn lemma_mint_beyond_capacity_changes_nothing(
    pre: Pallet,
    post: Pallet,
    owner: AccountId,
    dna: Option<Dna>,
    gender: Option<Gender>,
    e: Entropy,
    r: Result<KittyId, Error>,
)
    requires
        pre.wf(),
        mint_post(pre, post, owner, dna, gender, e, r),
        pre@.owned_by(owner).len() >= pre@.max_owned,
    ensures
        r is Err,
        post == pre,
        pre@.count < u64::MAX ==> r == Err::<KittyId, Error>(Error::ExceedMaxKittyOwned),
{
}

/// Minting the same explicit owner, genetic data and gender twice gives the
/// same record and so the same identifier: the second mint never succeeds,
/// and where neither the counter nor the owner's capacity stops it, it
/// fails as a duplicate.
pub proof fn lemma_identical_mint_collides(
    pre: Pallet,
    mid: Pallet,
    post: Pallet,
    owner: AccountId,
    dna: Dna,
    gender: Gender,
    e1: Entropy,
    e2: Entropy,
    r1: Result<KittyId, Error>,
    r2: Result<KittyId, Error>,
)
    requires
        pre.wf(),
        mint_post(pre, mid, owner, Some(dna), Some(gender), e1, r1),
        r1 is Ok,
        mint_post(mid, post, owner, Some(dna), Some(gender), e2, r2),
    ensures
        r2 is Err,
        post == mid,
        mid@.count < u64::MAX && mid@.owned_by(owner).len() < mid@.max_owned ==> r2 == Err::<
            KittyId,
            Error,
        >(Error::DuplicateKitty),
{
}

} // verus!
