use vstd::prelude::*;
use std::collections::HashMap;
use crate::encoding::{kitty_id, kitty_id_of};
use crate::genetics::{combine_dna, fresh_dna, fresh_gender, gen_dna, gen_gender, is_mix};
use crate::store::{find_kitty, lemma_table_push, table_map};
use crate::types::{AccountId, Config, Dna, Entropy, Error, Event, Gender, Kitty, KittyId};

verus! {

broadcast use vstd::std_specs::hash::group_hash_axioms;

/// The abstract state of the registry.
pub struct PalletModel {
    /// The number of kitties created.
    pub count: nat,
    /// The kitties by identifier.
    pub kitties: Map<KittyId, Kitty>,
    /// The identifiers that each account owns, in order of creation.
    pub owned: Map<AccountId, Seq<KittyId>>,
    /// The most kitties that one account may own.
    pub max_owned: nat,
}

impl PalletModel {
    /// The identifiers that `o` owns, empty for an account never seen.
    pub open spec fn owned_by(self, o: AccountId) -> Seq<KittyId> {
        if self.owned.contains_key(o) {
            self.owned[o]
        } else {
            Seq::empty()
        }
    }

    /// The counter equals the number of stored kitties; every owner's list
    /// is within capacity, free of repeats, and names stored kitties that
    /// the owner owns.
    pub open spec fn inv(self) -> bool {
        &&& self.kitties.dom().finite()
        &&& self.count == self.kitties.dom().len()
        &&& forall|o: AccountId| #[trigger] self.owned_by(o).len() <= self.max_owned
        &&& forall|o: AccountId| #[trigger] self.owned_by(o).no_duplicates()
        &&& forall|o: AccountId, i: int|
            0 <= i < self.owned_by(o).len() ==> {
                &&& self.kitties.contains_key(#[trigger] self.owned_by(o)[i])
                &&& self.kitties[self.owned_by(o)[i]].owner == o
            }
    }

    /// The error with which recording `k` under `id` fails, if any: the
    /// counter is at its maximum, the owner is at capacity, or the
    /// identifier is taken; checked in that order.
    pub open spec fn mint_error(self, id: KittyId, k: Kitty) -> Option<Error> {
        if self.count >= u64::MAX as nat {
            Some(Error::KittyCntOverflow)
        } else if self.owned_by(k.owner).len() >= self.max_owned {
            Some(Error::ExceedMaxKittyOwned)
        } else if self.kitties.contains_key(id) {
            Some(Error::DuplicateKitty)
        } else {
            None
        }
    }

    /// The state after recording `k` under `id`.
    pub open spec fn minted(self, id: KittyId, k: Kitty) -> PalletModel {
        PalletModel {
            count: self.count + 1,
            kitties: self.kitties.insert(id, k),
            owned: self.owned.insert(k.owner, self.owned_by(k.owner).push(id)),
            max_owned: self.max_owned,
        }
    }
}

/// Recording a kitty where nothing forbids it keeps the invariant.
pub proof fn lemma_minted_inv(m: PalletModel, id: KittyId, k: Kitty)
    requires
        m.inv(),
        m.mint_error(id, k) is None,
    ensures
        m.minted(id, k).inv(),
{
    let n = m.minted(id, k);
    assert forall|o: AccountId| #[trigger] n.owned_by(o).no_duplicates() by {
        if o == k.owner {
            let s = m.owned_by(o);
            assert(n.owned_by(o) == s.push(id));
            assert forall|i: int, j: int|
                0 <= i < n.owned_by(o).len() && 0 <= j < n.owned_by(o).len() && i != j implies
                n.owned_by(o)[i] != n.owned_by(o)[j] by {
                assert(s.no_duplicates());
                if i < s.len() {
                    assert(n.owned_by(o)[i] == s[i]);
                    assert(m.kitties.contains_key(s[i]));
                }
                if j < s.len() {
                    assert(n.owned_by(o)[j] == s[j]);
                    assert(m.kitties.contains_key(s[j]));
                }
            }
        } else {
            assert(n.owned_by(o) == m.owned_by(o));
        }
    }
    assert forall|o: AccountId| #[trigger] n.owned_by(o).len() <= n.max_owned by {
        if o != k.owner {
            assert(n.owned_by(o) == m.owned_by(o));
        }
    }
    assert forall|o: AccountId, i: int| 0 <= i < n.owned_by(o).len() implies {
        &&& n.kitties.contains_key(#[trigger] n.owned_by(o)[i])
        &&& n.kitties[n.owned_by(o)[i]].owner == o
    } by {
        if o == k.owner {
            let s = m.owned_by(o);
            if i < s.len() {
                assert(n.owned_by(o)[i] == s[i]);
                assert(m.kitties.contains_key(s[i]));
            }
        } else {
            assert(n.owned_by(o) == m.owned_by(o));
            assert(m.kitties.contains_key(m.owned_by(o)[i]));
        }
    }
}

/// The kitty that a mint records: the given genetic data and gender, or
/// fresh ones drawn from `e`, no price, and `owner` as its owner.
pub open spec fn new_kitty(owner: AccountId, dna: Option<Dna>, gender: Option<Gender>, e: Entropy) -> Kitty {
    Kitty {
        dna: match dna {
            Some(d) => d,
            None => fresh_dna(e),
        },
        price: None,
        gender: match gender {
            Some(g) => g,
            None => fresh_gender(e),
        },
        owner,
    }
}

/// The registry: a kitty counter, a table of kitties by identifier, and for
/// each account the bounded list of identifiers it owns.
pub struct Pallet {
    kitty_count: u64,
    table: Vec<(KittyId, Kitty)>,
    index: HashMap<AccountId, Vec<KittyId>>,
    max_kitty_owned: u32,
}

impl View for Pallet {
    type V = PalletModel;

    closed spec fn view(&self) -> PalletModel {
        PalletModel {
            count: self.kitty_count as nat,
            kitties: table_map(self.table@),
            owned: Map::new(
                |o: AccountId| self.index@.contains_key(o),
                |o: AccountId| self.index@[o]@,
            ),
            max_owned: self.max_kitty_owned as nat,
        }
    }
}

/// What a mint leaves behind: the error and an untouched registry, or the
/// new identifier and the registry with the kitty recorded.
pub open spec fn mint_post(
    pre: Pallet,
    post: Pallet,
    owner: AccountId,
    dna: Option<Dna>,
    gender: Option<Gender>,
    e: Entropy,
    r: Result<KittyId, Error>,
) -> bool {
    let k = new_kitty(owner, dna, gender, e);
    let id = kitty_id_of(k);
    match pre@.mint_error(id, k) {
        Some(err) => r == Err::<KittyId, Error>(err) && post == pre,
        None => r == Ok::<KittyId, Error>(id) && post@ == pre@.minted(id, k),
    }
}

impl Pallet {
    /// The registry is consistent.
    pub open spec fn wf(&self) -> bool {
        self@.inv()
    }

    /// An empty registry with the given configuration.
    pub fn new(config: Config) -> (r: Pallet)
        ensures
            r.wf(),
            r@.count == 0,
            r@.kitties == Map::<KittyId, Kitty>::empty(),
            r@.owned == Map::<AccountId, Seq<KittyId>>::empty(),
            r@.max_owned == config.max_kitty_owned as nat,
    {
        let r = Pallet {
            kitty_count: 0,
            table: Vec::new(),
            index: HashMap::new(),
            max_kitty_owned: config.max_kitty_owned,
        };
        assert(r@.owned =~= Map::<AccountId, Seq<KittyId>>::empty());
        assert(r@.kitties =~= Map::<KittyId, Kitty>::empty());
        r
    }

    /// The number of kitties created.
    pub fn kitty_cnt(&self) -> (r: u64)
        ensures
            r as nat == self@.count,
    {
        self.kitty_count
    }

    /// The most kitties that one account may own.
    pub fn max_kitty_owned(&self) -> (r: u32)
        ensures
            r as nat == self@.max_owned,
    {
        self.max_kitty_owned
    }

    /// The kitty stored under `id`, if any.
    pub fn kitties(&self, id: &KittyId) -> (r: Option<Kitty>)
        ensures
            r == if self@.kitties.contains_key(*id) {
                Some(self@.kitties[*id])
            } else {
                None::<Kitty>
            },
    {
        find_kitty(&self.table, id)
    }

    /// The identifiers that `owner` owns, in order of creation.
    pub fn kitties_owned(&self, owner: &AccountId) -> (r: Vec<KittyId>)
        ensures
            r@ == self@.owned_by(*owner),
    {
        let mut out: Vec<KittyId> = Vec::new();
        match self.index.get(owner) {
            Some(ids) => {
                let mut i: usize = 0;
                while i < ids.len()
                    invariant
                        i <= ids@.len(),
                        out@ == ids@.take(i as int),
                    decreases ids@.len() - i,
                {
                    out.push(ids[i]);
                    i = i + 1;
                    assert(out@ =~= ids@.take(i as int));
                }
                assert(ids@.take(i as int) =~= ids@);
            },
            None => {
                assert(out@ =~= Seq::<KittyId>::empty());
            },
        }
        out
    }
    /// Records `kitty` under `id`, charging it to the kitty's owner: the
    /// counter is reserved first, then the owner's capacity and the
    /// identifier are checked, and only then is anything written, so a
    /// failure leaves the registry as it was.
    pub fn insert_kitty(&mut self, id: KittyId, kitty: Kitty) -> (r: Result<KittyId, Error>)
        requires
            old(self).wf(),
        ensures
            final(self).wf(),
            match old(self)@.mint_error(id, kitty) {
                Some(err) => r == Err::<KittyId, Error>(err) && *final(self) == *old(self),
                None => r == Ok::<KittyId, Error>(id) && final(self)@ == old(self)@.minted(id, kitty),
            },
    {
        let new_cnt: u64 = match self.kitty_count.checked_add(1) {
            Some(c) => c,
            None => {
                return Err(Error::KittyCntOverflow);
            },
        };
        let owner: AccountId = kitty.owner;
        let held: usize = match self.index.get(&owner) {
            Some(ids) => ids.len(),
            None => 0,
        };
        if held as u64 >= self.max_kitty_owned as u64 {
            return Err(Error::ExceedMaxKittyOwned);
        }
        if find_kitty(&self.table, &id).is_some() {
            return Err(Error::DuplicateKitty);
        }
        let ghost pre = self@;
        let mut ids: Vec<KittyId> = match self.index.remove(&owner) {
            Some(v) => v,
            None => Vec::new(),
        };
        ids.push(id);
        self.index.insert(owner, ids);
        proof {
            lemma_table_push(self.table@, (id, kitty));
        }
        self.table.push((id, kitty));
        self.kitty_count = new_cnt;
        proof {
            let post = pre.minted(id, kitty);
            assert(self@.owned =~= post.owned);
            lemma_minted_inv(pre, id, kitty);
        }
        Ok(id)
    }

    /// Creates a kitty for `owner` from the given genetic data and gender,
    /// or from fresh ones drawn from `entropy`, under the identifier that
    /// the kitty's record hashes to.
    pub fn mint(
        &mut self,
        owner: &AccountId,
        dna: Option<Dna>,
        gender: Option<Gender>,
        entropy: &Entropy,
    ) -> (r: Result<KittyId, Error>)
        requires
            old(self).wf(),
        ensures
            final(self).wf(),
            mint_post(*old(self), *final(self), *owner, dna, gender, *entropy, r),
            r is Ok ==> {
                &&& final(self)@.count == old(self)@.count + 1
                &&& !old(self)@.kitties.contains_key(r->Ok_0)
                &&& final(self)@.kitties.contains_key(r->Ok_0)
                &&& final(self)@.kitties[r->Ok_0].owner == *owner
            },
    {
        let kitty = Kitty {
            dna: match dna {
                Some(d) => d,
                None => gen_dna(entropy),
            },
            price: None,
            gender: match gender {
                Some(g) => g,
                None => gen_gender(entropy),
            },
            owner: *owner,
        };
        let id = kitty_id(&kitty);
        self.insert_kitty(id, kitty)
    }

    /// Offspring genetic data of two stored kitties under `mask`; fails
    /// when either parent is not stored.
    pub fn breed_dna_with_mask(&self, kid1: &KittyId, kid2: &KittyId, mask: &Dna) -> (r: Result<Dna, Error>)
        ensures
            self@.kitties.contains_key(*kid1) && self@.kitties.contains_key(*kid2) ==> {
                &&& r is Ok
                &&& is_mix(r->Ok_0, *mask, self@.kitties[*kid1].dna, self@.kitties[*kid2].dna)
            },
            !(self@.kitties.contains_key(*kid1) && self@.kitties.contains_key(*kid2)) ==> r
                == Err::<Dna, Error>(Error::KittyNotExist),
    {
        let dna1 = match self.kitties(kid1) {
            Some(k) => k.dna,
            None => {
                return Err(Error::KittyNotExist);
            },
        };
        let dna2 = match self.kitties(kid2) {
            Some(k) => k.dna,
            None => {
                return Err(Error::KittyNotExist);
            },
        };
        Ok(combine_dna(mask, &dna1, &dna2))
    }

    /// Offspring genetic data of two stored kitties, under a mask of fresh
    /// genetic data drawn from `entropy`; fails when either parent is not
    /// stored.
    pub fn breed_dna(&self, kid1: &KittyId, kid2: &KittyId, entropy: &Entropy) -> (r: Result<Dna, Error>)
        ensures
            self@.kitties.contains_key(*kid1) && self@.kitties.contains_key(*kid2) ==> {
                &&& r is Ok
                &&& is_mix(
                    r->Ok_0,
                    fresh_dna(*entropy),
                    self@.kitties[*kid1].dna,
                    self@.kitties[*kid2].dna,
                )
            },
            !(self@.kitties.contains_key(*kid1) && self@.kitties.contains_key(*kid2)) ==> r
                == Err::<Dna, Error>(Error::KittyNotExist),
    {
        let mask = gen_dna(entropy);
        self.breed_dna_with_mask(kid1, kid2, &mask)
    }

    /// Creates a kitty for `owner` whose genetic data combines the two
    /// parents' and whose gender is fresh; fails, leaving the registry as it
    /// was, when either parent is not stored.
    pub fn breed(&mut self, owner: &AccountId, kid1: &KittyId, kid2: &KittyId, entropy: &Entropy) -> (r:
        Result<KittyId, Error>)
        requires
            old(self).wf(),
        ensures
            final(self).wf(),
            !(old(self)@.kitties.contains_key(*kid1) && old(self)@.kitties.contains_key(*kid2)) ==> {
                &&& r == Err::<KittyId, Error>(Error::KittyNotExist)
                &&& *final(self) == *old(self)
            },
            old(self)@.kitties.contains_key(*kid1) && old(self)@.kitties.contains_key(*kid2) ==> exists|
                child: Dna,
            |
                #[trigger] is_mix(
                    child,
                    fresh_dna(*entropy),
                    old(self)@.kitties[*kid1].dna,
                    old(self)@.kitties[*kid2].dna,
                ) && mint_post(*old(self), *final(self), *owner, Some(child), None, *entropy, r),
    {
        let child = match self.breed_dna(kid1, kid2, entropy) {
            Ok(d) => d,
            Err(e) => {
                return Err(e);
            },
        };
        self.mint(owner, Some(child), None, entropy)
    }

    /// Whether `acct` owns the kitty stored under `kitty_id`; fails when no
    /// kitty is stored there.
    pub fn is_kitty_owner(&self, kitty_id: &KittyId, acct: &AccountId) -> (r: Result<bool, Error>)
        ensures
            self@.kitties.contains_key(*kitty_id) ==> r == Ok::<bool, Error>(
                self@.kitties[*kitty_id].owner == *acct,
            ),
            !self@.kitties.contains_key(*kitty_id) ==> r == Err::<bool, Error>(Error::KittyNotExist),
    {
        match self.kitties(kitty_id) {
            Some(kitty) => Ok(kitty.owner == *acct),
            None => Err(Error::KittyNotExist),
        }
    }

    /// Creates a kitty with fresh genetic data and gender for the signed
    /// caller, and gives the `Created` event to emit; an unsigned call
    /// (`origin` is `None`) is refused before anything else.
    pub fn create_kitty(&mut self, origin: Option<AccountId>, entropy: &Entropy) -> (r: Result<
        Event,
        Error,
    >)
        requires
            old(self).wf(),
        ensures
            final(self).wf(),
            origin is None ==> r == Err::<Event, Error>(Error::Unauthenticated) && *final(self)
                == *old(self),
            origin is Some ==> ({
                let sender = origin->Some_0;
                let k = new_kitty(sender, None, None, *entropy);
                let id = kitty_id_of(k);
                match old(self)@.mint_error(id, k) {
                    Some(err) => r == Err::<Event, Error>(err) && *final(self) == *old(self),
                    None => r == Ok::<Event, Error>(Event::Created(sender, id)) && final(self)@
                        == old(self)@.minted(id, k),
                }
            }),
    {
        let sender: AccountId = match origin {
            Some(s) => s,
            None => {
                return Err(Error::Unauthenticated);
            },
        };
        match self.mint(&sender, None, None, entropy) {
            Ok(kitty_id) => Ok(Event::Created(sender, kitty_id)),
            Err(e) => Err(e),
        }
    }
}

} // verus!
