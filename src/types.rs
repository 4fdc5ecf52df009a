use vstd::prelude::*;

verus! {

/// An account identity.
pub type AccountId = u64;

/// A monetary amount.
pub type Balance = u128;

/// The 16 bytes of a kitty's genetic data.
pub type Dna = [u8; 16];

/// The identifier of a kitty: a digest of its whole record.
pub type KittyId = [u8; 32];

#[derive(Clone, Copy, Debug, PartialEq, Eq, Structural)]
pub enum Gender {
    Male,
    Female,
}

impl Default for Gender {
    fn default() -> (r: Gender)
        ensures
            r == Gender::Male,
    {
        Gender::Male
    }
}

/// A kitty's record: its genetic data, an optional asking price, its gender
/// and its owner.
#[derive(Clone, Copy, Debug)]
pub struct Kitty {
    pub dna: Dna,
    pub price: Option<Balance>,
    pub gender: Gender,
    pub owner: AccountId,
}

/// The configuration that the registry is built with.
#[derive(Clone, Copy, Debug)]
pub struct Config {
    /// The most kitties that one account may own.
    pub max_kitty_owned: u32,
}

/// What the randomness source and the block height gave for one operation.
#[derive(Clone, Copy, Debug)]
pub struct Entropy {
    /// Output of the randomness source under the tag `dna`.
    pub dna_seed: [u8; 32],
    /// Output of the randomness source under the tag `gender`.
    pub gender_seed: [u8; 32],
    /// The current block number.
    pub block_number: u32,
}

#[derive(Clone, Copy, Debug, PartialEq, Eq, Structural)]
pub enum Error {
    /// Incrementing the kitty counter would overflow.
    KittyCntOverflow,
    /// An account cannot own more kitties than the configured maximum.
    ExceedMaxKittyOwned,
    /// Buyer cannot be the owner.
    BuyerIsKittyOwner,
    /// Cannot transfer a kitty to its owner.
    TransferToSelf,
    /// The kitty does not exist.
    KittyNotExist,
    /// The account is not the kitty's owner.
    NotKittyOwner,
    /// The kitty is not for sale.
    KittyNotForSale,
    /// The bid is lower than the asking price.
    KittyBidPriceTooLow,
    /// The buyer's balance is too low.
    NotEnoughBalance,
    /// A kitty with the same identifier is already stored.
    DuplicateKitty,
    /// The caller's identity could not be resolved.
    Unauthenticated,
}

/// Notifications for the surrounding platform.
#[derive(Clone, Copy, Debug)]
pub enum Event {
    /// A new kitty was created: sender, kitty id.
    Created(AccountId, KittyId),
    /// A kitty's price was set: sender, kitty id, new price.
    PriceSet(AccountId, KittyId, Option<Balance>),
    /// A kitty was transferred: from, to, kitty id.
    Transferred(AccountId, AccountId, KittyId),
    /// A kitty was bought: buyer, seller, kitty id, bid price.
    Bought(AccountId, AccountId, KittyId, Balance),
}

} // verus!
