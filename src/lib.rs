//! A registry of kitties: minting, breeding and ownership queries over an
//! explicitly owned state, with a global counter, a kitty table and a
//! bounded per-owner index kept consistent by every operation.

pub mod types;
pub mod hashing;
pub mod encoding;
pub mod genetics;
pub mod store;
pub mod pallet;
pub mod laws;
