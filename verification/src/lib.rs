//! A minimal registry of uniquely numbered collectible assets ("kitties"),
//! each carrying a fixed 16-byte genome. The registry supports creating a
//! kitty with a pseudo-random genome, breeding two kitties into a new one by
//! a byte-wise genome combination, transferring ownership, listing a kitty
//! for sale, and buying a listed kitty through a checked currency transfer.
//!
//! All state lives in an explicit [`pallet::Pallet`] value: the kitty
//! counter, the id-to-genome map, the id-to-owner map, the id-to-price
//! listing map, and a small balance ledger with a keep-alive constraint.
//! Every public operation is a single check-then-mutate step whose exact
//! effect, including each error case, is stated in its contract.

pub mod currency;
pub mod entropy;
pub mod pallet;
pub mod types;
