//! The registry's value types: kitty ids, accounts, balances, the kitty
//! itself, and the error and event enumerations shared by every operation.

use vstd::prelude::*;

verus! {

/// Sequentially assigned kitty identifier. The maximum value is reserved as
/// the overflow sentinel and is never assigned to a kitty.
pub type KittyIndex = u32;

/// Opaque account identifier supplied by the host ledger; only equality is
/// assumed of it.
pub type AccountId = u64;

/// Currency amount used for listing prices and account balances.
pub type Balance = u128;

/// A kitty: a fixed 16-byte genome. The id under which it is stored in the
/// registry identifies it.
#[derive(Clone, Copy, PartialEq, Eq, Debug)]
pub struct Kitty(pub [u8; 16]);

/// Why a balance transfer inside `buy` was refused by the ledger.
#[derive(Clone, Copy, PartialEq, Eq, Debug)]
pub enum CurrencyError {
    /// The source account holds less than the transferred amount.
    InsufficientBalance,
    /// The transfer would leave the source account below the existential
    /// deposit, which the host would treat as destroying the account.
    KeepAlive,
    /// The destination balance would exceed the representable maximum.
    Overflow,
}

/// Every way a registry operation can fail. Each error is fatal to the one
/// operation only, and an operation that fails leaves the state unchanged.
#[derive(Clone, Copy, PartialEq, Eq, Debug)]
pub enum Error {
    /// The kitty counter has reached the reserved maximum.
    KittiesCountOverflow,
    /// The caller does not own the kitty in question (a nonexistent kitty
    /// has no owner, so it falls under this error too).
    NotOwner,
    /// The caller already owns the kitty, so the operation is pointless.
    AlreadyOwned,
    /// Breeding needs two distinct parents.
    SameParentIndex,
    /// A parent id named in a breed has no kitty stored under it.
    InvalidKittyIndex,
    /// A purchase was attempted on a kitty with no listing price.
    NotForSale,
    /// The currency transfer inside a purchase failed; the cause is kept.
    CurrencyTransferFailed(CurrencyError),
}

/// What a successful operation announces to the host.
#[derive(Clone, Copy, PartialEq, Eq, Debug)]
pub enum Event {
    /// A kitty was created or bred: owner and new id.
    KittyCreate(AccountId, KittyIndex),
    /// Ownership moved: previous owner, new owner, id.
    KittyTransfer(AccountId, AccountId, KittyIndex),
    /// A listing was set or cleared: owner, id, price (`None` delists).
    KittyForSale(AccountId, KittyIndex, Option<Balance>),
    /// A listed kitty was bought: buyer, id, price paid.
    KittySaleOut(AccountId, KittyIndex, Option<Balance>),
}

} // verus!
