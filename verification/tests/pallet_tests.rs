use kitties::pallet::Pallet;
use kitties::types::{Error, Event};

const ALICE: u64 = 1;
const BOB: u64 = 2;
const EXISTENTIAL_DEPOSIT: u128 = 1;

fn new_test_pallet() -> Pallet {
    let mut p = Pallet::new(EXISTENTIAL_DEPOSIT);
    p.balances.set_balance(ALICE, 10_000);
    p.balances.set_balance(BOB, 20_000);
    p
}

#[test]
fn create_kitty_success() {
    let mut p = new_test_pallet();
    assert_eq!(p.create(ALICE), Ok(0));
    assert_eq!(p.kitties_count(), Some(1));
    assert_eq!(p.last_event(), Some(Event::KittyCreate(ALICE, 0)));
}

#[test]
fn create_kitty_failed_when_kittyindex_exceed_maxvalue() {
    let mut p = new_test_pallet();
    p.kitties_count = Some(u32::MAX);
    assert_eq!(p.create(ALICE), Err(Error::KittiesCountOverflow));
}

#[test]
fn tranfer_kitty_success() {
    let mut p = new_test_pallet();
    assert_eq!(p.create(ALICE), Ok(0));
    assert_eq!(p.kitties_count(), Some(1));
    assert_eq!(p.transfer(ALICE, BOB, 0), Ok(()));
    assert_eq!(p.last_event(), Some(Event::KittyTransfer(ALICE, BOB, 0)));
}

#[test]
fn tranfer_kitty_failed_when_not_owner() {
    let mut p = new_test_pallet();
    assert_eq!(p.transfer(ALICE, BOB, 99), Err(Error::NotOwner));
}

#[test]
fn tranfer_kitty_failed_when_already_owned() {
    let mut p = new_test_pallet();
    assert_eq!(p.transfer(ALICE, ALICE, 0), Err(Error::AlreadyOwned));
}

#[test]
fn bread_kitty_success() {
    let mut p = new_test_pallet();
    assert_eq!(p.create(ALICE), Ok(0));
    assert_eq!(p.create(ALICE), Ok(1));
    assert_eq!(p.kitties_count(), Some(2));
    assert_eq!(p.owner(0), Some(ALICE));
    assert_eq!(p.owner(1), Some(ALICE));
    assert_eq!(p.bread(ALICE, 0, 1), Ok(2));
    assert_eq!(p.last_event(), Some(Event::KittyCreate(ALICE, 2)));
    assert_eq!(p.kitties_count(), Some(3));
    assert_eq!(p.owner(2), Some(ALICE));
}

#[test]
fn bread_kitty_failed_when_same_parent_index() {
    let mut p = new_test_pallet();
    assert_eq!(p.bread(ALICE, 1, 1), Err(Error::SameParentIndex));
}

#[test]
fn bread_kitty_failed_when_invalid_kittyindex() {
    let mut p = new_test_pallet();
    assert_eq!(p.bread(ALICE, 0, 1), Err(Error::InvalidKittyIndex));
}

#[test]
fn sale_kitty_success() {
    let mut p = new_test_pallet();
    assert_eq!(p.create(ALICE), Ok(0));
    assert_eq!(p.sale(ALICE, 0, Some(5_000)), Ok(()));
    assert_eq!(p.last_event(), Some(Event::KittyForSale(ALICE, 0, Some(5_000))));
}

#[test]
fn sale_kitty_failed_when_not_owner() {
    let mut p = new_test_pallet();
    assert_eq!(p.sale(ALICE, 0, Some(5_000)), Err(Error::NotOwner));
}

#[test]
fn buy_kitty_success() {
    let mut p = new_test_pallet();
    assert_eq!(p.create(ALICE), Ok(0));
    assert_eq!(p.sale(ALICE, 0, Some(8_000)), Ok(()));
    assert_eq!(p.owner(0), Some(ALICE));
    assert_eq!(p.kitty_prices(0), Some(8_000));
    assert_eq!(p.buy(BOB, 0), Ok(()));
    assert_eq!(p.last_event(), Some(Event::KittySaleOut(BOB, 0, Some(8_000))));
    assert_eq!(p.free_balance(ALICE), 10_000 + 8_000);
    assert_eq!(p.free_balance(BOB), 20_000 - 8_000);
    assert_eq!(p.owner(0), Some(BOB));
    assert_eq!(p.kitty_prices(0), None);
}
