use kitties::pallet::Config;
use kitties::pallet::Error;
use kitties::pallet::Event;
use kitties::pallet::Kitty;
use kitties::pallet::Pallet;

const STAKE: u128 = 5_000;
const ENDOWMENT: u128 = 10_000_000;

const DNA: [u8; 16] = [0u8; 16];
const SELECTOR: [u8; 16] = [0u8; 16];

/// A fresh store with accounts 1 and 2 endowed and account 3 penniless.
fn new_test_ext() -> Pallet {
    let mut p = Pallet::new(Config { stake_for_each_kitty: STAKE });
    p.set_balance(1, ENDOWMENT);
    p.set_balance(2, ENDOWMENT);
    p
}

#[test]
fn create_works() {
    let mut p = new_test_ext();
    let account_id: u64 = 1;
    assert_eq!(p.create(account_id, DNA), Ok(0));
    assert_eq!(p.kitties_count(), Some(1));
    assert_eq!(p.owner(0), Some(1));
    assert_eq!(p.last_event(), Some(Event::KittyCreated(1, 0)));
}

#[test]
fn breed_works() {
    let mut p = new_test_ext();
    assert_eq!(p.create(1, DNA), Ok(0));
    assert_eq!(p.create(2, DNA), Ok(1));
    assert_eq!(p.breed(1, 0, 1, SELECTOR), Ok(2));
    assert_eq!(p.kitties_count(), Some(3));
    assert_eq!(p.last_event(), Some(Event::KittyCreated(1, 2)));
}

#[test]
fn transfer_works() {
    let mut p = new_test_ext();
    let account_id: u64 = 1;
    assert_eq!(p.create(account_id, DNA), Ok(0));
    assert_eq!(p.transfer(account_id, 2, 0), Ok(()));
    assert_eq!(p.owner(0), Some(2));
    assert_eq!(p.last_event(), Some(Event::KittyTransferred(1, 2, 0)));
}

#[test]
fn sell_works() {
    let mut p = new_test_ext();
    assert_eq!(p.create(1, DNA), Ok(0));
    let price: u128 = 1_200;
    assert_eq!(p.sell(1, 0, Some(price)), Ok(()));
    assert_eq!(p.kitties_list_for_sales(0), Some(price));
    assert_eq!(p.last_event(), Some(Event::KittyListed(1, 0, Some(price))));
}

#[test]
fn create_failed_if_kittiescount_overflow() {
    let mut p = new_test_ext();
    p.put_kitties_count(u32::MAX);
    let account_id: u64 = 1;
    assert_eq!(p.create(account_id, DNA), Err(Error::KittiesCountOverflow));
    assert_eq!(p.kitties_count(), Some(u32::MAX));
}

#[test]
fn create_failed_not_enough_balance() {
    let mut p = new_test_ext();
    let account_id: u64 = 3;
    assert_eq!(p.create(account_id, DNA), Err(Error::NotEnoughBalanceForSave));
    assert_eq!(p.kitties_count(), None);
}

#[test]
fn breed_failed_if_not_enough_balance() {
    let mut p = new_test_ext();
    assert_eq!(p.create(1, DNA), Ok(0));
    assert_eq!(p.create(2, DNA), Ok(1));
    assert_eq!(p.breed(3, 0, 1, SELECTOR), Err(Error::NotEnoughBalanceForSave));
    assert_eq!(p.kitties_count(), Some(2));
}

#[test]
fn breed_failed_if_invalid_kitty_index() {
    let mut p = new_test_ext();
    assert_eq!(p.create(1, DNA), Ok(0));
    assert_eq!(p.create(2, DNA), Ok(1));
    assert_eq!(p.breed(1, 0, 3, SELECTOR), Err(Error::InvalidKittyIndex));
    assert_eq!(p.kitties_count(), Some(2));
}

#[test]
fn breed_failed_if_same_parent() {
    let mut p = new_test_ext();
    assert_eq!(p.create(1, DNA), Ok(0));
    assert_eq!(p.create(2, DNA), Ok(1));
    assert_eq!(p.breed(1, 0, 0, SELECTOR), Err(Error::SameParentIndex));
    assert_eq!(p.kitties_count(), Some(2));
}

#[test]
fn transfer_failed_if_not_owner() {
    let mut p = new_test_ext();
    let account_id: u64 = 1;
    assert_eq!(p.create(account_id, DNA), Ok(0));
    assert_eq!(p.transfer(2, 3, 0), Err(Error::NotOwner));
    assert_eq!(p.owner(0), Some(1));
}

#[test]
fn transfer_failed_if_new_owner_not_enough_balance() {
    let mut p = new_test_ext();
    let account_id: u64 = 1;
    assert_eq!(p.create(account_id, DNA), Ok(0));
    assert_eq!(p.transfer(account_id, 3, 0), Err(Error::NotEnoughBalanceForSave));
    assert_eq!(p.owner(0), Some(1));
}

#[test]
fn buy_works() {
    let mut p = new_test_ext();
    assert_eq!(p.create(1, DNA), Ok(0));
    let price: u128 = 1_200;
    assert_eq!(p.sell(1, 0, Some(price)), Ok(()));
    assert_eq!(p.buy(2, 0), Ok(()));
    assert_eq!(p.owner(0), Some(2));
    assert_eq!(p.last_event(), Some(Event::KittyTransferred(1, 2, 0)));
}

#[test]
fn buy_failed_if_buyer_is_same_owner() {
    let mut p = new_test_ext();
    assert_eq!(p.create(1, DNA), Ok(0));
    let price: u128 = 1_200;
    assert_eq!(p.sell(1, 0, Some(price)), Ok(()));
    assert_eq!(p.buy(1, 0), Err(Error::BuyerIsOwner));
    assert_eq!(p.owner(0), Some(1));
}

#[test]
fn buy_failed_if_not_for_sale() {
    let mut p = new_test_ext();
    assert_eq!(p.create(1, DNA), Ok(0));
    assert_eq!(p.sell(1, 0, None), Ok(()));
    assert_eq!(p.buy(2, 0), Err(Error::NotForSale));
    assert_eq!(p.owner(0), Some(1));
}

#[test]
fn buy_failed_if_not_enough_balance() {
    let mut p = new_test_ext();
    let price: u128 = 1_200;
    assert_eq!(p.create(1, DNA), Ok(0));
    assert_eq!(p.sell(1, 0, Some(price)), Ok(()));
    assert_eq!(p.buy(3, 0), Err(Error::NotEnoughBalanceForBuying));
    assert_eq!(p.owner(0), Some(1));
}

#[test]
fn sell_failed_when_not_owner() {
    let mut p = new_test_ext();
    assert_eq!(p.create(1, DNA), Ok(0));
    let price: u128 = 1_200;
    assert_eq!(p.sell(3, 0, Some(price)), Err(Error::NotOwner));
    assert_eq!(p.kitties_list_for_sales(0), None);
}

#[test]
fn create_reserves_stake_from_caller() {
    let mut p = new_test_ext();
    assert_eq!(p.create(1, DNA), Ok(0));
    assert_eq!(p.free_balance(1), ENDOWMENT - STAKE);
    assert_eq!(p.reserved_balance(1), STAKE);
    assert_eq!(p.event_count(), 1);
}

#[test]
fn create_works_at_exact_stake_balance() {
    let mut p = new_test_ext();
    p.set_balance(4, STAKE);
    assert_eq!(p.create(4, DNA), Ok(0));
    assert_eq!(p.free_balance(4), 0);
    assert_eq!(p.reserved_balance(4), STAKE);
}

#[test]
fn create_fails_just_below_stake_balance() {
    let mut p = new_test_ext();
    p.set_balance(4, STAKE - 1);
    assert_eq!(p.create(4, DNA), Err(Error::NotEnoughBalanceForSave));
    assert_eq!(p.free_balance(4), STAKE - 1);
    assert_eq!(p.reserved_balance(4), 0);
    assert_eq!(p.event_count(), 0);
}

#[test]
fn breed_mixes_genomes_bitwise() {
    let mut p = new_test_ext();
    assert_eq!(p.create(1, [0xAAu8; 16]), Ok(0));
    assert_eq!(p.create(2, [0x55u8; 16]), Ok(1));
    assert_eq!(p.breed(1, 0, 1, [0xF0u8; 16]), Ok(2));
    // (0xF0 & 0xAA) | (!0xF0 & 0x55) == 0xA0 | 0x05 == 0xA5, for each byte
    assert_eq!(p.kitties(2), Some(Kitty([0xA5u8; 16])));
    // the parents' genomes are unchanged
    assert_eq!(p.kitties(0), Some(Kitty([0xAAu8; 16])));
    assert_eq!(p.kitties(1), Some(Kitty([0x55u8; 16])));
}

#[test]
fn breed_allocates_fresh_id_and_charges_caller() {
    let mut p = new_test_ext();
    assert_eq!(p.create(1, DNA), Ok(0));
    assert_eq!(p.create(2, DNA), Ok(1));
    let child = p.breed(2, 0, 1, SELECTOR).unwrap();
    assert_ne!(child, 0);
    assert_ne!(child, 1);
    assert_eq!(p.owner(child), Some(2));
    assert_eq!(p.reserved_balance(2), 2 * STAKE);
    assert_eq!(p.reserved_balance(1), STAKE);
}

#[test]
fn transfer_moves_stake_with_ownership() {
    let mut p = new_test_ext();
    assert_eq!(p.create(1, DNA), Ok(0));
    assert_eq!(p.transfer(1, 2, 0), Ok(()));
    assert_eq!(p.reserved_balance(1), 0);
    assert_eq!(p.free_balance(1), ENDOWMENT);
    assert_eq!(p.reserved_balance(2), STAKE);
    assert_eq!(p.free_balance(2), ENDOWMENT - STAKE);
}

#[test]
fn transfer_to_self_keeps_everything() {
    let mut p = new_test_ext();
    assert_eq!(p.create(1, DNA), Ok(0));
    assert_eq!(p.transfer(1, 1, 0), Ok(()));
    assert_eq!(p.owner(0), Some(1));
    assert_eq!(p.free_balance(1), ENDOWMENT - STAKE);
    assert_eq!(p.reserved_balance(1), STAKE);
    assert_eq!(p.last_event(), Some(Event::KittyTransferred(1, 1, 0)));
}

#[test]
fn delisting_emits_event_and_clears_listing() {
    let mut p = new_test_ext();
    assert_eq!(p.create(1, DNA), Ok(0));
    assert_eq!(p.sell(1, 0, Some(1_200)), Ok(()));
    assert_eq!(p.sell(1, 0, None), Ok(()));
    assert_eq!(p.kitties_list_for_sales(0), None);
    assert_eq!(p.last_event(), Some(Event::KittyListed(1, 0, None)));
}

#[test]
fn buy_moves_price_and_stake() {
    let mut p = new_test_ext();
    let price: u128 = 1_200;
    assert_eq!(p.create(1, DNA), Ok(0));
    assert_eq!(p.sell(1, 0, Some(price)), Ok(()));
    assert_eq!(p.buy(2, 0), Ok(()));
    // seller: stake released, price received
    assert_eq!(p.free_balance(1), ENDOWMENT + price);
    assert_eq!(p.reserved_balance(1), 0);
    // buyer: stake reserved, price paid
    assert_eq!(p.free_balance(2), ENDOWMENT - STAKE - price);
    assert_eq!(p.reserved_balance(2), STAKE);
    assert_eq!(p.kitties_list_for_sales(0), None);
    assert_eq!(p.owner(0), Some(2));
}

#[test]
fn buy_fails_when_funds_only_equal_price_plus_stake() {
    let mut p = new_test_ext();
    let price: u128 = 1_200;
    assert_eq!(p.create(1, DNA), Ok(0));
    assert_eq!(p.sell(1, 0, Some(price)), Ok(()));
    // the free balance must strictly exceed price plus stake
    p.set_balance(4, price + STAKE);
    assert_eq!(p.buy(4, 0), Err(Error::NotEnoughBalanceForBuying));
    p.set_balance(4, price + STAKE + 1);
    assert_eq!(p.buy(4, 0), Ok(()));
}

#[test]
fn buy_fails_on_nonexistent_kitty() {
    let mut p = new_test_ext();
    assert_eq!(p.buy(2, 0), Err(Error::InvalidKittyIndex));
}

#[test]
fn buy_payment_failed_when_seller_cannot_receive() {
    let mut p = new_test_ext();
    p.set_balance(1, u128::MAX);
    assert_eq!(p.create(1, DNA), Ok(0));
    // seller now holds u128::MAX in total; one more unit cannot arrive
    assert_eq!(p.sell(1, 0, Some(1_200)), Ok(()));
    assert_eq!(p.buy(2, 0), Err(Error::PaymentFailed));
    assert_eq!(p.owner(0), Some(1));
    assert_eq!(p.kitties_list_for_sales(0), Some(1_200));
}

#[test]
fn scenario_create_sell_buy() {
    let mut p = new_test_ext();
    assert_eq!(p.create(1, DNA), Ok(0));
    assert_eq!(p.owner(0), Some(1));
    assert_eq!(p.kitties_count(), Some(1));
    assert_eq!(p.sell(1, 0, Some(1_200)), Ok(()));
    assert_eq!(p.buy(2, 0), Ok(()));
    assert_eq!(p.owner(0), Some(2));
    assert_eq!(p.kitties_list_for_sales(0), None);
    assert_eq!(p.last_event(), Some(Event::KittyTransferred(1, 2, 0)));
}

#[test]
fn scenario_two_creates_then_breed() {
    let mut p = new_test_ext();
    assert_eq!(p.create(1, DNA), Ok(0));
    assert_eq!(p.create(2, DNA), Ok(1));
    assert_eq!(p.breed(1, 0, 1, SELECTOR), Ok(2));
    assert_eq!(p.kitties_count(), Some(3));
    assert_eq!(p.last_event(), Some(Event::KittyCreated(1, 2)));
}

#[test]
fn failures_emit_no_event() {
    let mut p = new_test_ext();
    assert_eq!(p.create(3, DNA), Err(Error::NotEnoughBalanceForSave));
    assert_eq!(p.event_count(), 0);
    assert_eq!(p.create(1, DNA), Ok(0));
    assert_eq!(p.event_count(), 1);
    assert_eq!(p.breed(1, 0, 0, SELECTOR), Err(Error::SameParentIndex));
    assert_eq!(p.event_count(), 1);
}
