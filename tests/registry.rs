use kitties::dna::{mix_dna, Kitty};
use kitties::entropy::{random_value, Entropy};
use kitties::pallet::{Config, Error, Event, Pallet};

const X: u64 = 1;
const Y: u64 = 2;
const STAKE: u128 = 10;

fn entropy(n: u8) -> Entropy {
    Entropy { seed: [n; 32], call_index: Some(n as u32) }
}

fn pallet_with(x_free: u128, y_free: u128) -> Pallet {
    let mut p = Pallet::new(Config { stake_for_each_kitty: STAKE, existential_deposit: 1 });
    p.set_free_balance(X, x_free);
    p.set_free_balance(Y, y_free);
    p
}

#[test]
fn mint_registers_one_kitty_owned_by_caller() {
    let mut p = pallet_with(100, 0);
    assert_eq!(p.create(X, &entropy(7)), Ok(()));
    assert_eq!(p.kitties_count(), 1);
    assert_eq!(p.owner(0), Some(X));
    assert_eq!(p.reserved_balance(X), STAKE);
    assert_eq!(p.free_balance(X), 90);
    assert_eq!(p.kitties(0), Some(Kitty(random_value(&entropy(7), X))));
    assert_eq!(p.kitties_list_for_sales(0), None);
    assert_eq!(p.events(), &vec![Event::KittyCreated(X, 0)]);
}

#[test]
fn breed_creates_child_for_breeder() {
    let mut p = pallet_with(100, 100);
    assert_eq!(p.create(X, &entropy(1)), Ok(()));
    assert_eq!(p.create(X, &entropy(2)), Ok(()));
    let before0 = p.kitties(0).unwrap();
    let before1 = p.kitties(1).unwrap();
    assert_eq!(p.breed(Y, 0, 1, &entropy(3)), Ok(()));
    assert_eq!(p.kitties_count(), 3);
    assert_eq!(p.owner(2), Some(Y));
    let selector = random_value(&entropy(3), Y);
    let child = mix_dna(&before0.0, &before1.0, &selector);
    assert_eq!(p.kitties(2), Some(Kitty(child)));
    assert_eq!(p.kitties(0), Some(before0));
    assert_eq!(p.kitties(1), Some(before1));
    assert_eq!(p.owner(0), Some(X));
    assert_eq!(p.owner(1), Some(X));
    assert_eq!(p.reserved_balance(X), 2 * STAKE);
    assert_eq!(p.reserved_balance(Y), STAKE);
    assert_eq!(p.events()[2], Event::KittyCreated(Y, 2));
}

#[test]
fn buy_moves_kitty_price_and_stake() {
    let mut p = pallet_with(100, 100);
    assert_eq!(p.create(X, &entropy(1)), Ok(()));
    assert_eq!(p.sell(X, 0, Some(50)), Ok(()));
    assert_eq!(p.kitties_list_for_sales(0), Some(50));
    assert_eq!(p.buy(Y, 0), Ok(()));
    assert_eq!(p.owner(0), Some(Y));
    assert_eq!(p.kitties_list_for_sales(0), None);
    assert_eq!(p.free_balance(X), 90 + STAKE + 50);
    assert_eq!(p.reserved_balance(X), 0);
    assert_eq!(p.free_balance(Y), 100 - STAKE - 50);
    assert_eq!(p.reserved_balance(Y), STAKE);
    assert_eq!(p.events()[2], Event::KittyTransferred(X, Y, 0));
}

#[test]
fn buy_without_enough_balance_changes_nothing() {
    let mut p = pallet_with(100, 60);
    assert_eq!(p.create(X, &entropy(1)), Ok(()));
    assert_eq!(p.sell(X, 0, Some(50)), Ok(()));
    assert_eq!(p.buy(Y, 0), Err(Error::NotEnoughBalanceForBuying));
    assert_eq!(p.owner(0), Some(X));
    assert_eq!(p.kitties_list_for_sales(0), Some(50));
    assert_eq!(p.free_balance(X), 90);
    assert_eq!(p.reserved_balance(X), STAKE);
    assert_eq!(p.free_balance(Y), 60);
    assert_eq!(p.reserved_balance(Y), 0);
    assert_eq!(p.events().len(), 2);
}

#[test]
fn breed_with_identical_parents_is_refused() {
    let mut p = pallet_with(100, 0);
    assert_eq!(p.create(X, &entropy(1)), Ok(()));
    assert_eq!(p.breed(X, 0, 0, &entropy(2)), Err(Error::SameParentIndex));
    assert_eq!(p.kitties_count(), 1);
    assert_eq!(p.reserved_balance(X), STAKE);
    assert_eq!(p.events().len(), 1);
}

#[test]
fn ids_are_allocated_in_order() {
    let mut p = pallet_with(100, 100);
    for i in 0..3u32 {
        assert_eq!(p.kitties_count(), i);
        assert_eq!(p.owner(i), None);
        assert_eq!(p.create(X, &entropy(i as u8)), Ok(()));
        assert_eq!(p.kitties_count(), i + 1);
    }
    assert_eq!(p.breed(Y, 0, 2, &entropy(9)), Ok(()));
    assert_eq!(p.kitties_count(), 4);
    assert_eq!(p.owner(3), Some(Y));
}

#[test]
fn mix_dna_selects_bits() {
    let mut a = [0u8; 16];
    let mut b = [0u8; 16];
    let mut s = [0u8; 16];
    for i in 0..16 {
        a[i] = 0xAA;
        b[i] = 0x55;
        s[i] = 0xF0;
    }
    s[3] = 0xFF;
    s[4] = 0x00;
    let r = mix_dna(&a, &b, &s);
    for i in 0..16 {
        let expect = if i == 3 { 0xAA } else if i == 4 { 0x55 } else { 0xA5 };
        assert_eq!(r[i], expect);
    }
    let x: [u8; 16] = [0x12, 0x34, 0x56, 0x78, 0x9a, 0xbc, 0xde, 0xf0, 1, 2, 3, 4, 5, 6, 7, 8];
    let y: [u8; 16] = [0xff; 16];
    let z: [u8; 16] = [0x0f; 16];
    let r = mix_dna(&x, &y, &z);
    for i in 0..16 {
        assert_eq!(r[i], (z[i] & x[i]) | (!z[i] & y[i]));
    }
    assert_eq!(r[0], 0xf2);
}

#[test]
fn random_value_hashes_seed_caller_and_index() {
    let e = Entropy { seed: [3u8; 32], call_index: Some(0x01020304) };
    let mut bytes: Vec<u8> = vec![3u8; 32];
    bytes.extend_from_slice(&42u64.to_le_bytes());
    bytes.push(1);
    bytes.extend_from_slice(&0x01020304u32.to_le_bytes());
    assert_eq!(random_value(&e, 42), sp_io::hashing::blake2_128(&bytes));

    let e = Entropy { seed: [3u8; 32], call_index: None };
    let mut bytes: Vec<u8> = vec![3u8; 32];
    bytes.extend_from_slice(&42u64.to_le_bytes());
    bytes.push(0);
    assert_eq!(random_value(&e, 42), sp_io::hashing::blake2_128(&bytes));
}

#[test]
fn random_value_is_deterministic_and_depends_on_caller() {
    let e = entropy(5);
    assert_eq!(random_value(&e, X), random_value(&e, X));
    assert_ne!(random_value(&e, X), random_value(&e, Y));
    assert_ne!(random_value(&entropy(5), X), random_value(&entropy(6), X));
}

#[test]
fn mint_without_stake_is_refused() {
    let mut p = pallet_with(9, 0);
    assert_eq!(p.create(X, &entropy(1)), Err(Error::NotEnoughBalanceForStaking));
    assert_eq!(p.kitties_count(), 0);
    assert_eq!(p.free_balance(X), 9);
    assert!(p.events().is_empty());
}

#[test]
fn mint_with_exact_stake_succeeds() {
    let mut p = pallet_with(10, 0);
    assert_eq!(p.create(X, &entropy(1)), Ok(()));
    assert_eq!(p.free_balance(X), 0);
    assert_eq!(p.reserved_balance(X), 10);
}

#[test]
fn breed_unknown_parent_is_refused() {
    let mut p = pallet_with(100, 0);
    assert_eq!(p.create(X, &entropy(1)), Ok(()));
    assert_eq!(p.breed(X, 0, 1, &entropy(2)), Err(Error::InvalidKittyIndex));
    assert_eq!(p.breed(X, 5, 0, &entropy(2)), Err(Error::InvalidKittyIndex));
    assert_eq!(p.kitties_count(), 1);
}

#[test]
fn breed_without_stake_is_refused() {
    let mut p = pallet_with(100, 5);
    assert_eq!(p.create(X, &entropy(1)), Ok(()));
    assert_eq!(p.create(X, &entropy(2)), Ok(()));
    assert_eq!(p.breed(Y, 0, 1, &entropy(3)), Err(Error::NotEnoughBalanceForStaking));
    assert_eq!(p.kitties_count(), 2);
}

#[test]
fn breed_with_selector_is_exact() {
    let mut p = pallet_with(100, 100);
    assert_eq!(p.new_kitty_with_stake(X, [0xAA; 16]), Ok(()));
    assert_eq!(p.new_kitty_with_stake(X, [0x55; 16]), Ok(()));
    assert_eq!(p.breed_with_selector(Y, 0, 1, [0x0F; 16]), Ok(()));
    assert_eq!(p.kitties(2), Some(Kitty([0x5A; 16])));
    assert_eq!(p.owner(2), Some(Y));
}

#[test]
fn transfer_moves_stake_and_keeps_listing() {
    let mut p = pallet_with(100, 100);
    assert_eq!(p.create(X, &entropy(1)), Ok(()));
    assert_eq!(p.sell(X, 0, Some(30)), Ok(()));
    assert_eq!(p.transfer(X, Y, 0), Ok(()));
    assert_eq!(p.owner(0), Some(Y));
    assert_eq!(p.reserved_balance(X), 0);
    assert_eq!(p.free_balance(X), 100);
    assert_eq!(p.reserved_balance(Y), STAKE);
    assert_eq!(p.free_balance(Y), 90);
    assert_eq!(p.kitties_list_for_sales(0), Some(30));
    assert_eq!(p.events()[2], Event::KittyTransferred(X, Y, 0));
}

#[test]
fn transfer_by_non_owner_is_refused() {
    let mut p = pallet_with(100, 100);
    assert_eq!(p.create(X, &entropy(1)), Ok(()));
    assert_eq!(p.transfer(Y, Y, 0), Err(Error::NotOwner));
    assert_eq!(p.transfer(X, Y, 1), Err(Error::NotOwner));
    assert_eq!(p.owner(0), Some(X));
}

#[test]
fn transfer_to_poor_owner_is_refused() {
    let mut p = pallet_with(100, 3);
    assert_eq!(p.create(X, &entropy(1)), Ok(()));
    assert_eq!(p.transfer(X, Y, 0), Err(Error::NotEnoughBalanceForStaking));
    assert_eq!(p.owner(0), Some(X));
    assert_eq!(p.reserved_balance(X), STAKE);
    assert_eq!(p.free_balance(Y), 3);
}

#[test]
fn transfer_to_self_nets_out() {
    let mut p = pallet_with(100, 0);
    assert_eq!(p.create(X, &entropy(1)), Ok(()));
    assert_eq!(p.transfer(X, X, 0), Ok(()));
    assert_eq!(p.owner(0), Some(X));
    assert_eq!(p.free_balance(X), 90);
    assert_eq!(p.reserved_balance(X), STAKE);
    assert_eq!(p.events()[1], Event::KittyTransferred(X, X, 0));
}

#[test]
fn sell_by_non_owner_is_refused() {
    let mut p = pallet_with(100, 100);
    assert_eq!(p.create(X, &entropy(1)), Ok(()));
    assert_eq!(p.sell(Y, 0, Some(5)), Err(Error::NotOwner));
    assert_eq!(p.sell(X, 3, Some(5)), Err(Error::NotOwner));
    assert_eq!(p.kitties_list_for_sales(0), None);
}

#[test]
fn sell_none_clears_listing() {
    let mut p = pallet_with(100, 100);
    assert_eq!(p.create(X, &entropy(1)), Ok(()));
    assert_eq!(p.sell(X, 0, Some(5)), Ok(()));
    assert_eq!(p.sell(X, 0, None), Ok(()));
    assert_eq!(p.kitties_list_for_sales(0), None);
    assert_eq!(p.events()[2], Event::KittyListed(X, 0, None));
    assert_eq!(p.buy(Y, 0), Err(Error::NotForSale));
}

#[test]
fn buy_refusals() {
    let mut p = pallet_with(100, 100);
    assert_eq!(p.buy(Y, 0), Err(Error::InvalidKittyIndex));
    assert_eq!(p.create(X, &entropy(1)), Ok(()));
    assert_eq!(p.buy(Y, 0), Err(Error::NotForSale));
    assert_eq!(p.sell(X, 0, Some(50)), Ok(()));
    assert_eq!(p.buy(X, 0), Err(Error::BuyerIsOwner));
    assert_eq!(p.owner(0), Some(X));
}

#[test]
fn buy_needs_strictly_more_than_price_and_stake() {
    let mut p = pallet_with(100, 61);
    assert_eq!(p.create(X, &entropy(1)), Ok(()));
    assert_eq!(p.sell(X, 0, Some(50)), Ok(()));
    assert_eq!(p.buy(Y, 0), Ok(()));
    assert_eq!(p.free_balance(Y), 1);
}

#[test]
fn buy_below_minimum_is_refused() {
    let mut p = Pallet::new(Config { stake_for_each_kitty: STAKE, existential_deposit: 5 });
    p.set_free_balance(X, 100);
    p.set_free_balance(Y, 62);
    assert_eq!(p.create(X, &entropy(1)), Ok(()));
    assert_eq!(p.sell(X, 0, Some(50)), Ok(()));
    assert_eq!(p.buy(Y, 0), Err(Error::TransferBelowMinimum));
    assert_eq!(p.free_balance(Y), 62);
    assert_eq!(p.reserved_balance(Y), 0);
    assert_eq!(p.reserved_balance(X), STAKE);
}

#[test]
fn buy_overflowing_seller_is_refused() {
    let mut p = pallet_with(100, 100);
    assert_eq!(p.create(X, &entropy(1)), Ok(()));
    assert_eq!(p.sell(X, 0, Some(50)), Ok(()));
    p.set_free_balance(X, u128::MAX - 20);
    assert_eq!(p.buy(Y, 0), Err(Error::BalanceOverflow));
    assert_eq!(p.owner(0), Some(X));
}

#[test]
fn buy_with_huge_price_is_refused() {
    let mut p = pallet_with(100, u128::MAX - 1);
    assert_eq!(p.create(X, &entropy(1)), Ok(()));
    assert_eq!(p.sell(X, 0, Some(u128::MAX - 5)), Ok(()));
    assert_eq!(p.buy(Y, 0), Err(Error::NotEnoughBalanceForBuying));
}
