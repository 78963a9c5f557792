//! The five transitions, run against a ledger that keeps free and reserved
//! balances in memory.

use kitties::{
    AccountId, Balance, Config, Error, Event, ExistenceRequirement, Origin, Pallet,
};
use sp_runtime::DispatchError;
use std::collections::HashMap;

const SEED: [u8; 32] = [7; 32];

const INSUFFICIENT: DispatchError = DispatchError::Other("InsufficientBalance");

/// A ledger in memory. It records every request it gets.
struct Balances {
    free: HashMap<AccountId, Balance>,
    reserved: HashMap<AccountId, Balance>,
    reserves: Vec<(AccountId, Balance)>,
    transfers: Vec<(AccountId, AccountId, Balance, ExistenceRequirement)>,
}

impl Balances {
    fn free_balance(&self, who: &AccountId) -> Balance {
        self.free.get(who).copied().unwrap_or(0)
    }

    fn reserved_balance(&self, who: &AccountId) -> Balance {
        self.reserved.get(who).copied().unwrap_or(0)
    }
}

impl Config for Balances {
    fn reserve(&mut self, who: AccountId, value: Balance) -> Result<(), DispatchError> {
        self.reserves.push((who, value));
        let free = self.free_balance(&who);
        if free < value {
            return Err(INSUFFICIENT);
        }
        self.free.insert(who, free - value);
        let reserved = self.reserved_balance(&who);
        self.reserved.insert(who, reserved + value);
        Ok(())
    }

    fn transfer(
        &mut self,
        source: AccountId,
        dest: AccountId,
        value: Balance,
        existence_requirement: ExistenceRequirement,
    ) -> Result<(), DispatchError> {
        self.transfers.push((source, dest, value, existence_requirement));
        let free = self.free_balance(&source);
        if free < value {
            return Err(INSUFFICIENT);
        }
        self.free.insert(source, free - value);
        let had = self.free_balance(&dest);
        self.free.insert(dest, had + value);
        Ok(())
    }
}

/// A fresh registry, and a ledger in which the accounts 1 to 5 hold 100 each.
fn new_test_ext() -> (Pallet, Balances) {
    let mut free = HashMap::new();
    for who in 1..=5 {
        free.insert(who, 100);
    }
    let balances =
        Balances { free, reserved: HashMap::new(), reserves: Vec::new(), transfers: Vec::new() };
    (Pallet::new(), balances)
}

fn create(kitties: &mut Pallet, balances: &mut Balances, who: AccountId, deposit: Balance)
    -> Result<Event, Error> {
    kitties.create(balances, Origin::signed(who), deposit, &SEED, Some(0))
}

#[test]
fn create_kitty_works() {
    let (mut kitties, mut balances) = new_test_ext();
    assert_eq!(balances.free_balance(&1), 100);
    assert_eq!(balances.reserved_balance(&1), 0);
    assert_eq!(create(&mut kitties, &mut balances, 1, 10), Ok(Event::KittyCreate(1, 0)));
    assert_eq!(balances.free_balance(&1), 90);
    assert_eq!(balances.reserved_balance(&1), 10);
    assert_eq!(kitties.owner(0), Option::Some(1));
}

#[test]
fn transfer_kitty_works() {
    let (mut kitties, mut balances) = new_test_ext();
    let _ = create(&mut kitties, &mut balances, 1, 10);
    assert_eq!(kitties.transfer(Origin::signed(1), 2, 0), Ok(Event::KittyTransfer(1, 2, 0)));
    assert_eq!(kitties.owner(0), Option::Some(2));
}

#[test]
#[allow(non_snake_case)]
fn transfer_kitty_faild_when_invalidKittyIndex() {
    let (mut kitties, mut balances) = new_test_ext();
    let _ = create(&mut kitties, &mut balances, 1, 10);
    let before = kitties.clone();
    assert_eq!(kitties.transfer(Origin::signed(1), 2, 1), Err(Error::InvalidKittyIndex));
    assert_eq!(kitties, before);
}

#[test]
fn transfer_kitty_faild_when_notowner() {
    let (mut kitties, mut balances) = new_test_ext();
    let _ = create(&mut kitties, &mut balances, 1, 10);
    let before = kitties.clone();
    assert_eq!(kitties.transfer(Origin::signed(2), 3, 0), Err(Error::NotOwner));
    assert_eq!(kitties, before);
}

#[test]
fn breed_kitty_work() {
    let (mut kitties, mut balances) = new_test_ext();
    let _ = create(&mut kitties, &mut balances, 1, 10);
    let _ = create(&mut kitties, &mut balances, 2, 10);
    assert_eq!(
        kitties.breed(Origin::signed(1), 0, 1, &SEED, Some(0)),
        Ok(Event::KittyCreate(1, 2))
    );
    assert_eq!(kitties.owner(2), Option::Some(1));
}

#[test]
#[allow(non_snake_case)]
fn breed_kitty_failed_when_sameParentIndex() {
    let (mut kitties, mut balances) = new_test_ext();
    let _ = create(&mut kitties, &mut balances, 1, 10);
    let _ = create(&mut kitties, &mut balances, 2, 10);
    let before = kitties.clone();
    assert_eq!(
        kitties.breed(Origin::signed(1), 1, 1, &SEED, Some(0)),
        Err(Error::SameParentIndex)
    );
    assert_eq!(kitties, before);
}

#[test]
fn offer_kitty_works() {
    let (mut kitties, mut balances) = new_test_ext();
    let _ = create(&mut kitties, &mut balances, 1, 10);
    assert_eq!(kitties.offer(Origin::signed(1), 20, 0), Ok(Event::KittyOffer(1, 20, 0)));
    assert_eq!(kitties.offers(0), Some(20));
}

#[test]
#[allow(non_snake_case)]
fn offer_kitty_failed_when_notOwner() {
    let (mut kitties, mut balances) = new_test_ext();
    let _ = create(&mut kitties, &mut balances, 1, 10);
    let before = kitties.clone();
    assert_eq!(kitties.offer(Origin::signed(2), 20, 0), Err(Error::NotOwner));
    assert_eq!(kitties, before);
}

#[test]
fn buy_kitty_works() {
    let (mut kitties, mut balances) = new_test_ext();
    let _ = create(&mut kitties, &mut balances, 1, 10);
    assert_eq!(kitties.offer(Origin::signed(1), 20, 0), Ok(Event::KittyOffer(1, 20, 0)));
    assert_eq!(balances.free_balance(&2), 100);
    assert_eq!(kitties.buy(&mut balances, Origin::signed(2), 0), Ok(Event::KittyTransfer(1, 2, 0)));
    assert_eq!(balances.free_balance(&2), 80);
    assert_eq!(kitties.owner(0), Option::Some(2));
    assert_eq!(kitties.offers(0), None);
}

#[test]
#[allow(non_snake_case)]
fn buy_kitty_failed_notOffer() {
    let (mut kitties, mut balances) = new_test_ext();
    let _ = create(&mut kitties, &mut balances, 1, 10);
    let before = kitties.clone();
    assert_eq!(kitties.buy(&mut balances, Origin::signed(2), 0), Err(Error::NotOffer));
    assert_eq!(kitties, before);
}

#[test]
fn new_registry_is_empty() {
    let kitties = Pallet::new();
    assert_eq!(kitties.kitties_count(), None);
    assert_eq!(kitties.next_kitty_id(), Some(0));
    assert_eq!(kitties.kitties(0), None);
    assert_eq!(kitties.owner(0), None);
    assert_eq!(kitties.offers(0), None);
}

#[test]
fn ids_are_given_out_in_order() {
    let (mut kitties, mut balances) = new_test_ext();
    for expected in 0..20u32 {
        let who = 1 + u64::from(expected % 5);
        assert_eq!(kitties.next_kitty_id(), Some(expected));
        let made = if expected % 3 == 2 {
            kitties.breed(Origin::signed(who), 0, 1, &SEED, Some(expected))
        } else {
            kitties.create(&mut balances, Origin::signed(who), 1, &SEED, Some(expected))
        };
        assert_eq!(made, Ok(Event::KittyCreate(who, expected)));
        // Calls that make no kitty give no identifier away.
        assert_eq!(kitties.transfer(Origin::signed(who), who, expected), Ok(Event::KittyTransfer(who, who, expected)));
        assert_eq!(kitties.offer(Origin::signed(9), 1, expected), Err(Error::NotOwner));
        assert_eq!(kitties.kitties_count(), Some(expected + 1));
        assert_eq!(kitties.owner(expected), Some(who));
        assert!(kitties.kitties(expected).is_some());
        assert_eq!(kitties.kitties(expected + 1), None);
        assert_eq!(kitties.owner(expected + 1), None);
    }
}

#[test]
fn create_takes_its_genome_from_seed_caller_and_index() {
    let (mut kitties, mut balances) = new_test_ext();
    let seed: [u8; 32] = core::array::from_fn(|i| i as u8);
    assert_eq!(
        kitties.create(&mut balances, Origin::signed(1), 10, &seed, Some(0)),
        Ok(Event::KittyCreate(1, 0))
    );
    assert_eq!(
        kitties.kitties(0).map(|k| k.0),
        Some([
            0x5e, 0x50, 0x5b, 0x5a, 0x12, 0xb6, 0xdc, 0x84, 0x60, 0xb7, 0x75, 0x62, 0xd3, 0x72,
            0xa6, 0xdc
        ])
    );
    assert_eq!(
        kitties.create(&mut balances, Origin::signed(2), 10, &seed, Some(0)),
        Ok(Event::KittyCreate(2, 1))
    );
    assert_eq!(
        kitties.kitties(1).map(|k| k.0),
        Some([
            0x05, 0x4d, 0x34, 0x0e, 0x44, 0x9a, 0xf6, 0x8c, 0x0e, 0x13, 0x0f, 0x0a, 0x1d, 0xa6,
            0xc8, 0x6e
        ])
    );
}

#[test]
fn create_asks_the_ledger_for_the_deposit_of_the_caller() {
    let (mut kitties, mut balances) = new_test_ext();
    assert_eq!(create(&mut kitties, &mut balances, 3, 42), Ok(Event::KittyCreate(3, 0)));
    assert_eq!(balances.reserves, vec![(3, 42)]);
    assert!(balances.transfers.is_empty());
    assert_eq!(balances.free_balance(&3), 58);
    assert_eq!(balances.reserved_balance(&3), 42);
}

#[test]
fn create_fails_with_the_answer_of_the_ledger_and_changes_nothing() {
    let (mut kitties, mut balances) = new_test_ext();
    let _ = create(&mut kitties, &mut balances, 1, 10);
    let before = kitties.clone();
    assert_eq!(create(&mut kitties, &mut balances, 2, 101), Err(Error::Ledger(INSUFFICIENT)));
    assert_eq!(kitties, before);
    assert_eq!(kitties.kitties_count(), Some(1));
    assert_eq!(kitties.kitties(1), None);
    assert_eq!(kitties.owner(1), None);
    assert_eq!(balances.free_balance(&2), 100);
    assert_eq!(balances.reserved_balance(&2), 0);
    // The identifier that was not used goes to the next kitty.
    assert_eq!(create(&mut kitties, &mut balances, 2, 100), Ok(Event::KittyCreate(2, 1)));
}

#[test]
fn create_with_goes_by_the_answer_it_is_given() {
    let mut kitties = Pallet::new();
    let before = kitties.clone();
    assert_eq!(
        kitties.create_with(Origin::signed(1), &SEED, None, Err(DispatchError::CannotLookup)),
        Err(Error::Ledger(DispatchError::CannotLookup))
    );
    assert_eq!(kitties, before);
    assert_eq!(
        kitties.create_with(Origin::none(), &SEED, None, Err(DispatchError::CannotLookup)),
        Err(Error::BadOrigin)
    );
    assert_eq!(kitties, before);
    assert_eq!(
        kitties.create_with(Origin::signed(1), &SEED, None, Ok(())),
        Ok(Event::KittyCreate(1, 0))
    );
    assert_eq!(kitties.owner(0), Some(1));
    assert_eq!(kitties.kitties_count(), Some(1));
}

#[test]
fn unsigned_calls_are_refused_before_anything_else() {
    let (mut kitties, mut balances) = new_test_ext();
    let _ = create(&mut kitties, &mut balances, 1, 10);
    let _ = kitties.offer(Origin::signed(1), 20, 0);
    let before = kitties.clone();
    for origin in [Origin::none(), Origin::root()] {
        assert_eq!(kitties.check_create(origin), Err(Error::BadOrigin));
        assert_eq!(
            kitties.create(&mut balances, origin, 10, &SEED, Some(0)),
            Err(Error::BadOrigin)
        );
        assert_eq!(kitties.transfer(origin, 2, 0), Err(Error::BadOrigin));
        assert_eq!(kitties.transfer(origin, 2, 9), Err(Error::BadOrigin));
        assert_eq!(kitties.breed(origin, 0, 0, &SEED, Some(0)), Err(Error::BadOrigin));
        assert_eq!(kitties.offer(origin, 20, 0), Err(Error::BadOrigin));
        assert_eq!(kitties.check_buy(origin, 0), Err(Error::BadOrigin));
        assert_eq!(kitties.buy(&mut balances, origin, 0), Err(Error::BadOrigin));
        assert_eq!(kitties.buy_with(origin, 0, Ok(())), Err(Error::BadOrigin));
    }
    assert_eq!(kitties, before);
    assert_eq!(balances.reserves, vec![(1, 10)]);
    assert!(balances.transfers.is_empty());
}

#[test]
fn transfer_leaves_a_standing_offer_in_place() {
    let (mut kitties, mut balances) = new_test_ext();
    let _ = create(&mut kitties, &mut balances, 1, 10);
    assert_eq!(kitties.offer(Origin::signed(1), 20, 0), Ok(Event::KittyOffer(1, 20, 0)));
    assert_eq!(kitties.transfer(Origin::signed(1), 2, 0), Ok(Event::KittyTransfer(1, 2, 0)));
    assert_eq!(kitties.offers(0), Some(20));
    // The offer of the earlier owner can still be taken; the new owner is paid.
    assert_eq!(kitties.buy(&mut balances, Origin::signed(2), 0), Err(Error::IsOwner));
    assert_eq!(kitties.buy(&mut balances, Origin::signed(3), 0), Ok(Event::KittyTransfer(2, 3, 0)));
    assert_eq!(balances.transfers, vec![(3, 2, 20, ExistenceRequirement::AllowDeath)]);
    assert_eq!(balances.free_balance(&1), 90);
    assert_eq!(balances.free_balance(&2), 120);
    assert_eq!(balances.free_balance(&3), 80);
    assert_eq!(kitties.owner(0), Some(3));
    assert_eq!(kitties.offers(0), None);
}

#[test]
fn breed_needs_two_kitties_that_exist() {
    let (mut kitties, mut balances) = new_test_ext();
    let _ = create(&mut kitties, &mut balances, 1, 10);
    let _ = create(&mut kitties, &mut balances, 2, 10);
    let before = kitties.clone();
    assert_eq!(kitties.breed(Origin::signed(1), 0, 2, &SEED, None), Err(Error::InvalidKittyIndex));
    assert_eq!(kitties.breed(Origin::signed(1), 2, 0, &SEED, None), Err(Error::InvalidKittyIndex));
    assert_eq!(kitties.breed(Origin::signed(1), 7, 8, &SEED, None), Err(Error::InvalidKittyIndex));
    assert_eq!(kitties.breed(Origin::signed(1), 7, 7, &SEED, None), Err(Error::SameParentIndex));
    assert_eq!(kitties, before);
}

#[test]
fn breed_is_open_to_all_and_takes_no_deposit() {
    let (mut kitties, mut balances) = new_test_ext();
    let _ = create(&mut kitties, &mut balances, 1, 10);
    let _ = create(&mut kitties, &mut balances, 2, 10);
    // Account 3 owns neither parent.
    assert_eq!(kitties.breed(Origin::signed(3), 1, 0, &SEED, Some(4)), Ok(Event::KittyCreate(3, 2)));
    assert_eq!(kitties.owner(2), Some(3));
    assert_eq!(kitties.owner(0), Some(1));
    assert_eq!(kitties.owner(1), Some(2));
    assert_eq!(kitties.kitties_count(), Some(3));
    assert_eq!(balances.reserves, vec![(1, 10), (2, 10)]);
    assert_eq!(balances.free_balance(&3), 100);
    assert_eq!(balances.reserved_balance(&3), 0);
}

#[test]
fn breed_combines_the_parents_under_the_drawn_selector() {
    let (mut kitties, mut balances) = new_test_ext();
    let _ = kitties.create(&mut balances, Origin::signed(1), 10, &SEED, Some(0));
    let _ = kitties.create(&mut balances, Origin::signed(2), 10, &SEED, Some(1));
    let mother = kitties.kitties(0).unwrap().0;
    let father = kitties.kitties(1).unwrap().0;
    assert_eq!(kitties.breed(Origin::signed(1), 0, 1, &SEED, Some(2)), Ok(Event::KittyCreate(1, 2)));
    let selector = kitties::random_value(&SEED, 1, Some(2));
    let child = kitties.kitties(2).unwrap().0;
    for i in 0..16 {
        assert_eq!(child[i], (selector[i] & mother[i]) | (!selector[i] & father[i]));
    }
    assert_eq!(child, kitties::combine(&mother, &father, &selector));
    // The parents are as they were.
    assert_eq!(kitties.kitties(0).unwrap().0, mother);
    assert_eq!(kitties.kitties(1).unwrap().0, father);
}

#[test]
fn offer_replaces_an_earlier_price() {
    let (mut kitties, mut balances) = new_test_ext();
    let _ = create(&mut kitties, &mut balances, 1, 10);
    assert_eq!(kitties.offer(Origin::signed(1), 20, 0), Ok(Event::KittyOffer(1, 20, 0)));
    assert_eq!(kitties.offer(Origin::signed(1), 35, 0), Ok(Event::KittyOffer(1, 35, 0)));
    assert_eq!(kitties.offers(0), Some(35));
    assert_eq!(kitties.check_buy(Origin::signed(2), 0), Ok((2, 1, 35)));
    assert_eq!(kitties.owner(0), Some(1));
}

#[test]
fn offer_on_a_kitty_that_does_not_exist_is_not_owner() {
    let (mut kitties, mut balances) = new_test_ext();
    let _ = create(&mut kitties, &mut balances, 1, 10);
    let before = kitties.clone();
    assert_eq!(kitties.offer(Origin::signed(1), 20, 1), Err(Error::NotOwner));
    assert_eq!(kitties, before);
}

#[test]
fn buy_checks_in_order_and_asks_the_ledger_last() {
    let (mut kitties, mut balances) = new_test_ext();
    let _ = create(&mut kitties, &mut balances, 1, 10);
    // No such kitty comes before no offer.
    assert_eq!(kitties.buy(&mut balances, Origin::signed(2), 1), Err(Error::InvalidKittyIndex));
    assert_eq!(kitties.check_buy(Origin::signed(2), 1), Err(Error::InvalidKittyIndex));
    // No offer comes before being the owner.
    assert_eq!(kitties.buy(&mut balances, Origin::signed(1), 0), Err(Error::NotOffer));
    let _ = kitties.offer(Origin::signed(1), 20, 0);
    assert_eq!(kitties.buy(&mut balances, Origin::signed(1), 0), Err(Error::IsOwner));
    assert!(balances.transfers.is_empty());
    assert_eq!(kitties.check_buy(Origin::signed(2), 0), Ok((2, 1, 20)));
}

#[test]
fn buy_fails_with_the_answer_of_the_ledger_and_changes_nothing() {
    let (mut kitties, mut balances) = new_test_ext();
    let _ = create(&mut kitties, &mut balances, 1, 10);
    let _ = kitties.offer(Origin::signed(1), 101, 0);
    let before = kitties.clone();
    assert_eq!(kitties.buy(&mut balances, Origin::signed(2), 0), Err(Error::Ledger(INSUFFICIENT)));
    assert_eq!(kitties, before);
    assert_eq!(kitties.owner(0), Some(1));
    assert_eq!(kitties.offers(0), Some(101));
    assert_eq!(balances.free_balance(&1), 90);
    assert_eq!(balances.free_balance(&2), 100);
    assert_eq!(
        kitties.buy_with(Origin::signed(2), 0, Err(DispatchError::NoProviders)),
        Err(Error::Ledger(DispatchError::NoProviders))
    );
    assert_eq!(kitties, before);
}

#[test]
fn buy_may_empty_the_account_of_the_buyer() {
    let (mut kitties, mut balances) = new_test_ext();
    let _ = create(&mut kitties, &mut balances, 1, 10);
    let _ = kitties.offer(Origin::signed(1), 100, 0);
    assert_eq!(kitties.buy(&mut balances, Origin::signed(2), 0), Ok(Event::KittyTransfer(1, 2, 0)));
    assert_eq!(balances.transfers, vec![(2, 1, 100, ExistenceRequirement::AllowDeath)]);
    assert_eq!(balances.free_balance(&2), 0);
    assert_eq!(balances.free_balance(&1), 190);
}

#[test]
fn a_second_buy_finds_no_offer() {
    let (mut kitties, mut balances) = new_test_ext();
    let _ = create(&mut kitties, &mut balances, 1, 10);
    let _ = kitties.offer(Origin::signed(1), 20, 0);
    assert_eq!(kitties.buy(&mut balances, Origin::signed(2), 0), Ok(Event::KittyTransfer(1, 2, 0)));
    let before = kitties.clone();
    assert_eq!(kitties.buy(&mut balances, Origin::signed(3), 0), Err(Error::NotOffer));
    assert_eq!(kitties, before);
    assert_eq!(balances.free_balance(&3), 100);
    assert_eq!(balances.free_balance(&1), 110);
}

#[test]
fn the_owner_cannot_buy_its_own_kitty() {
    let (mut kitties, mut balances) = new_test_ext();
    let _ = create(&mut kitties, &mut balances, 1, 10);
    let _ = kitties.offer(Origin::signed(1), 20, 0);
    let before = kitties.clone();
    assert_eq!(kitties.buy(&mut balances, Origin::signed(1), 0), Err(Error::IsOwner));
    assert_eq!(kitties, before);
    assert_eq!(balances.free_balance(&1), 90);
}

#[test]
fn new_kitty_records_what_it_is_given() {
    let mut kitties = Pallet::new();
    let dna = [0xa5; 16];
    assert_eq!(kitties.new_kitty(4, dna), Some(0));
    assert_eq!(kitties.new_kitty(5, [0x5a; 16]), Some(1));
    assert_eq!(kitties.kitties_count(), Some(2));
    assert_eq!(kitties.kitties(0).map(|k| k.0), Some(dna));
    assert_eq!(kitties.kitties(1).map(|k| k.0), Some([0x5a; 16]));
    assert_eq!(kitties.owner(0), Some(4));
    assert_eq!(kitties.owner(1), Some(5));
    assert_eq!(kitties.offers(0), None);
    assert_eq!(kitties.next_kitty_id(), Some(2));
}
