//! The registry itself: the stores, and the transitions that change them.

use crate::genome::{combine, random_value};
use crate::state::{ledger_answer, State};
use crate::types::{
    ensure_signed, AccountId, Balance, Error, Event, ExistenceRequirement, Kitty, KittyIndex,
    Origin, Record,
};
use sp_runtime::DispatchError;
use std::collections::HashMap;
use vstd::prelude::*;

verus! {

broadcast use vstd::std_specs::hash::group_hash_axioms;

/// What the registry is configured with: the currency ledger in which
/// deposits are held and kitties are paid for. The registry never reads a
/// balance; it asks for one of the two operations and goes by the answer.
/// Nothing is assumed of an answer.
pub trait Config {
    /// Sets `value` of the free balance of `who` aside, or refuses.
    fn reserve(&mut self, who: AccountId, value: Balance) -> Result<(), DispatchError>;

    /// Moves `value` of free balance from `source` to `dest`, or refuses.
    fn transfer(
        &mut self,
        source: AccountId,
        dest: AccountId,
        value: Balance,
        existence_requirement: ExistenceRequirement,
    ) -> Result<(), DispatchError>;
}

/// The registry: the counter of kitties, their genomes, their owners, and the
/// prices of those that are for sale.
#[derive(Debug, PartialEq, Eq)]
pub struct Pallet {
    kitties_count: Option<KittyIndex>,
    kitties: HashMap<KittyIndex, Kitty>,
    owner: HashMap<KittyIndex, AccountId>,
    offers: HashMap<KittyIndex, Balance>,
}

/// The state that the four stores stand for.
spec fn state_of(
    kitties_count: Option<KittyIndex>,
    kitties: Map<KittyIndex, Kitty>,
    owner: Map<KittyIndex, AccountId>,
    offers: Map<KittyIndex, Balance>,
) -> State {
    State {
        count: kitties_count,
        kitties: Map::new(|id: KittyIndex| kitties.contains_key(id), |id: KittyIndex| kitties[id]@),
        owners: owner,
        offers: offers,
    }
}

impl View for Pallet {
    type V = State;

    closed spec fn view(&self) -> State {
        state_of(self.kitties_count, self.kitties@, self.owner@, self.offers@)
    }
}

impl Clone for Pallet {
    /// A second registry that holds what this one holds.
    fn clone(&self) -> (other: Pallet)
        ensures
            other@ == self@,
            other@.inv(),
    {
        proof {
            use_type_invariant(self);
        }
        Pallet {
            kitties_count: self.kitties_count,
            kitties: self.kitties.clone(),
            owner: self.owner.clone(),
            offers: self.offers.clone(),
        }
    }
}

impl Pallet {
    /// What holds of every registry at all times: the invariant of its state.
    #[verifier::type_invariant]
    spec fn well_formed(self) -> bool {
        self@.inv()
    }

    /// A registry in which nothing has happened yet.
    pub fn new() -> (pallet: Pallet)
        ensures
            pallet@ == State::empty(),
            pallet@.inv(),
    {
        let pallet = Pallet {
            kitties_count: None,
            kitties: HashMap::new(),
            owner: HashMap::new(),
            offers: HashMap::new(),
        };
        assert(pallet@ =~= State::empty());
        pallet
    }

    /// Rebuilds the registry that holds the kitties of `records`, the one at
    /// place `i` under the identifier `i`. There is none if the counter
    /// cannot hold their number.
    pub fn restore(records: &Vec<Record>) -> (pallet: Option<Pallet>)
        ensures
            pallet is Some <==> records.len() <= KittyIndex::MAX,
            pallet matches Some(p) ==> p@ == State::of_records(records@) && p@.inv(),
    {
        if records.len() > KittyIndex::MAX as usize {
            return None;
        }
        let mut kitties: HashMap<KittyIndex, Kitty> = HashMap::new();
        let mut owner: HashMap<KittyIndex, AccountId> = HashMap::new();
        let mut offers: HashMap<KittyIndex, Balance> = HashMap::new();
        let mut i: usize = 0;
        while i < records.len()
            invariant
                i <= records.len() <= KittyIndex::MAX,
                forall|id: KittyIndex| #[trigger] kitties@.contains_key(id) <==> id < i,
                forall|id: KittyIndex| #[trigger] owner@.contains_key(id) <==> id < i,
                forall|id: KittyIndex| #[trigger]
                    offers@.contains_key(id) <==> id < i && records@[id as int].price is Some,
                forall|id: KittyIndex|
                    id < i ==> #[trigger] kitties@[id] == records@[id as int].kitty,
                forall|id: KittyIndex| id < i ==> #[trigger] owner@[id] == records@[id as int].owner,
                forall|id: KittyIndex|
                    id < i && records@[id as int].price is Some ==> #[trigger] offers@[id]
                        == records@[id as int].price.unwrap(),
            decreases records.len() - i,
        {
            let record = records[i];
            kitties.insert(i as KittyIndex, record.kitty);
            owner.insert(i as KittyIndex, record.owner);
            if let Some(price) = record.price {
                offers.insert(i as KittyIndex, price);
            }
            i += 1;
        }
        let kitties_count = if i == 0 {
            None
        } else {
            Some(i as KittyIndex)
        };
        assert(state_of(kitties_count, kitties@, owner@, offers@) =~= State::of_records(records@));
        Some(Pallet { kitties_count, kitties, owner, offers })
    }

    /// The kitties of the registry, as many as it counts, the one with
    /// identifier `i` at place `i`: what `restore` rebuilds the registry from.
    pub fn records(&self) -> (records: Vec<Record>)
        ensures
            records@.len() == self@.total(),
            State::of_records(records@) == self@,
            self@.inv(),
    {
        proof {
            use_type_invariant(self);
        }
        let total = match self.kitties_count {
            Some(count) => count,
            None => 0,
        };
        let mut records: Vec<Record> = Vec::new();
        let mut id: KittyIndex = 0;
        while id < total
            invariant
                id <= total == self@.total(),
                self@.inv(),
                records.len() == id,
                forall|j: KittyIndex|
                    j < id ==> {
                        &&& (#[trigger] records@[j as int]).kitty@ == self@.kitties[j]
                        &&& records@[j as int].owner == self@.owners[j]
                        &&& records@[j as int].price == if self@.offers.contains_key(j) {
                            Some(self@.offers[j])
                        } else {
                            None
                        }
                    },
            decreases total - id,
        {
            let kitty = self.kitties(id).unwrap();
            let owner = self.owner(id).unwrap();
            records.push(Record { kitty, owner, price: self.offers(id) });
            id += 1;
        }
        assert(State::of_records(records@) =~= self@);
        records
    }

    /// The number of kitties created so far; `None` before the first one.
    pub fn kitties_count(&self) -> (count: Option<KittyIndex>)
        ensures
            count == self@.count,
            self@.inv(),
    {
        proof {
            use_type_invariant(self);
        }
        self.kitties_count
    }

    /// The kitty with identifier `kitty_id`, if there is one.
    pub fn kitties(&self, kitty_id: KittyIndex) -> (kitty: Option<Kitty>)
        ensures
            match kitty {
                Some(k) => self@.kitties.contains_key(kitty_id) && k@ == self@.kitties[kitty_id],
                None => !self@.kitties.contains_key(kitty_id),
            },
            self@.inv(),
    {
        proof {
            use_type_invariant(self);
        }
        match self.kitties.get(&kitty_id) {
            Some(k) => Some(*k),
            None => None,
        }
    }

    /// The owner of kitty `kitty_id`, if it exists.
    pub fn owner(&self, kitty_id: KittyIndex) -> (owner: Option<AccountId>)
        ensures
            owner == if self@.owners.contains_key(kitty_id) {
                Some(self@.owners[kitty_id])
            } else {
                None
            },
            self@.inv(),
    {
        proof {
            use_type_invariant(self);
        }
        match self.owner.get(&kitty_id) {
            Some(who) => Some(*who),
            None => None,
        }
    }

    /// The price at which kitty `kitty_id` is for sale, if it is.
    pub fn offers(&self, kitty_id: KittyIndex) -> (price: Option<Balance>)
        ensures
            price == if self@.offers.contains_key(kitty_id) {
                Some(self@.offers[kitty_id])
            } else {
                None
            },
            self@.inv(),
    {
        proof {
            use_type_invariant(self);
        }
        match self.offers.get(&kitty_id) {
            Some(price) => Some(*price),
            None => None,
        }
    }

    /// The identifier that the next kitty will get, or `None` when the counter
    /// has reached the largest value of its type. Nothing is changed.
    pub fn next_kitty_id(&self) -> (id: Option<KittyIndex>)
        ensures
            id == self@.next_id(),
            self@.inv(),
    {
        proof {
            use_type_invariant(self);
        }
        match self.kitties_count {
            Some(count) => {
                if count == KittyIndex::MAX {
                    None
                } else {
                    Some(count)
                }
            },
            None => Some(0),
        }
    }

    /// Records a kitty of `sender` with genome `dna` under the next identifier
    /// and advances the counter. Returns the identifier, or `None`, with
    /// nothing changed, when no identifier is left.
    pub fn new_kitty(&mut self, sender: AccountId, dna: [u8; 16]) -> (id: Option<KittyIndex>)
        ensures
            final(self)@ == old(self)@.new_kitty(sender, dna@).0,
            id == old(self)@.new_kitty(sender, dna@).1,
            final(self)@.inv(),
    {
        proof {
            use_type_invariant(&*self);
        }
        let kitty_id = match self.next_kitty_id() {
            Some(id) => id,
            None => {
                return None;
            },
        };
        let Pallet { kitties_count: _, mut kitties, mut owner, offers } = self.take();
        kitties.insert(kitty_id, Kitty(dna));
        owner.insert(kitty_id, sender);
        let kitties_count = Some(kitty_id + 1);
        assert(state_of(kitties_count, kitties@, owner@, offers@) =~= old(self)@.with_kitty(
            sender,
            dna@,
        ));
        *self = Pallet { kitties_count, kitties, owner, offers };
        Some(kitty_id)
    }

    /// The checks of `create` that come before the ledger is asked. Returns
    /// the caller, who is to pay the deposit.
    pub fn check_create(&self, origin: Origin) -> (who: Result<AccountId, Error>)
        ensures
            who == self@.check_create(origin),
            self@.inv(),
    {
        proof {
            use_type_invariant(self);
        }
        let who = match ensure_signed(origin) {
            Ok(who) => who,
            Err(_) => {
                return Err(Error::BadOrigin);
            },
        };
        if self.next_kitty_id().is_none() {
            return Err(Error::KittiesCountOverflow);
        }
        Ok(who)
    }

    /// `create`, given what the ledger answered when it was asked to reserve
    /// the deposit. The caller gets a kitty whose genome is drawn from `seed`,
    /// the caller and `extrinsic_index`. On any error nothing is changed.
    pub fn create_with(
        &mut self,
        origin: Origin,
        seed: &[u8; 32],
        extrinsic_index: Option<u32>,
        reserved: Result<(), DispatchError>,
    ) -> (result: Result<Event, Error>)
        ensures
            final(self)@ == old(self)@.create(origin, seed@, extrinsic_index, reserved).0,
            result == old(self)@.create(origin, seed@, extrinsic_index, reserved).1,
            final(self)@.inv(),
    {
        let who = match self.check_create(origin) {
            Ok(who) => who,
            Err(e) => {
                return Err(e);
            },
        };
        if let Err(e) = reserved {
            return Err(Error::Ledger(e));
        }
        let dna = random_value(seed, who, extrinsic_index);
        match self.new_kitty(who, dna) {
            Some(kitty_id) => Ok(Event::KittyCreate(who, kitty_id)),
            None => Err(Error::KittiesCountOverflow),
        }
    }

    /// Creates a kitty for the caller and has `balance` of the caller's funds
    /// reserved. The ledger is asked only once the caller is known and an
    /// identifier is left; if it refuses, its answer is the error and nothing
    /// is changed.
    ///
    /// What the ledger answers is not known beforehand, so the contract goes
    /// by the result: a result that carries a refusal tells of that answer,
    /// any other result of consent. For that answer the registry and the
    /// result are what [`State::create`] gives.
    pub fn create<T: Config>(
        &mut self,
        ledger: &mut T,
        origin: Origin,
        balance: Balance,
        seed: &[u8; 32],
        extrinsic_index: Option<u32>,
    ) -> (result: Result<Event, Error>)
        ensures
            final(self)@ == old(self)@.create(
                origin,
                seed@,
                extrinsic_index,
                ledger_answer(result),
            ).0,
            result == old(self)@.create(origin, seed@, extrinsic_index, ledger_answer(result)).1,
            final(self)@.inv(),
    {
        let who = match self.check_create(origin) {
            Ok(who) => who,
            Err(e) => {
                return Err(e);
            },
        };
        let reserved = ledger.reserve(who, balance);
        self.create_with(origin, seed, extrinsic_index, reserved)
    }

    /// Hands kitty `kitty_id` from the caller, who must own it, to
    /// `new_owner`. An offer that stands for the kitty stays.
    pub fn transfer(&mut self, origin: Origin, new_owner: AccountId, kitty_id: KittyIndex) -> (result:
        Result<Event, Error>)
        ensures
            final(self)@ == old(self)@.transfer(origin, new_owner, kitty_id).0,
            result == old(self)@.transfer(origin, new_owner, kitty_id).1,
            final(self)@.inv(),
    {
        proof {
            use_type_invariant(&*self);
        }
        let who = match ensure_signed(origin) {
            Ok(who) => who,
            Err(_) => {
                return Err(Error::BadOrigin);
            },
        };
        if !self.kitties.contains_key(&kitty_id) {
            return Err(Error::InvalidKittyIndex);
        }
        if !self.is_owner(who, kitty_id) {
            return Err(Error::NotOwner);
        }
        let Pallet { kitties_count, kitties, mut owner, offers } = self.take();
        owner.insert(kitty_id, new_owner);
        assert(state_of(kitties_count, kitties@, owner@, offers@) =~= old(self)@.with_owner(
            kitty_id,
            new_owner,
        ));
        *self = Pallet { kitties_count, kitties, owner, offers };
        Ok(Event::KittyTransfer(who, new_owner, kitty_id))
    }

    /// Breeds two different kitties that exist into a new one for the caller,
    /// who need not own either. The selector is drawn from `seed`, the caller
    /// and `extrinsic_index`.
    pub fn breed(
        &mut self,
        origin: Origin,
        kitty_id_1: KittyIndex,
        kitty_id_2: KittyIndex,
        seed: &[u8; 32],
        extrinsic_index: Option<u32>,
    ) -> (result: Result<Event, Error>)
        ensures
            final(self)@ == old(self)@.breed(
                origin,
                kitty_id_1,
                kitty_id_2,
                seed@,
                extrinsic_index,
            ).0,
            result == old(self)@.breed(origin, kitty_id_1, kitty_id_2, seed@, extrinsic_index).1,
            final(self)@.inv(),
    {
        proof {
            use_type_invariant(&*self);
        }
        let who = match ensure_signed(origin) {
            Ok(who) => who,
            Err(_) => {
                return Err(Error::BadOrigin);
            },
        };
        if kitty_id_1 == kitty_id_2 {
            return Err(Error::SameParentIndex);
        }
        let dna_1 = match self.kitties.get(&kitty_id_1) {
            Some(kitty) => kitty.0,
            None => {
                return Err(Error::InvalidKittyIndex);
            },
        };
        let dna_2 = match self.kitties.get(&kitty_id_2) {
            Some(kitty) => kitty.0,
            None => {
                return Err(Error::InvalidKittyIndex);
            },
        };
        let selector = random_value(seed, who, extrinsic_index);
        let new_dna = combine(&dna_1, &dna_2, &selector);
        match self.new_kitty(who, new_dna) {
            Some(kitty_id) => Ok(Event::KittyCreate(who, kitty_id)),
            None => Err(Error::KittiesCountOverflow),
        }
    }

    /// Puts kitty `kitty_id` up for sale at `balance`, in place of any earlier
    /// price. The caller must own it.
    pub fn offer(&mut self, origin: Origin, balance: Balance, kitty_id: KittyIndex) -> (result:
        Result<Event, Error>)
        ensures
            final(self)@ == old(self)@.offer(origin, balance, kitty_id).0,
            result == old(self)@.offer(origin, balance, kitty_id).1,
            final(self)@.inv(),
    {
        proof {
            use_type_invariant(&*self);
        }
        let who = match ensure_signed(origin) {
            Ok(who) => who,
            Err(_) => {
                return Err(Error::BadOrigin);
            },
        };
        if !self.is_owner(who, kitty_id) {
            return Err(Error::NotOwner);
        }
        let Pallet { kitties_count, kitties, owner, mut offers } = self.take();
        offers.insert(kitty_id, balance);
        assert(state_of(kitties_count, kitties@, owner@, offers@) =~= old(self)@.with_offer(
            kitty_id,
            balance,
        ));
        *self = Pallet { kitties_count, kitties, owner, offers };
        Ok(Event::KittyOffer(who, balance, kitty_id))
    }

    /// The checks of `buy` that come before the ledger is asked. Returns who
    /// pays, whom, and how much.
    pub fn check_buy(&self, origin: Origin, kitty_id: KittyIndex) -> (terms: Result<
        (AccountId, AccountId, Balance),
        Error,
    >)
        ensures
            terms == self@.check_buy(origin, kitty_id),
            self@.inv(),
    {
        proof {
            use_type_invariant(self);
        }
        let who = match ensure_signed(origin) {
            Ok(who) => who,
            Err(_) => {
                return Err(Error::BadOrigin);
            },
        };
        let owner = match self.owner(kitty_id) {
            Some(owner) => owner,
            None => {
                return Err(Error::InvalidKittyIndex);
            },
        };
        let balance = match self.offers(kitty_id) {
            Some(balance) => balance,
            None => {
                return Err(Error::NotOffer);
            },
        };
        if who == owner {
            return Err(Error::IsOwner);
        }
        Ok((who, owner, balance))
    }

    /// `buy`, given what the ledger answered when it was asked to move the
    /// price from the caller to the owner. The caller becomes the owner and
    /// the offer is taken down. On any error nothing is changed.
    pub fn buy_with(&mut self, origin: Origin, kitty_id: KittyIndex, paid: Result<(), DispatchError>) -> (result:
        Result<Event, Error>)
        ensures
            final(self)@ == old(self)@.buy(origin, kitty_id, paid).0,
            result == old(self)@.buy(origin, kitty_id, paid).1,
            final(self)@.inv(),
    {
        proof {
            use_type_invariant(&*self);
        }
        let (who, seller, _) = match self.check_buy(origin, kitty_id) {
            Ok(terms) => terms,
            Err(e) => {
                return Err(e);
            },
        };
        if let Err(e) = paid {
            return Err(Error::Ledger(e));
        }
        let Pallet { kitties_count, kitties, mut owner, mut offers } = self.take();
        owner.insert(kitty_id, who);
        offers.remove(&kitty_id);
        assert(state_of(kitties_count, kitties@, owner@, offers@) =~= old(self)@.sold_to(
            kitty_id,
            who,
        ));
        *self = Pallet { kitties_count, kitties, owner, offers };
        Ok(Event::KittyTransfer(seller, who, kitty_id))
    }

    /// Buys kitty `kitty_id` for the caller at the price it is offered at. The
    /// ledger is asked, only once all checks have passed, to move the price
    /// from the caller to the owner, and the caller's account may be emptied
    /// by that; if the ledger refuses, its answer is the error and nothing is
    /// changed.
    ///
    /// As for `create`, the contract goes by the result: for the answer that
    /// the result tells of, the registry and the result are what
    /// [`State::buy`] gives.
    pub fn buy<T: Config>(&mut self, ledger: &mut T, origin: Origin, kitty_id: KittyIndex) -> (result:
        Result<Event, Error>)
        ensures
            final(self)@ == old(self)@.buy(origin, kitty_id, ledger_answer(result)).0,
            result == old(self)@.buy(origin, kitty_id, ledger_answer(result)).1,
            final(self)@.inv(),
    {
        let (who, owner, balance) = match self.check_buy(origin, kitty_id) {
            Ok(terms) => terms,
            Err(e) => {
                return Err(e);
            },
        };
        let paid = ledger.transfer(who, owner, balance, ExistenceRequirement::AllowDeath);
        self.buy_with(origin, kitty_id, paid)
    }

    /// Takes the stores out of the registry, which is empty until they are
    /// put back.
    fn take(&mut self) -> (taken: Pallet)
        ensures
            taken == *old(self),
            final(self)@ == State::empty(),
    {
        let mut taken = Pallet::new();
        std::mem::swap(self, &mut taken);
        taken
    }

    /// Whether `who` is the recorded owner of kitty `kitty_id`.
    fn is_owner(&self, who: AccountId, kitty_id: KittyIndex) -> (yes: bool)
        ensures
            yes == (self@.owners.contains_key(kitty_id) && self@.owners[kitty_id] == who),
    {
        match self.owner.get(&kitty_id) {
            Some(owner) => *owner == who,
            None => false,
        }
    }
}

} // verus!
