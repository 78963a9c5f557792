//! The registry as a mathematical value, and what each transition makes of it.
//!
//! Every transition is a function from the state before, the arguments of the
//! call and the answers of the host to the state after and the result of the
//! call. The executable transitions of [`crate::pallet::Pallet`] are proved to
//! compute exactly these functions.

use crate::genome::{combine_spec, genome_of};
use crate::types::{AccountId, Balance, Error, Event, KittyIndex, Origin, Record};
use sp_runtime::DispatchError;
use vstd::prelude::*;

verus! {

/// The registry as a mathematical value.
#[verifier::ext_equal]
pub struct State {
    /// How many kitties have been created; absent until the first one is.
    pub count: Option<KittyIndex>,
    /// The genome of every kitty.
    pub kitties: Map<KittyIndex, Seq<u8>>,
    /// The owner of every kitty.
    pub owners: Map<KittyIndex, AccountId>,
    /// The price of every kitty that is for sale.
    pub offers: Map<KittyIndex, Balance>,
}

impl State {
    /// The registry before anything has happened.
    pub open spec fn empty() -> State {
        State { count: None, kitties: Map::empty(), owners: Map::empty(), offers: Map::empty() }
    }

    /// The registry that holds the kitties of `records`, the one at place `i`
    /// under the identifier `i`.
    pub open spec fn of_records(records: Seq<Record>) -> State {
        State {
            count: if records.len() == 0 {
                None
            } else {
                Some(records.len() as KittyIndex)
            },
            kitties: Map::new(
                |id: KittyIndex| id < records.len(),
                |id: KittyIndex| records[id as int].kitty@,
            ),
            owners: Map::new(
                |id: KittyIndex| id < records.len(),
                |id: KittyIndex| records[id as int].owner,
            ),
            offers: Map::new(
                |id: KittyIndex| id < records.len() && records[id as int].price is Some,
                |id: KittyIndex| records[id as int].price.unwrap(),
            ),
        }
    }

    /// The number of kitties created so far.
    pub open spec fn total(self) -> nat {
        match self.count {
            Some(n) => n as nat,
            None => 0,
        }
    }

    /// What holds of every registry that the transitions can reach: the
    /// identifiers in use are exactly those below the counter, the counter is
    /// absent as long as it would be zero, a kitty has an owner if and only if
    /// it exists, only kitties that exist are for sale, and a genome has
    /// sixteen bytes.
    pub open spec fn inv(self) -> bool {
        &&& self.count != Some(0u32)
        &&& forall|id: KittyIndex| #[trigger] self.kitties.contains_key(id) <==> id < self.total()
        &&& forall|id: KittyIndex| #[trigger]
            self.owners.contains_key(id) <==> self.kitties.contains_key(id)
        &&& forall|id: KittyIndex| #[trigger]
            self.offers.contains_key(id) ==> self.kitties.contains_key(id)
        &&& forall|id: KittyIndex| #[trigger]
            self.kitties.contains_key(id) ==> self.kitties[id].len() == 16
    }

    /// The identifier that the next kitty gets: the number of kitties so far.
    /// There is none once the counter holds the largest value of its type.
    pub open spec fn next_id(self) -> Option<KittyIndex> {
        if self.total() == KittyIndex::MAX {
            None
        } else {
            Some(self.total() as KittyIndex)
        }
    }

    /// The registry with one kitty more, under the next identifier.
    pub open spec fn with_kitty(self, owner: AccountId, dna: Seq<u8>) -> State {
        let id = self.total() as KittyIndex;
        State {
            count: Some((id + 1) as KittyIndex),
            kitties: self.kitties.insert(id, dna),
            owners: self.owners.insert(id, owner),
            offers: self.offers,
        }
    }

    /// The registry with `owner` as the owner of kitty `id`.
    pub open spec fn with_owner(self, id: KittyIndex, owner: AccountId) -> State {
        State { owners: self.owners.insert(id, owner), ..self }
    }

    /// The registry with kitty `id` for sale at `price`.
    pub open spec fn with_offer(self, id: KittyIndex, price: Balance) -> State {
        State { offers: self.offers.insert(id, price), ..self }
    }

    /// The registry after `buyer` has bought kitty `id`: the buyer owns it and
    /// it is no longer for sale.
    pub open spec fn sold_to(self, id: KittyIndex, buyer: AccountId) -> State {
        State { owners: self.owners.insert(id, buyer), offers: self.offers.remove(id), ..self }
    }

    /// What recording a kitty of `owner` with genome `dna` gives: the new
    /// state and the identifier, or the state unchanged and no identifier when
    /// none is left.
    pub open spec fn new_kitty(self, owner: AccountId, dna: Seq<u8>) -> (State, Option<KittyIndex>) {
        match self.next_id() {
            Some(id) => (self.with_kitty(owner, dna), Some(id)),
            None => (self, None),
        }
    }

    /// The checks of `create` that come before the ledger is asked: the caller
    /// that will pay the deposit, or the error.
    pub open spec fn check_create(self, origin: Origin) -> Result<AccountId, Error> {
        match origin.signer() {
            None => Err(Error::BadOrigin),
            Some(who) => if self.next_id() is None {
                Err(Error::KittiesCountOverflow)
            } else {
                Ok(who)
            },
        }
    }

    /// `create`: a signed caller gets a kitty with a freshly drawn genome,
    /// provided that an identifier is left and the ledger has reserved the
    /// deposit. `reserved` is the ledger's answer.
    pub open spec fn create(
        self,
        origin: Origin,
        seed: Seq<u8>,
        extrinsic_index: Option<u32>,
        reserved: Result<(), DispatchError>,
    ) -> (State, Result<Event, Error>) {
        match self.check_create(origin) {
            Err(e) => (self, Err(e)),
            Ok(who) => match reserved {
                Err(e) => (self, Err(Error::Ledger(e))),
                Ok(_) => (
                    self.with_kitty(who, genome_of(seed, who, extrinsic_index)),
                    Ok(Event::KittyCreate(who, self.total() as KittyIndex)),
                ),
            },
        }
    }

    /// `transfer`: the owner of a kitty that exists hands it to `new_owner`.
    /// An offer that stands for the kitty stays as it is.
    pub open spec fn transfer(self, origin: Origin, new_owner: AccountId, id: KittyIndex) -> (
        State,
        Result<Event, Error>,
    ) {
        match origin.signer() {
            None => (self, Err(Error::BadOrigin)),
            Some(who) => if !self.kitties.contains_key(id) {
                (self, Err(Error::InvalidKittyIndex))
            } else if !(self.owners.contains_key(id) && self.owners[id] == who) {
                (self, Err(Error::NotOwner))
            } else {
                (self.with_owner(id, new_owner), Ok(Event::KittyTransfer(who, new_owner, id)))
            },
        }
    }

    /// `breed`: a signed caller, who need not own either parent, gets the
    /// child of two different kitties that exist. The selector is drawn as a
    /// genome is; no deposit is taken.
    pub open spec fn breed(
        self,
        origin: Origin,
        id_1: KittyIndex,
        id_2: KittyIndex,
        seed: Seq<u8>,
        extrinsic_index: Option<u32>,
    ) -> (State, Result<Event, Error>) {
        match origin.signer() {
            None => (self, Err(Error::BadOrigin)),
            Some(who) => if id_1 == id_2 {
                (self, Err(Error::SameParentIndex))
            } else if !self.kitties.contains_key(id_1) || !self.kitties.contains_key(id_2) {
                (self, Err(Error::InvalidKittyIndex))
            } else if self.next_id() is None {
                (self, Err(Error::KittiesCountOverflow))
            } else {
                (
                    self.with_kitty(
                        who,
                        combine_spec(
                            self.kitties[id_1],
                            self.kitties[id_2],
                            genome_of(seed, who, extrinsic_index),
                        ),
                    ),
                    Ok(Event::KittyCreate(who, self.total() as KittyIndex)),
                )
            },
        }
    }

    /// `offer`: the owner of a kitty puts it up for sale at `price`, in place
    /// of any earlier price. A kitty that does not exist has no owner, so the
    /// caller is told that it is not the owner.
    pub open spec fn offer(self, origin: Origin, price: Balance, id: KittyIndex) -> (
        State,
        Result<Event, Error>,
    ) {
        match origin.signer() {
            None => (self, Err(Error::BadOrigin)),
            Some(who) => if !(self.owners.contains_key(id) && self.owners[id] == who) {
                (self, Err(Error::NotOwner))
            } else {
                (self.with_offer(id, price), Ok(Event::KittyOffer(who, price, id)))
            },
        }
    }

    /// The checks of `buy` that come before the ledger is asked: who pays,
    /// whom, and how much, or the error.
    pub open spec fn check_buy(self, origin: Origin, id: KittyIndex) -> Result<
        (AccountId, AccountId, Balance),
        Error,
    > {
        match origin.signer() {
            None => Err(Error::BadOrigin),
            Some(who) => if !self.owners.contains_key(id) {
                Err(Error::InvalidKittyIndex)
            } else if !self.offers.contains_key(id) {
                Err(Error::NotOffer)
            } else if self.owners[id] == who {
                Err(Error::IsOwner)
            } else {
                Ok((who, self.owners[id], self.offers[id]))
            },
        }
    }

    /// `buy`: a signed caller that is not the owner takes over a kitty that is
    /// for sale, provided that the ledger has moved the price from the caller
    /// to the owner. `paid` is the ledger's answer.
    pub open spec fn buy(self, origin: Origin, id: KittyIndex, paid: Result<(), DispatchError>) -> (
        State,
        Result<Event, Error>,
    ) {
        match self.check_buy(origin, id) {
            Err(e) => (self, Err(e)),
            Ok((who, owner, _)) => match paid {
                Err(e) => (self, Err(Error::Ledger(e))),
                Ok(_) => (self.sold_to(id, who), Ok(Event::KittyTransfer(owner, who, id))),
            },
        }
    }
}

/// The answer of the ledger that a result tells of: the refusal that it
/// carries, and otherwise consent.
pub open spec fn ledger_answer(result: Result<Event, Error>) -> Result<(), DispatchError> {
    match result {
        Err(Error::Ledger(e)) => Err(e),
        _ => Ok(()),
    }
}

} // verus!
