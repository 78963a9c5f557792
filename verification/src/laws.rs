//! Properties that relate the transitions to each other, stated over
//! [`State`] and proved for every input.

use crate::genome::{combine_spec, select_byte};
use crate::state::State;
use crate::types::{AccountId, Balance, Error, Event, KittyIndex, Origin};
use sp_runtime::DispatchError;
use vstd::prelude::*;

verus! {

/// One call of a transition, together with what the host answered in it.
pub enum Call {
    Create {
        origin: Origin,
        seed: Seq<u8>,
        extrinsic_index: Option<u32>,
        reserved: Result<(), DispatchError>,
    },
    Transfer { origin: Origin, new_owner: AccountId, kitty_id: KittyIndex },
    Breed {
        origin: Origin,
        kitty_id_1: KittyIndex,
        kitty_id_2: KittyIndex,
        seed: Seq<u8>,
        extrinsic_index: Option<u32>,
    },
    Offer { origin: Origin, price: Balance, kitty_id: KittyIndex },
    Buy { origin: Origin, kitty_id: KittyIndex, paid: Result<(), DispatchError> },
}

/// What `call` makes of `s`: the state after, and the result.
pub open spec fn step(s: State, call: Call) -> (State, Result<Event, Error>) {
    match call {
        Call::Create { origin, seed, extrinsic_index, reserved } => s.create(
            origin,
            seed,
            extrinsic_index,
            reserved,
        ),
        Call::Transfer { origin, new_owner, kitty_id } => s.transfer(origin, new_owner, kitty_id),
        Call::Breed { origin, kitty_id_1, kitty_id_2, seed, extrinsic_index } => s.breed(
            origin,
            kitty_id_1,
            kitty_id_2,
            seed,
            extrinsic_index,
        ),
        Call::Offer { origin, price, kitty_id } => s.offer(origin, price, kitty_id),
        Call::Buy { origin, kitty_id, paid } => s.buy(origin, kitty_id, paid),
    }
}

/// The state that `calls`, made one after the other on an empty registry,
/// lead to.
pub open spec fn run(calls: Seq<Call>) -> State
    decreases calls.len(),
{
    if calls.len() == 0 {
        State::empty()
    } else {
        step(run(calls.drop_last()), calls.last()).0
    }
}

/// The identifiers that `calls`, made one after the other on an empty
/// registry, gave to new kitties, in the order in which they were given.
pub open spec fn created_ids(calls: Seq<Call>) -> Seq<KittyIndex>
    decreases calls.len(),
{
    if calls.len() == 0 {
        Seq::empty()
    } else {
        let earlier = created_ids(calls.drop_last());
        match step(run(calls.drop_last()), calls.last()).1 {
            Ok(Event::KittyCreate(_, id)) => earlier.push(id),
            _ => earlier,
        }
    }
}

/// Every call keeps the invariant of the registry.
pub proof fn lemma_step_keeps_inv(s: State, call: Call)
    requires
        s.inv(),
    ensures
        step(s, call).0.inv(),
{
}

/// A call that fails changes nothing.
pub proof fn lemma_failed_step_changes_nothing(s: State, call: Call)
    requires
        step(s, call).1 is Err,
    ensures
        step(s, call).0 == s,
{
}

/// Whatever calls are made on an empty registry, the invariant holds after
/// them: a kitty that exists has exactly one owner, the identifiers in use are
/// those below the counter, and only kitties that exist are for sale.
pub proof fn lemma_run_inv(calls: Seq<Call>)
    ensures
        run(calls).inv(),
    decreases calls.len(),
{
    if calls.len() > 0 {
        lemma_run_inv(calls.drop_last());
        lemma_step_keeps_inv(run(calls.drop_last()), calls.last());
    }
}

/// Whatever calls are made on an empty registry, the identifiers that they
/// give out are 0, 1, 2 and so on, in this order: the identifier given out
/// in place `k` is `k`, so none is skipped and none is given twice. As many
/// have been given out as the registry counts kitties.
pub proof fn lemma_created_ids_count_up(calls: Seq<Call>)
    ensures
        created_ids(calls).len() == run(calls).total(),
        forall|k: int| 0 <= k < created_ids(calls).len() ==> created_ids(calls)[k] == k,
    decreases calls.len(),
{
    if calls.len() > 0 {
        lemma_created_ids_count_up(calls.drop_last());
        lemma_run_inv(calls.drop_last());
    }
}

/// The identifier that a new kitty gets was not in use, every smaller one
/// was, and afterwards it is in use together with those that were.
pub proof fn lemma_new_kitty_takes_next_id(s: State, owner: AccountId, dna: Seq<u8>)
    requires
        s.inv(),
        s.new_kitty(owner, dna).1 is Some,
    ensures
        ({
            let id = s.new_kitty(owner, dna).1.unwrap();
            let after = s.new_kitty(owner, dna).0;
            &&& id == s.total()
            &&& !s.kitties.contains_key(id)
            &&& forall|j: KittyIndex| j < id ==> s.kitties.contains_key(j)
            &&& after.total() == s.total() + 1
            &&& after.kitties.dom() == s.kitties.dom().insert(id)
            &&& after.owners[id] == owner
            &&& after.kitties[id] == dna
        }),
{
    let id = s.new_kitty(owner, dna).1.unwrap();
    let after = s.new_kitty(owner, dna).0;
    assert(after.kitties.dom() =~= s.kitties.dom().insert(id));
}

/// A kitty that exists keeps its owner through every call but a `transfer` or
/// a `buy` of that kitty that succeeds; and it keeps its genome through every
/// call.
pub proof fn lemma_owner_changes_only_by_transfer_or_buy(s: State, call: Call, id: KittyIndex)
    requires
        s.inv(),
        s.kitties.contains_key(id),
    ensures
        step(s, call).0.kitties.contains_key(id),
        step(s, call).0.kitties[id] == s.kitties[id],
        step(s, call).0.owners.contains_key(id),
        step(s, call).0.owners[id] != s.owners[id] ==> step(s, call).1 is Ok && match call {
            Call::Transfer { kitty_id, new_owner, .. } => kitty_id == id && step(
                s,
                call,
            ).0.owners[id] == new_owner,
            Call::Buy { kitty_id, origin, .. } => kitty_id == id && origin.signer() == Some(
                step(s, call).0.owners[id],
            ),
            _ => false,
        },
{
}

/// A kitty that a call brings into being is owned by the caller, and the call
/// is a `create` or a `breed` that succeeds.
pub proof fn lemma_first_owner_is_creator(s: State, call: Call, id: KittyIndex)
    requires
        s.inv(),
        !s.kitties.contains_key(id),
        step(s, call).0.kitties.contains_key(id),
    ensures
        id == s.total(),
        step(s, call).1 == Ok::<Event, Error>(Event::KittyCreate(step(s, call).0.owners[id], id)),
        match call {
            Call::Create { origin, .. } => origin.signer() == Some(step(s, call).0.owners[id]),
            Call::Breed { origin, .. } => origin.signer() == Some(step(s, call).0.owners[id]),
            _ => false,
        },
{
}

/// After its owner has offered a kitty, a `buy` of it succeeds exactly when
/// the caller is signed, is not the owner, and the ledger has moved the
/// price; and when it succeeds the kitty belongs to the buyer and is no longer
/// for sale.
pub proof fn lemma_offer_then_buy_clears_offer(
    s: State,
    seller: Origin,
    price: Balance,
    buyer: Origin,
    id: KittyIndex,
    paid: Result<(), DispatchError>,
)
    requires
        s.offer(seller, price, id).1 is Ok,
    ensures
        ({
            let offered = s.offer(seller, price, id).0;
            let (bought, result) = offered.buy(buyer, id, paid);
            &&& offered.offers[id] == price
            &&& result is Ok <==> buyer.signer() is Some && buyer.signer() != seller.signer()
                && paid is Ok
            &&& result is Ok ==> {
                &&& !bought.offers.contains_key(id)
                &&& bought.owners[id] == buyer.signer().unwrap()
                &&& result == Ok::<Event, Error>(
                    Event::KittyTransfer(seller.signer().unwrap(), buyer.signer().unwrap(), id),
                )
            }
            &&& result is Err ==> bought == offered
        }),
{
}

/// A `buy` of a kitty that exists and is not for sale fails with `NotOffer`,
/// whoever signs the call and whatever the ledger would answer.
pub proof fn lemma_buy_without_offer_fails(
    s: State,
    buyer: Origin,
    id: KittyIndex,
    paid: Result<(), DispatchError>,
)
    requires
        buyer.signer() is Some,
        s.owners.contains_key(id),
        !s.offers.contains_key(id),
    ensures
        s.buy(buyer, id, paid) == (s, Err::<Event, Error>(Error::NotOffer)),
{
}

/// A `buy` that succeeds takes the offer down, so a second `buy` of the same
/// kitty fails with `NotOffer` until it is offered again.
pub proof fn lemma_second_buy_fails(
    s: State,
    first: Origin,
    second: Origin,
    id: KittyIndex,
    paid_first: Result<(), DispatchError>,
    paid_second: Result<(), DispatchError>,
)
    requires
        s.buy(first, id, paid_first).1 is Ok,
        second.signer() is Some,
    ensures
        s.buy(first, id, paid_first).0.buy(second, id, paid_second).1 == Err::<Event, Error>(
            Error::NotOffer,
        ),
{
}

/// When the ledger refuses to reserve the deposit, `create` fails with the
/// ledger's answer, or with its own error if it would not have asked, and the
/// registry is as it was: no kitty, no owner, the counter unchanged.
pub proof fn lemma_create_is_atomic(
    s: State,
    origin: Origin,
    seed: Seq<u8>,
    extrinsic_index: Option<u32>,
    refusal: DispatchError,
)
    ensures
        s.create(origin, seed, extrinsic_index, Err(refusal)).0 == s,
        s.create(origin, seed, extrinsic_index, Err(refusal)).1 == match s.check_create(origin) {
            Ok(_) => Err::<Event, Error>(Error::Ledger(refusal)),
            Err(e) => Err(e),
        },
{
}

/// Where the selector is all ones the child is the first parent.
pub proof fn lemma_combine_all_ones(dna_1: Seq<u8>, dna_2: Seq<u8>, selector: Seq<u8>)
    requires
        dna_1.len() == 16,
        forall|i: int| 0 <= i < 16 ==> selector[i] == 0xffu8,
    ensures
        combine_spec(dna_1, dna_2, selector) == dna_1,
{
    assert forall|i: int| 0 <= i < 16 implies combine_spec(dna_1, dna_2, selector)[i]
        == dna_1[i] by {
        let a = dna_1[i];
        let b = dna_2[i];
        assert(select_byte(a, b, 0xffu8) == a) by (bit_vector);
    }
    assert(combine_spec(dna_1, dna_2, selector) =~= dna_1);
}

/// Where the selector is all zeros the child is the second parent.
pub proof fn lemma_combine_all_zeros(dna_1: Seq<u8>, dna_2: Seq<u8>, selector: Seq<u8>)
    requires
        dna_2.len() == 16,
        forall|i: int| 0 <= i < 16 ==> selector[i] == 0u8,
    ensures
        combine_spec(dna_1, dna_2, selector) == dna_2,
{
    assert forall|i: int| 0 <= i < 16 implies combine_spec(dna_1, dna_2, selector)[i]
        == dna_2[i] by {
        let a = dna_1[i];
        let b = dna_2[i];
        assert(select_byte(a, b, 0u8) == b) by (bit_vector);
    }
    assert(combine_spec(dna_1, dna_2, selector) =~= dna_2);
}

/// Bit `k` of a byte.
pub open spec fn bit(byte: u8, k: u8) -> bool {
    (byte >> k) & 1u8 == 1u8
}

/// The child is chosen bit by bit: bit `k` of byte `i` is that of the first
/// parent where the selector has a one there, and that of the second parent
/// where it has a zero.
pub proof fn lemma_combine_selects_bits(
    dna_1: Seq<u8>,
    dna_2: Seq<u8>,
    selector: Seq<u8>,
    i: int,
    k: u8,
)
    requires
        0 <= i < 16,
        k < 8,
    ensures
        bit(combine_spec(dna_1, dna_2, selector)[i], k) == if bit(selector[i], k) {
            bit(dna_1[i], k)
        } else {
            bit(dna_2[i], k)
        },
{
    let a = dna_1[i];
    let b = dna_2[i];
    let sel = selector[i];
    assert(k < 8 ==> (bit(select_byte(a, b, sel), k) == if bit(sel, k) {
        bit(a, k)
    } else {
        bit(b, k)
    })) by (bit_vector);
}

} // verus!
