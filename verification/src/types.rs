//! The plain values that the registry is made of.

use vstd::prelude::*;

verus! {

/// Who an account is, as the host names it.
pub type AccountId = u64;

/// The identifier of a kitty.
pub type KittyIndex = u32;

/// An amount of the host's currency.
pub type Balance = u128;

/// What the currency ledger answers when it refuses an operation. The
/// registry never looks inside: it hands the value on to its caller.
#[verifier::external_type_specification]
#[verifier::external_body]
pub struct ExDispatchError(sp_runtime::DispatchError);

/// A kitty: sixteen bytes of heritable data, fixed when it is created.
#[derive(Clone, Copy, Debug, PartialEq, Eq)]
pub struct Kitty(pub [u8; 16]);

impl View for Kitty {
    type V = Seq<u8>;

    open spec fn view(&self) -> Seq<u8> {
        self.0@
    }
}

/// One kitty as it is kept between calls: its genome, its owner, and the
/// price it is for sale at, if it is.
#[derive(Clone, Copy, Debug, PartialEq, Eq)]
pub struct Record {
    pub kitty: Kitty,
    pub owner: AccountId,
    pub price: Option<Balance>,
}

/// Where a call came from.
#[derive(Clone, Copy, Debug, PartialEq, Eq, Structural)]
pub enum Origin {
    /// The host itself.
    Root,
    /// An account, whose signature the host has checked.
    Signed(AccountId),
    /// Nobody.
    Unsigned,
}

impl Origin {
    /// The origin of a call made by the host itself.
    pub fn root() -> (origin: Origin)
        ensures
            origin == Origin::Root,
    {
        Origin::Root
    }

    /// The origin of a call signed by `who`.
    pub fn signed(who: AccountId) -> (origin: Origin)
        ensures
            origin == Origin::Signed(who),
    {
        Origin::Signed(who)
    }

    /// The origin of a call that nobody signed.
    pub fn none() -> (origin: Origin)
        ensures
            origin == Origin::Unsigned,
    {
        Origin::Unsigned
    }

    /// The account that signed, if one did.
    pub open spec fn signer(self) -> Option<AccountId> {
        match self {
            Origin::Signed(who) => Some(who),
            _ => None,
        }
    }
}

/// The origin of a call is not what the transition asks for.
#[derive(Clone, Copy, Debug, PartialEq, Eq, Structural)]
pub struct BadOrigin;

/// Tells a signed origin from the others: the signer, or `BadOrigin`.
pub fn ensure_signed(origin: Origin) -> (signer: Result<AccountId, BadOrigin>)
    ensures
        signer == match origin.signer() {
            Some(who) => Ok::<AccountId, BadOrigin>(who),
            None => Err(BadOrigin),
        },
{
    match origin {
        Origin::Signed(who) => Ok(who),
        _ => Err(BadOrigin),
    }
}

/// Whether a transfer may empty the account that pays.
#[derive(Clone, Copy, Debug, PartialEq, Eq, Structural)]
pub enum ExistenceRequirement {
    /// The paying account must stay above the ledger's minimum.
    KeepAlive,
    /// The paying account may be emptied and closed.
    AllowDeath,
}

/// What a transition that succeeded has to report.
#[derive(Clone, Copy, Debug, PartialEq, Eq, Structural)]
pub enum Event {
    /// A kitty came into being: its owner and its identifier.
    KittyCreate(AccountId, KittyIndex),
    /// A kitty changed hands: from whom, to whom, which one.
    KittyTransfer(AccountId, AccountId, KittyIndex),
    /// A kitty was put up for sale: by whom, at what price, which one.
    KittyOffer(AccountId, Balance, KittyIndex),
}

/// Why a transition failed.
#[derive(Clone, Copy, Debug, PartialEq, Eq)]
pub enum Error {
    /// The call was not signed by an account.
    BadOrigin,
    /// Every identifier that the counter can hold has been given out.
    KittiesCountOverflow,
    /// The caller is not the recorded owner of the kitty.
    NotOwner,
    /// The caller already owns the kitty it wants to buy.
    IsOwner,
    /// No kitty has this identifier.
    InvalidKittyIndex,
    /// Both parents are the same kitty.
    SameParentIndex,
    /// The kitty is not for sale.
    NotOffer,
    /// The currency ledger refused, with this answer.
    Ledger(sp_runtime::DispatchError),
}

} // verus!
