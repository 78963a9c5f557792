//! A registry of kitties: who owns which, how new ones are bred, and how they
//! are offered and bought at a fixed price.
//!
//! The registry is a state machine. [`Pallet`] holds the state; its five
//! transitions are [`Pallet::create`], [`Pallet::transfer`], [`Pallet::breed`],
//! [`Pallet::offer`] and [`Pallet::buy`]. Each one either commits in full and
//! returns the event to log, or fails and leaves the state as it was. What a
//! transition does is given by a function on the mathematical [`State`]
//! (module [`state`]); the properties that relate transitions to each other are
//! proved in module [`laws`]. No function of the library asks anything of its
//! caller: every registry satisfies [`State::inv`] by the way it is built.
//!
//! The host's currency ledger is reached through the trait [`Config`]. The
//! seed of the host's randomness and the index of the running transaction are
//! handed in as plain values, and so is the origin of the call.

pub mod genome;
pub mod laws;
pub mod pallet;
pub mod state;
pub mod types;

pub use genome::{combine, random_value};
pub use pallet::{Config, Pallet};
pub use state::State;
pub use types::{
    ensure_signed, AccountId, BadOrigin, Balance, Error, Event, ExistenceRequirement, Kitty,
    KittyIndex, Origin, Record,
};
