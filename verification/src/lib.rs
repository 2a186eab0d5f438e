//! Vanity-name registry: a two-phase reserve / register protocol over an
//! explicit state, with time-bounded exclusivity and deposit holds.
//!
//! Every operation is a function of the current state, the caller, the
//! arguments and the logical time handed in. It yields the next state and an
//! [`types::Outcome`]: the result, the events to publish and the commands for
//! the deposit ledger, which the embedding system carries out.

pub mod types;
pub mod bytes;
pub mod store;
pub mod hashing;
pub mod model;
pub mod pallet;
pub mod laws;
