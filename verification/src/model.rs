//! The registry as mathematics: its state as two maps, and each operation as
//! a function from the state, the caller, the arguments and the time to the
//! next state and the outcome.

use vstd::prelude::*;
use crate::store::record_of;
use crate::types::{
    AccountId, Balance, Config, Error, EventView, LockCommand, LockIdentifier, Moment,
    OutcomeView, Record,
};

verus! {

/// The two stores: reservations by name hash, registrations by name.
pub struct State {
    pub reservations: Map<Seq<u8>, Record>,
    pub registrations: Map<Seq<u8>, Record>,
}

/// The state after an operation, and what the operation handed back.
pub struct Step {
    pub state: State,
    pub outcome: OutcomeView,
}

/// The state in which nothing is reserved or registered.
pub open spec fn empty_state() -> State {
    State { reservations: Map::empty(), registrations: Map::empty() }
}

/// A record is live as long as the clock has not passed its deadline. A
/// record that is not live counts as absent.
pub open spec fn live(record: Option<Record>, now: Moment) -> bool {
    record is Some && record->0.deadline >= now
}

/// The deadline of a record made at `now` for `lifetime`.
pub open spec fn deadline_after(now: Moment, lifetime: Moment) -> Moment {
    (now + lifetime) as Moment
}

/// The deposit for a registered name: the per-byte cost times its length.
pub open spec fn registration_deposit(config: Config, name: Seq<u8>) -> Balance {
    (name.len() * config.registration_one_byte_cost) as Balance
}

/// The command that gives up the hold of a record that is being replaced.
pub open spec fn release_of(record: Option<Record>) -> Seq<LockCommand> {
    match record {
        Some(r) => seq![LockCommand::Release { lock_id: r.lock_id, owner: r.owner }],
        None => Seq::empty(),
    }
}

/// An operation that was turned down and left the state as it was.
pub open spec fn refused(state: State, error: Error, events: Seq<EventView>) -> Step {
    Step { state, outcome: OutcomeView { result: Err(error), events, commands: Seq::empty() } }
}

/// Reserving `hash` for `who` at `now`, with `fresh` as the identifier of the
/// hold that a new reservation gets.
///
/// A live reservation, whoever owns it, turns the caller down. Otherwise the
/// reservation is written anew, the hold of an expired one is given up, and
/// the reservation cost is held under `fresh`.
pub open spec fn reserve(
    state: State,
    config: Config,
    who: AccountId,
    hash: Seq<u8>,
    now: Moment,
    fresh: LockIdentifier,
) -> Step {
    let prior = record_of(state.reservations, hash);
    if live(prior, now) {
        refused(
            state,
            Error::AlreadyReserved,
            seq![EventView::ReReserveTry { hash, owner: prior->0.owner, tried: who }],
        )
    } else {
        let record = Record {
            owner: who,
            lock_id: fresh,
            deadline: deadline_after(now, config.reservation_lifetime),
        };
        Step {
            state: State { reservations: state.reservations.insert(hash, record), ..state },
            outcome: OutcomeView {
                result: Ok(()),
                events: seq![EventView::VanityNameReserved { hash, owner: who }],
                commands: release_of(prior).push(
                    LockCommand::Place {
                        lock_id: fresh,
                        owner: who,
                        amount: config.reservation_cost,
                    },
                ),
            },
        }
    }
}

/// Registering `name`, whose hash is `hash`, for `who` at `now`, with `fresh`
/// as the identifier of the hold that a new registration gets.
///
/// Without a live reservation of `hash` there is nothing to redeem. A live
/// one of another owner turns the caller down. The caller's own is consumed,
/// also where the name then proves to be registered and live: that caller
/// has lost the reservation. Otherwise the registration is written, the holds
/// of an expired registration and of the reservation are given up, and the
/// deposit for the name is held under `fresh`.
pub open spec fn register(
    state: State,
    config: Config,
    who: AccountId,
    hash: Seq<u8>,
    name: Seq<u8>,
    now: Moment,
    fresh: LockIdentifier,
) -> Step {
    let reservation = record_of(state.reservations, hash);
    if !live(reservation, now) {
        refused(state, Error::NoReservation, Seq::empty())
    } else if reservation->0.owner != who {
        refused(
            state,
            Error::WrongReservationOwnership,
            seq![
                EventView::WrongOwnershipRegisterTry {
                    vanity_name: name,
                    owner: reservation->0.owner,
                    tried: who,
                },
            ],
        )
    } else {
        let consumed = State { reservations: state.reservations.remove(hash), ..state };
        let prior = record_of(state.registrations, name);
        if live(prior, now) {
            refused(
                consumed,
                Error::AlreadyRegistered,
                seq![EventView::ReRegisterTry { vanity_name: name, owner: prior->0.owner, tried: who }],
            )
        } else {
            let record = Record {
                owner: who,
                lock_id: fresh,
                deadline: deadline_after(now, config.registration_lifetime),
            };
            Step {
                state: State {
                    registrations: state.registrations.insert(name, record),
                    ..consumed
                },
                outcome: OutcomeView {
                    result: Ok(()),
                    events: seq![EventView::VanityNameRegistered { name, owner: who }],
                    commands: release_of(prior).push(
                        LockCommand::Release { lock_id: reservation->0.lock_id, owner: who },
                    ).push(
                        LockCommand::Place {
                            lock_id: fresh,
                            owner: who,
                            amount: registration_deposit(config, name),
                        },
                    ),
                },
            }
        }
    }
}

/// Refreshing the registration of `name` for `who` at `now`.
///
/// The owner of a live registration gets a new deadline; owner, lock and
/// hold stay. Another caller is turned down. An expired registration is
/// swept, whoever calls: the record goes, its hold is given up, and the
/// caller is told that there is nothing to refresh.
pub open spec fn refresh(
    state: State,
    config: Config,
    who: AccountId,
    name: Seq<u8>,
    now: Moment,
) -> Step {
    let prior = record_of(state.registrations, name);
    if prior is None {
        refused(state, Error::NoRegistrationForRefresh, Seq::empty())
    } else if !live(prior, now) {
        Step {
            state: State { registrations: state.registrations.remove(name), ..state },
            outcome: OutcomeView {
                result: Err(Error::NoRegistrationForRefresh),
                events: seq![EventView::UnregisterVanityName { vanity_name: name }],
                commands: release_of(prior),
            },
        }
    } else if prior->0.owner != who {
        refused(state, Error::WrongRegistrationOwnership, Seq::empty())
    } else {
        let record = Record {
            deadline: deadline_after(now, config.registration_lifetime),
            ..prior->0
        };
        Step {
            state: State { registrations: state.registrations.insert(name, record), ..state },
            outcome: OutcomeView {
                result: Ok(()),
                events: Seq::empty(),
                commands: Seq::empty(),
            },
        }
    }
}

/// The lock identifier of a record, where there is one.
pub open spec fn lock_of(record: Option<Record>) -> LockIdentifier {
    record->0.lock_id
}

} // verus!
