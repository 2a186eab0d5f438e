//! What holds of the operations together, for every state, caller and time.

use vstd::prelude::*;
use crate::model::{deadline_after, empty_state, live, refresh, refused, register, reserve, State};
use crate::store::record_of;
use crate::types::{AccountId, Config, Error, EventView, LockIdentifier, Moment, Record};

verus! {

/// Where nothing has been reserved, no name can be registered, whatever its
/// hash: the caller is told that there is no reservation, nothing is
/// published or ordered, and the state stays empty.
pub proof fn register_needs_reservation(
    config: Config,
    who: AccountId,
    hash: Seq<u8>,
    name: Seq<u8>,
    now: Moment,
    fresh: LockIdentifier,
)
    ensures
        register(empty_state(), config, who, hash, name, now, fresh) == refused(
            empty_state(),
            Error::NoReservation,
            Seq::<EventView>::empty(),
        ),
{
}

/// A live reservation shuts every other caller out: reserving the same hash
/// fails as already reserved, registering a name with that hash fails for
/// wrong ownership, and either way both stores stay as they were.
pub proof fn live_reservation_excludes_others(
    state: State,
    config: Config,
    owner: AccountId,
    other: AccountId,
    hash: Seq<u8>,
    name: Seq<u8>,
    now: Moment,
    fresh: LockIdentifier,
)
    requires
        owner != other,
        live(record_of(state.reservations, hash), now),
        state.reservations[hash].owner == owner,
    ensures
        reserve(state, config, other, hash, now, fresh).outcome.result == Err::<(), Error>(
            Error::AlreadyReserved,
        ),
        reserve(state, config, other, hash, now, fresh).state == state,
        register(state, config, other, hash, name, now, fresh).outcome.result == Err::<(), Error>(
            Error::WrongReservationOwnership,
        ),
        register(state, config, other, hash, name, now, fresh).state == state,
{
}

/// Once the clock has passed the deadline of a reservation, anyone can
/// reserve the hash again: the call succeeds, and the record is the new one
/// in every field, with nothing kept of the old owner or lock.
pub proof fn expired_reservation_is_replaced(
    state: State,
    config: Config,
    who: AccountId,
    hash: Seq<u8>,
    now: Moment,
    fresh: LockIdentifier,
)
    requires
        state.reservations.contains_key(hash),
        state.reservations[hash].deadline < now,
    ensures
        reserve(state, config, who, hash, now, fresh).outcome.result == Ok::<(), Error>(()),
        record_of(reserve(state, config, who, hash, now, fresh).state.reservations, hash) == Some(
            Record {
                owner: who,
                lock_id: fresh,
                deadline: deadline_after(now, config.reservation_lifetime),
            },
        ),
        reserve(state, config, who, hash, now, fresh).state.registrations == state.registrations,
{
}

/// Reserving the hash of a name and then registering the name, by the same
/// caller, succeeds: the name is registered to the caller until the
/// registration lifetime after the registering call, and the reservation is
/// gone.
///
/// This holds for whatever `hash` stands for the name in both calls, so for
/// its digest too, where the hash is free to reserve at `reserved_at`, the
/// registering call comes no later than the reservation's deadline, and the
/// name is not registered and live at `registered_at`.
pub proof fn reserve_then_register(
    state: State,
    config: Config,
    who: AccountId,
    hash: Seq<u8>,
    name: Seq<u8>,
    reserved_at: Moment,
    registered_at: Moment,
    first_lock: LockIdentifier,
    second_lock: LockIdentifier,
)
    requires
        !live(record_of(state.reservations, hash), reserved_at),
        registered_at <= reserved_at + config.reservation_lifetime <= Moment::MAX,
        !live(record_of(state.registrations, name), registered_at),
    ensures
        ({
            let reserved = reserve(state, config, who, hash, reserved_at, first_lock);
            let registered = register(
                reserved.state,
                config,
                who,
                hash,
                name,
                registered_at,
                second_lock,
            );
            &&& reserved.outcome.result == Ok::<(), Error>(())
            &&& registered.outcome.result == Ok::<(), Error>(())
            &&& record_of(registered.state.registrations, name) == Some(
                Record {
                    owner: who,
                    lock_id: second_lock,
                    deadline: deadline_after(registered_at, config.registration_lifetime),
                },
            )
            &&& !registered.state.reservations.contains_key(hash)
        }),
{
}

/// Refreshing an expired registration fails, whoever calls, with the answer
/// that there is no registration to refresh, and the stale record is gone
/// afterwards.
pub proof fn refresh_sweeps_expired(
    state: State,
    config: Config,
    who: AccountId,
    name: Seq<u8>,
    now: Moment,
)
    requires
        state.registrations.contains_key(name),
        state.registrations[name].deadline < now,
    ensures
        refresh(state, config, who, name, now).outcome.result == Err::<(), Error>(
            Error::NoRegistrationForRefresh,
        ),
        !refresh(state, config, who, name, now).state.registrations.contains_key(name),
        refresh(state, config, who, name, now).state.reservations == state.reservations,
{
}

/// An operation that fails leaves both stores as they were, with two
/// exceptions: a registration that is turned down because the name is
/// registered and live has consumed the caller's reservation, and a refresh
/// that finds the registration expired has swept it.
pub proof fn failure_keeps_state(
    state: State,
    config: Config,
    who: AccountId,
    hash: Seq<u8>,
    name: Seq<u8>,
    now: Moment,
    fresh: LockIdentifier,
)
    ensures
        reserve(state, config, who, hash, now, fresh).outcome.result is Err ==> reserve(
            state,
            config,
            who,
            hash,
            now,
            fresh,
        ).state == state,
        register(state, config, who, hash, name, now, fresh).outcome.result is Err ==> {
            let after = register(state, config, who, hash, name, now, fresh);
            if after.outcome.result == Err::<(), Error>(Error::AlreadyRegistered) {
                &&& after.state.reservations == state.reservations.remove(hash)
                &&& after.state.registrations == state.registrations
            } else {
                after.state == state
            }
        },
        refresh(state, config, who, name, now).outcome.result is Err ==> {
            let after = refresh(state, config, who, name, now);
            if live(record_of(state.registrations, name), now)
                || !state.registrations.contains_key(name) {
                after.state == state
            } else {
                after.state.registrations == state.registrations.remove(name)
            }
        },
{
}

} // verus!
