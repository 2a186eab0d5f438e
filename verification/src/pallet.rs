//! The registry itself: the two stores, the configuration, and the three
//! operations on them.

use vstd::prelude::*;
use core::marker::PhantomData;
use crate::hashing::{blake2_256, blake2_256_of};
use crate::model::{
    deadline_after, empty_state, live, lock_of, refresh, register, release_of, reserve, State,
    Step,
};
use crate::store::{record_of, RecordMap};
use crate::types::{
    AccountId, Config, Error, Event, EventView, HashedVanityName, LockCommand, LockIdentifier,
    Moment, NextLockId, Outcome, Record, VanityName,
};

verus! {

/// The registry, with `T` as its source of lock identifiers.
pub struct Pallet<T: NextLockId> {
    config: Config,
    reservations: RecordMap,
    registrations: RecordMap,
    source: PhantomData<T>,
}

/// The events of an outcome, as the model has them.
spec fn events_of(outcome: Outcome) -> Seq<EventView> {
    outcome@.events
}

/// Adds an event to an outcome.
fn note(outcome: &mut Outcome, event: Event)
    ensures
        final(outcome).result == old(outcome).result,
        final(outcome).commands == old(outcome).commands,
        events_of(*final(outcome)) == events_of(*old(outcome)).push(event@),
{
    outcome.events.push(event);
    assert(events_of(*outcome) =~= events_of(*old(outcome)).push(event@));
}

/// Adds a ledger command to an outcome.
fn order(outcome: &mut Outcome, command: LockCommand)
    ensures
        final(outcome).result == old(outcome).result,
        final(outcome).events == old(outcome).events,
        final(outcome).commands@ == old(outcome).commands@.push(command),
{
    outcome.commands.push(command);
}

/// The outcome of an operation that has done nothing so far.
fn nothing_yet() -> (outcome: Outcome)
    ensures
        outcome.result == Ok::<(), Error>(()),
        events_of(outcome) == Seq::<EventView>::empty(),
        outcome.commands@ == Seq::<LockCommand>::empty(),
{
    let outcome = Outcome { result: Ok(()), events: Vec::new(), commands: Vec::new() };
    assert(events_of(outcome) =~= Seq::<EventView>::empty());
    outcome
}

impl<T: NextLockId> Pallet<T> {
    /// The two stores, as maps.
    pub closed spec fn view(&self) -> State {
        State { reservations: self.reservations@, registrations: self.registrations@ }
    }

    /// The configuration that the registry was made with.
    pub closed spec fn config(&self) -> Config {
        self.config
    }

    /// In neither store a key occurs twice.
    pub closed spec fn wf(&self) -> bool {
        self.reservations.wf() && self.registrations.wf()
    }

    /// A registry in which nothing is reserved or registered.
    pub fn new(config: Config) -> (pallet: Self)
        ensures
            pallet.wf(),
            pallet.config() == config,
            pallet@ == empty_state(),
    {
        Pallet {
            config,
            reservations: RecordMap::new(),
            registrations: RecordMap::new(),
            source: PhantomData,
        }
    }

    /// A registry over stores that were filled beforehand.
    pub fn with_stores(
        config: Config,
        reservations: RecordMap,
        registrations: RecordMap,
    ) -> (pallet: Self)
        requires
            reservations.wf(),
            registrations.wf(),
        ensures
            pallet.wf(),
            pallet.config() == config,
            pallet@ == (State { reservations: reservations@, registrations: registrations@ }),
    {
        Pallet { config, reservations, registrations, source: PhantomData }
    }

    /// The reservation kept for a name hash, live or not.
    pub fn get_reservation_owner(&self, hashed_vanity_name: HashedVanityName) -> (found: Option<
        (AccountId, LockIdentifier, Moment),
    >)
        ensures
            match record_of(self@.reservations, hashed_vanity_name@) {
                Some(r) => found == Some((r.owner, r.lock_id, r.deadline)),
                None => found is None,
            },
    {
        match self.reservations.get(hashed_vanity_name.as_slice()) {
            Some(r) => Some((r.owner, r.lock_id, r.deadline)),
            None => None,
        }
    }

    /// The registration kept for a name, live or not.
    pub fn get_vanity_name_owner(&self, vanity_name: &[u8]) -> (found: Option<
        (AccountId, LockIdentifier, Moment),
    >)
        ensures
            match record_of(self@.registrations, vanity_name@) {
                Some(r) => found == Some((r.owner, r.lock_id, r.deadline)),
                None => found is None,
            },
    {
        match self.registrations.get(vanity_name) {
            Some(r) => Some((r.owner, r.lock_id, r.deadline)),
            None => None,
        }
    }

    /// Reserves a name, given by its hash, for `who`.
    ///
    /// The reservation lasts for the configured reservation lifetime from
    /// `now`. The identifier under which the deposit is held is the one that
    /// the new record carries.
    pub fn reservate_vanity_name(
        &mut self,
        who: AccountId,
        hashed_vanity_name: HashedVanityName,
        now: Moment,
    ) -> (outcome: Outcome)
        requires
            old(self).wf(),
            now + old(self).config().reservation_lifetime <= Moment::MAX,
        ensures
            final(self).wf(),
            final(self).config() == old(self).config(),
            (Step { state: final(self)@, outcome: outcome@ }) == reserve(
                old(self)@,
                old(self).config(),
                who,
                hashed_vanity_name@,
                now,
                lock_of(record_of(final(self)@.reservations, hashed_vanity_name@)),
            ),
    {
        let mut outcome = nothing_yet();
        match self.reservations.get(hashed_vanity_name.as_slice()) {
            Some(record) => {
                if record.deadline >= now {
                    note(
                        &mut outcome,
                        Event::ReReserveTry {
                            hash: hashed_vanity_name,
                            owner: record.owner,
                            tried: who,
                        },
                    );
                    outcome.result = Err(Error::AlreadyReserved);
                } else {
                    order(
                        &mut outcome,
                        LockCommand::Release { lock_id: record.lock_id, owner: record.owner },
                    );
                    self.reservate_name(who, hashed_vanity_name, now, &mut outcome);
                }
            },
            None => {
                self.reservate_name(who, hashed_vanity_name, now, &mut outcome);
            },
        }
        proof {
            let step = reserve(
                old(self)@,
                old(self).config(),
                who,
                hashed_vanity_name@,
                now,
                lock_of(record_of(self@.reservations, hashed_vanity_name@)),
            );
            assert(outcome@.events =~= step.outcome.events);
            assert(outcome@.commands =~= step.outcome.commands);
            assert(self@.reservations =~= step.state.reservations);
        }
        outcome
    }

    /// Registers `vanity_name` for `who`, on the strength of the caller's
    /// live reservation of its hash.
    ///
    /// The registration lasts for the configured registration lifetime from
    /// `now`.
    pub fn register_vanity_name(
        &mut self,
        who: AccountId,
        vanity_name: VanityName,
        now: Moment,
    ) -> (outcome: Outcome)
        requires
            old(self).wf(),
            now + old(self).config().registration_lifetime <= Moment::MAX,
            vanity_name@.len() * old(self).config().registration_one_byte_cost <= u128::MAX,
        ensures
            final(self).wf(),
            final(self).config() == old(self).config(),
            (Step { state: final(self)@, outcome: outcome@ }) == register(
                old(self)@,
                old(self).config(),
                who,
                blake2_256(vanity_name@),
                vanity_name@,
                now,
                lock_of(record_of(final(self)@.registrations, vanity_name@)),
            ),
    {
        let hashed_vanity_name = blake2_256_of(vanity_name.as_slice());
        self.register_reserved_name(who, hashed_vanity_name, vanity_name, now)
    }

    /// Registers `vanity_name` for `who`, with the hash of the name handed
    /// in: what [`Pallet::register_vanity_name`] does once it has hashed the
    /// name.
    pub fn register_reserved_name(
        &mut self,
        who: AccountId,
        hashed_vanity_name: HashedVanityName,
        vanity_name: VanityName,
        now: Moment,
    ) -> (outcome: Outcome)
        requires
            old(self).wf(),
            now + old(self).config().registration_lifetime <= Moment::MAX,
            vanity_name@.len() * old(self).config().registration_one_byte_cost <= u128::MAX,
        ensures
            final(self).wf(),
            final(self).config() == old(self).config(),
            (Step { state: final(self)@, outcome: outcome@ }) == register(
                old(self)@,
                old(self).config(),
                who,
                hashed_vanity_name@,
                vanity_name@,
                now,
                lock_of(record_of(final(self)@.registrations, vanity_name@)),
            ),
    {
        let mut outcome = nothing_yet();
        let ghost name = vanity_name@;
        let name_len: usize = vanity_name.len();
        match self.reservations.get(hashed_vanity_name.as_slice()) {
            Some(reservation) => {
                if reservation.deadline < now {
                    outcome.result = Err(Error::NoReservation);
                } else if reservation.owner != who {
                    note(
                        &mut outcome,
                        Event::WrongOwnershipRegisterTry {
                            vanity_name,
                            owner: reservation.owner,
                            tried: who,
                        },
                    );
                    outcome.result = Err(Error::WrongReservationOwnership);
                } else {
                    self.reservations.remove(hashed_vanity_name.as_slice());
                    match self.try_register_name(who, vanity_name, now, &mut outcome) {
                        Ok(lock_id) => {
                            order(
                                &mut outcome,
                                LockCommand::Release { lock_id: reservation.lock_id, owner: who },
                            );
                            order(
                                &mut outcome,
                                LockCommand::Place {
                                    lock_id,
                                    owner: who,
                                    amount: (name_len as u128) * self.config.registration_one_byte_cost,
                                },
                            );
                        },
                        Err(error) => {
                            outcome.result = Err(error);
                        },
                    }
                }
            },
            None => {
                outcome.result = Err(Error::NoReservation);
            },
        }
        proof {
            let step = register(
                old(self)@,
                old(self).config(),
                who,
                hashed_vanity_name@,
                name,
                now,
                lock_of(record_of(self@.registrations, name)),
            );
            assert(outcome@.events =~= step.outcome.events);
            assert(outcome@.commands =~= step.outcome.commands);
            assert(self@.reservations =~= step.state.reservations);
            assert(self@.registrations =~= step.state.registrations);
        }
        outcome
    }

    /// Extends the registration of `vanity_name` by the configured
    /// registration lifetime from `now`, or sweeps it where it has expired.
    pub fn refresh_registration_vanity_name(
        &mut self,
        who: AccountId,
        vanity_name: VanityName,
        now: Moment,
    ) -> (outcome: Outcome)
        requires
            old(self).wf(),
            now + old(self).config().registration_lifetime <= Moment::MAX,
        ensures
            final(self).wf(),
            final(self).config() == old(self).config(),
            (Step { state: final(self)@, outcome: outcome@ }) == refresh(
                old(self)@,
                old(self).config(),
                who,
                vanity_name@,
                now,
            ),
    {
        let mut outcome = nothing_yet();
        let ghost name = vanity_name@;
        match self.registrations.get(vanity_name.as_slice()) {
            Some(record) => {
                if record.deadline < now {
                    self.unregister_name(record.owner, record.lock_id, vanity_name, &mut outcome);
                    outcome.result = Err(Error::NoRegistrationForRefresh);
                } else if record.owner == who {
                    let renewed = Record {
                        owner: record.owner,
                        lock_id: record.lock_id,
                        deadline: now + self.config.registration_lifetime,
                    };
                    self.registrations.insert(vanity_name.as_slice(), renewed);
                } else {
                    outcome.result = Err(Error::WrongRegistrationOwnership);
                }
            },
            None => {
                outcome.result = Err(Error::NoRegistrationForRefresh);
            },
        }
        proof {
            let step = refresh(old(self)@, old(self).config(), who, name, now);
            assert(outcome@.events =~= step.outcome.events);
            assert(outcome@.commands =~= step.outcome.commands);
            assert(self@.registrations =~= step.state.registrations);
        }
        outcome
    }

    /// Writes the registration of `vanity_name` for `who`, unless the name is
    /// registered and live. Gives up the hold of an expired registration, and
    /// returns the lock identifier of the new record.
    fn try_register_name(
        &mut self,
        who: AccountId,
        vanity_name: VanityName,
        now: Moment,
        outcome: &mut Outcome,
    ) -> (written: Result<LockIdentifier, Error>)
        requires
            old(self).wf(),
            now + old(self).config().registration_lifetime <= Moment::MAX,
        ensures
            final(self).wf(),
            final(self).config() == old(self).config(),
            final(self).reservations == old(self).reservations,
            final(outcome).result == old(outcome).result,
            ({
                let prior = record_of(old(self)@.registrations, vanity_name@);
                if live(prior, now) {
                    &&& written == Err::<LockIdentifier, Error>(Error::AlreadyRegistered)
                    &&& final(self)@.registrations == old(self)@.registrations
                    &&& final(outcome).commands@ == old(outcome).commands@
                    &&& events_of(*final(outcome)) == events_of(*old(outcome)).push(
                        EventView::ReRegisterTry {
                            vanity_name: vanity_name@,
                            owner: prior->0.owner,
                            tried: who,
                        },
                    )
                } else {
                    &&& written is Ok
                    &&& final(self)@.registrations == old(self)@.registrations.insert(
                        vanity_name@,
                        Record {
                            owner: who,
                            lock_id: written->Ok_0,
                            deadline: deadline_after(now, old(self).config().registration_lifetime),
                        },
                    )
                    &&& final(outcome).commands@ == old(outcome).commands@ + release_of(prior)
                    &&& events_of(*final(outcome)) == events_of(*old(outcome)).push(
                        EventView::VanityNameRegistered { name: vanity_name@, owner: who },
                    )
                }
            }),
    {
        match self.registrations.get(vanity_name.as_slice()) {
            Some(record) => {
                if record.deadline >= now {
                    note(
                        outcome,
                        Event::ReRegisterTry { vanity_name, owner: record.owner, tried: who },
                    );
                    Err(Error::AlreadyRegistered)
                } else {
                    order(
                        outcome,
                        LockCommand::Release { lock_id: record.lock_id, owner: record.owner },
                    );
                    assert(outcome.commands@ =~= old(outcome).commands@ + release_of(Some(record)));
                    Ok(self.register_name(who, vanity_name, now, outcome))
                }
            },
            None => {
                assert(outcome.commands@ =~= old(outcome).commands@ + release_of(None));
                Ok(self.register_name(who, vanity_name, now, outcome))
            },
        }
    }

    /// Writes the registration of `vanity_name` for `who` under a lock
    /// identifier from the source, which it returns.
    fn register_name(
        &mut self,
        who: AccountId,
        vanity_name: VanityName,
        now: Moment,
        outcome: &mut Outcome,
    ) -> (lock_id: LockIdentifier)
        requires
            old(self).wf(),
            now + old(self).config().registration_lifetime <= Moment::MAX,
        ensures
            final(self).wf(),
            final(self).config() == old(self).config(),
            final(self).reservations == old(self).reservations,
            final(self)@.registrations == old(self)@.registrations.insert(
                vanity_name@,
                Record {
                    owner: who,
                    lock_id,
                    deadline: deadline_after(now, old(self).config().registration_lifetime),
                },
            ),
            final(outcome).result == old(outcome).result,
            final(outcome).commands == old(outcome).commands,
            events_of(*final(outcome)) == events_of(*old(outcome)).push(
                EventView::VanityNameRegistered { name: vanity_name@, owner: who },
            ),
    {
        let lock_id = T::next_lock_id();
        let record = Record {
            owner: who,
            lock_id,
            deadline: now + self.config.registration_lifetime,
        };
        self.registrations.insert(vanity_name.as_slice(), record);
        note(outcome, Event::VanityNameRegistered { name: vanity_name, owner: who });
        lock_id
    }

    /// Writes the reservation of a name hash for `who` under a lock identifier
    /// from the source, in place of what was kept for the hash, and holds the
    /// reservation cost under it.
    fn reservate_name(
        &mut self,
        who: AccountId,
        hashed_vanity_name: HashedVanityName,
        now: Moment,
        outcome: &mut Outcome,
    )
        requires
            old(self).wf(),
            now + old(self).config().reservation_lifetime <= Moment::MAX,
        ensures
            final(self).wf(),
            final(self).config() == old(self).config(),
            final(self).registrations == old(self).registrations,
            ({
                let written = record_of(final(self)@.reservations, hashed_vanity_name@);
                &&& written is Some
                &&& written->0.owner == who
                &&& written->0.deadline == deadline_after(
                    now,
                    old(self).config().reservation_lifetime,
                )
                &&& final(self)@.reservations == old(self)@.reservations.insert(
                    hashed_vanity_name@,
                    written->0,
                )
                &&& final(outcome).commands@ == old(outcome).commands@.push(
                    LockCommand::Place {
                        lock_id: written->0.lock_id,
                        owner: who,
                        amount: old(self).config().reservation_cost,
                    },
                )
            }),
            final(outcome).result == old(outcome).result,
            events_of(*final(outcome)) == events_of(*old(outcome)).push(
                EventView::VanityNameReserved { hash: hashed_vanity_name@, owner: who },
            ),
    {
        let lock_id = T::next_lock_id();
        let record = Record {
            owner: who,
            lock_id,
            deadline: now + self.config.reservation_lifetime,
        };
        self.reservations.insert(hashed_vanity_name.as_slice(), record);
        note(outcome, Event::VanityNameReserved { hash: hashed_vanity_name, owner: who });
        order(
            outcome,
            LockCommand::Place { lock_id, owner: who, amount: self.config.reservation_cost },
        );
    }

    /// Drops the registration of `vanity_name` and gives up its hold.
    fn unregister_name(
        &mut self,
        owner: AccountId,
        lock_id: LockIdentifier,
        vanity_name: VanityName,
        outcome: &mut Outcome,
    )
        requires
            old(self).wf(),
        ensures
            final(self).wf(),
            final(self).config() == old(self).config(),
            final(self).reservations == old(self).reservations,
            final(self)@.registrations == old(self)@.registrations.remove(vanity_name@),
            final(outcome).result == old(outcome).result,
            final(outcome).commands@ == old(outcome).commands@.push(
                LockCommand::Release { lock_id, owner },
            ),
            events_of(*final(outcome)) == events_of(*old(outcome)).push(
                EventView::UnregisterVanityName { vanity_name: vanity_name@ },
            ),
    {
        self.registrations.remove(vanity_name.as_slice());
        order(outcome, LockCommand::Release { lock_id, owner });
        note(outcome, Event::UnregisterVanityName { vanity_name });
    }
}

} // verus!
