//! The plain data of the registry: identities, records, configuration,
//! errors, events and deposit-ledger commands.

use vstd::prelude::*;

verus! {

/// The identity of a caller.
pub type AccountId = u64;

/// A value of the logical clock.
pub type Moment = u64;

/// An amount held on the deposit ledger.
pub type Balance = u128;

/// The handle under which the deposit ledger keeps one hold.
pub type LockIdentifier = [u8; 8];

/// The 32-byte hash under which a name is reserved.
pub type HashedVanityName = [u8; 32];

/// A name, as raw bytes.
pub type VanityName = Vec<u8>;

/// The source of lock identifiers. The registry asks it for one identifier
/// each time it creates a hold, and promises nothing about what comes back.
pub trait NextLockId {
    fn next_lock_id() -> LockIdentifier;
}

/// What both stores keep per key: who owns the entry, under which lock its
/// deposit is held, and the last moment at which it is still live.
#[derive(Clone, Copy, Debug, PartialEq, Eq)]
pub struct Record {
    pub owner: AccountId,
    pub lock_id: LockIdentifier,
    pub deadline: Moment,
}

/// The constants that the embedding system supplies.
#[derive(Clone, Copy, Debug, PartialEq, Eq)]
pub struct Config {
    pub reservation_lifetime: Moment,
    pub registration_lifetime: Moment,
    pub reservation_cost: Balance,
    pub registration_one_byte_cost: Balance,
}

/// Why an operation was turned down.
#[derive(Clone, Copy, Debug, PartialEq, Eq, Structural)]
pub enum Error {
    /// The name hash has a live reservation.
    AlreadyReserved,
    /// The name has a live registration.
    AlreadyRegistered,
    /// Kept for callers that match on it; no operation returns it.
    NameRegistrationError,
    /// The live reservation to redeem belongs to someone else.
    WrongReservationOwnership,
    /// The live registration to refresh belongs to someone else.
    WrongRegistrationOwnership,
    /// There is no live reservation to register against.
    NoReservation,
    /// There is no live registration to refresh.
    NoRegistrationForRefresh,
}

/// What an operation reports to observers.
#[derive(Debug, PartialEq, Eq)]
pub enum Event {
    /// `owner` has reserved `hash`.
    VanityNameReserved { hash: HashedVanityName, owner: AccountId },
    /// `owner` has registered `name`.
    VanityNameRegistered { name: VanityName, owner: AccountId },
    /// `tried` asked for a hash that `owner` holds a live reservation of.
    ReReserveTry { hash: HashedVanityName, owner: AccountId, tried: AccountId },
    /// `tried` asked for a name that `owner` holds a live registration of.
    ReRegisterTry { vanity_name: VanityName, owner: AccountId, tried: AccountId },
    /// `tried` asked to register a name whose hash `owner` has reserved.
    WrongOwnershipRegisterTry { vanity_name: VanityName, owner: AccountId, tried: AccountId },
    /// The expired registration of `vanity_name` was swept.
    UnregisterVanityName { vanity_name: VanityName },
}

/// An [`Event`] with its byte strings as sequences.
pub enum EventView {
    VanityNameReserved { hash: Seq<u8>, owner: AccountId },
    VanityNameRegistered { name: Seq<u8>, owner: AccountId },
    ReReserveTry { hash: Seq<u8>, owner: AccountId, tried: AccountId },
    ReRegisterTry { vanity_name: Seq<u8>, owner: AccountId, tried: AccountId },
    WrongOwnershipRegisterTry { vanity_name: Seq<u8>, owner: AccountId, tried: AccountId },
    UnregisterVanityName { vanity_name: Seq<u8> },
}

impl Event {
    pub open spec fn view(&self) -> EventView {
        match *self {
            Event::VanityNameReserved { hash, owner } => EventView::VanityNameReserved {
                hash: hash@,
                owner,
            },
            Event::VanityNameRegistered { name, owner } => EventView::VanityNameRegistered {
                name: name@,
                owner,
            },
            Event::ReReserveTry { hash, owner, tried } => EventView::ReReserveTry {
                hash: hash@,
                owner,
                tried,
            },
            Event::ReRegisterTry { vanity_name, owner, tried } => EventView::ReRegisterTry {
                vanity_name: vanity_name@,
                owner,
                tried,
            },
            Event::WrongOwnershipRegisterTry {
                vanity_name,
                owner,
                tried,
            } => EventView::WrongOwnershipRegisterTry { vanity_name: vanity_name@, owner, tried },
            Event::UnregisterVanityName { vanity_name } => EventView::UnregisterVanityName {
                vanity_name: vanity_name@,
            },
        }
    }
}

/// A command for the deposit ledger.
#[derive(Clone, Copy, Debug, PartialEq, Eq)]
pub enum LockCommand {
    /// Hold `amount` of `owner`'s balance under `lock_id`.
    Place { lock_id: LockIdentifier, owner: AccountId, amount: Balance },
    /// Give up the hold that `owner` has under `lock_id`.
    Release { lock_id: LockIdentifier, owner: AccountId },
}

/// What one operation hands back: its result, and the events and ledger
/// commands that go with it, in the order in which they are due.
#[derive(Debug)]
pub struct Outcome {
    pub result: Result<(), Error>,
    pub events: Vec<Event>,
    pub commands: Vec<LockCommand>,
}

/// An [`Outcome`] over sequences.
pub struct OutcomeView {
    pub result: Result<(), Error>,
    pub events: Seq<EventView>,
    pub commands: Seq<LockCommand>,
}

impl Outcome {
    pub open spec fn view(&self) -> OutcomeView {
        OutcomeView {
            result: self.result,
            events: self.events@.map_values(|e: Event| e@),
            commands: self.commands@,
        }
    }
}

} // verus!
