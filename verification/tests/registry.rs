use frame_support::{Blake2_256, StorageHasher};
use vnrs::pallet::Pallet;
use vnrs::types::{
    AccountId, Config, Error, Event, LockCommand, LockIdentifier, Moment, NextLockId,
};

const VANITY_NAME: &str = "VANITY_NAME";

const USER_1: u64 = 1;
const USER_2: u64 = 2;

const RESERVATION_LIFETIME: u64 = 60 * 60;
const REGISTRATION_LIFETIME: u64 = 60 * 60 * 60;

const LOCK: LockIdentifier = *b"12345678";

struct FixedLock;

impl NextLockId for FixedLock {
    fn next_lock_id() -> LockIdentifier {
        LOCK
    }
}

struct OtherLock;

impl NextLockId for OtherLock {
    fn next_lock_id() -> LockIdentifier {
        *b"abcdefgh"
    }
}

fn blake2_256(data: &[u8]) -> [u8; 32] {
    Blake2_256::hash(data)
}

fn config() -> Config {
    Config {
        reservation_lifetime: RESERVATION_LIFETIME,
        registration_lifetime: REGISTRATION_LIFETIME,
        reservation_cost: 100,
        registration_one_byte_cost: 1,
    }
}

fn new_test_ext() -> Pallet<FixedLock> {
    Pallet::new(config())
}

fn owner_of(found: Option<(AccountId, LockIdentifier, Moment)>) -> Option<AccountId> {
    found.map(|record| record.0)
}

#[test]
fn registration_name() {
    let mut vnrs_module = new_test_ext();
    assert_eq!(vnrs_module.get_vanity_name_owner(VANITY_NAME.as_bytes()), None);
    assert_eq!(
        vnrs_module
            .reservate_vanity_name(USER_1, blake2_256(VANITY_NAME.as_bytes()), 0)
            .result,
        Ok(())
    );
    assert!(matches!(
        vnrs_module.get_reservation_owner(blake2_256(VANITY_NAME.as_bytes())),
        Some((USER_1, _, _))
    ));
    assert_eq!(
        vnrs_module
            .register_vanity_name(USER_1, VANITY_NAME.as_bytes().to_vec(), 0)
            .result,
        Ok(())
    );
    assert!(matches!(
        vnrs_module.get_vanity_name_owner(VANITY_NAME.as_bytes()),
        Some((USER_1, _, _))
    ));
}

#[test]
fn registration_without_reservation() {
    let mut vnrs_module = new_test_ext();
    assert_eq!(
        vnrs_module
            .register_vanity_name(USER_1, VANITY_NAME.as_bytes().to_vec(), 0)
            .result,
        Err(Error::NoReservation)
    );
}

#[test]
fn registration_with_other_reservation() {
    let mut vnrs_module = new_test_ext();
    assert_eq!(
        vnrs_module
            .reservate_vanity_name(USER_1, blake2_256(VANITY_NAME.as_bytes()), 0)
            .result,
        Ok(())
    );
    assert!(matches!(
        vnrs_module.get_reservation_owner(blake2_256(VANITY_NAME.as_bytes())),
        Some((USER_1, _, _))
    ));
    assert_eq!(
        vnrs_module
            .register_vanity_name(USER_2, VANITY_NAME.as_bytes().to_vec(), 0)
            .result,
        Err(Error::WrongReservationOwnership)
    );
}

#[test]
fn lifetime_of_reservation_test() {
    let mut vnrs_module = new_test_ext();
    assert_eq!(
        vnrs_module
            .reservate_vanity_name(USER_1, blake2_256(VANITY_NAME.as_bytes()), 0)
            .result,
        Ok(())
    );
    assert!(matches!(
        vnrs_module.get_reservation_owner(blake2_256(VANITY_NAME.as_bytes())),
        Some((USER_1, _, _))
    ));
    let now = RESERVATION_LIFETIME + 1;
    assert_eq!(
        vnrs_module
            .register_vanity_name(USER_1, VANITY_NAME.as_bytes().to_vec(), now)
            .result,
        Err(Error::NoReservation)
    );
}

#[test]
fn name_is_hashed_with_blake2b_256() {
    // The digest of "abc", written out: registering "abc" redeems a
    // reservation made under exactly these bytes.
    let digest: [u8; 32] = [
        189, 221, 129, 60, 99, 66, 57, 114, 49, 113, 239, 63, 238, 152, 87, 155, 148, 150, 78, 59,
        177, 203, 62, 66, 114, 98, 200, 192, 104, 213, 35, 25,
    ];
    let mut registry = new_test_ext();
    assert_eq!(registry.reservate_vanity_name(USER_1, digest, 0).result, Ok(()));
    assert_eq!(
        registry.register_vanity_name(USER_1, b"abc".to_vec(), 0).result,
        Ok(())
    );
    assert_eq!(registry.get_reservation_owner(digest), None);
    assert_eq!(owner_of(registry.get_vanity_name_owner(b"abc")), Some(USER_1));
}

#[test]
fn reservation_under_the_name_itself_is_not_found() {
    let mut key = [0u8; 32];
    key[..3].copy_from_slice(b"abc");
    let mut registry = new_test_ext();
    assert_eq!(registry.reservate_vanity_name(USER_1, key, 0).result, Ok(()));
    assert_eq!(
        registry.register_vanity_name(USER_1, b"abc".to_vec(), 0).result,
        Err(Error::NoReservation)
    );
}

#[test]
fn register_on_fresh_state_fails_for_any_name() {
    for name in [&b""[..], &b"a"[..], &b"abc"[..], &[0u8; 64][..], &[255u8; 300][..]] {
        let mut registry = new_test_ext();
        let outcome = registry.register_vanity_name(USER_1, name.to_vec(), 7);
        assert_eq!(outcome.result, Err(Error::NoReservation));
        assert!(outcome.events.is_empty());
        assert!(outcome.commands.is_empty());
        assert_eq!(registry.get_vanity_name_owner(name), None);
    }
}

#[test]
fn reserve_reports_and_holds_the_cost() {
    let hash = blake2_256(b"abc");
    let mut registry = new_test_ext();
    let outcome = registry.reservate_vanity_name(USER_1, hash, 5);
    assert_eq!(outcome.result, Ok(()));
    assert_eq!(outcome.events, vec![Event::VanityNameReserved { hash, owner: USER_1 }]);
    assert_eq!(
        outcome.commands,
        vec![LockCommand::Place { lock_id: LOCK, owner: USER_1, amount: 100 }]
    );
    assert_eq!(
        registry.get_reservation_owner(hash),
        Some((USER_1, LOCK, 5 + RESERVATION_LIFETIME))
    );
}

#[test]
fn live_reservation_shuts_out_another_owner() {
    let hash = blake2_256(b"abc");
    let mut registry = new_test_ext();
    assert_eq!(registry.reservate_vanity_name(USER_1, hash, 0).result, Ok(()));
    let before = registry.get_reservation_owner(hash);

    let outcome = registry.reservate_vanity_name(USER_2, hash, 10);
    assert_eq!(outcome.result, Err(Error::AlreadyReserved));
    assert_eq!(
        outcome.events,
        vec![Event::ReReserveTry { hash, owner: USER_1, tried: USER_2 }]
    );
    assert!(outcome.commands.is_empty());
    assert_eq!(registry.get_reservation_owner(hash), before);

    let outcome = registry.register_vanity_name(USER_2, b"abc".to_vec(), 10);
    assert_eq!(outcome.result, Err(Error::WrongReservationOwnership));
    assert_eq!(
        outcome.events,
        vec![Event::WrongOwnershipRegisterTry {
            vanity_name: b"abc".to_vec(),
            owner: USER_1,
            tried: USER_2
        }]
    );
    assert!(outcome.commands.is_empty());
    assert_eq!(registry.get_reservation_owner(hash), before);
    assert_eq!(registry.get_vanity_name_owner(b"abc"), None);
}

#[test]
fn live_reservation_shuts_out_its_owner_too() {
    let hash = blake2_256(b"abc");
    let mut registry = new_test_ext();
    assert_eq!(registry.reservate_vanity_name(USER_1, hash, 0).result, Ok(()));
    let outcome = registry.reservate_vanity_name(USER_1, hash, 1);
    assert_eq!(outcome.result, Err(Error::AlreadyReserved));
    assert_eq!(
        outcome.events,
        vec![Event::ReReserveTry { hash, owner: USER_1, tried: USER_1 }]
    );
    assert_eq!(registry.get_reservation_owner(hash), Some((USER_1, LOCK, RESERVATION_LIFETIME)));
}

#[test]
fn reservation_is_live_at_its_deadline() {
    let hash = blake2_256(b"abc");
    let mut registry = new_test_ext();
    assert_eq!(registry.reservate_vanity_name(USER_1, hash, 0).result, Ok(()));
    assert_eq!(
        registry.reservate_vanity_name(USER_2, hash, RESERVATION_LIFETIME).result,
        Err(Error::AlreadyReserved)
    );
    assert_eq!(
        registry
            .register_vanity_name(USER_1, b"abc".to_vec(), RESERVATION_LIFETIME)
            .result,
        Ok(())
    );
}

#[test]
fn expired_reservation_is_replaced_whole() {
    let hash = blake2_256(b"abc");
    let mut registry: Pallet<OtherLock> = Pallet::new(config());
    assert_eq!(registry.reservate_vanity_name(USER_1, hash, 0).result, Ok(()));
    let now = RESERVATION_LIFETIME + 1;
    let outcome = registry.reservate_vanity_name(USER_2, hash, now);
    assert_eq!(outcome.result, Ok(()));
    assert_eq!(outcome.events, vec![Event::VanityNameReserved { hash, owner: USER_2 }]);
    assert_eq!(
        outcome.commands,
        vec![
            LockCommand::Release { lock_id: *b"abcdefgh", owner: USER_1 },
            LockCommand::Place { lock_id: *b"abcdefgh", owner: USER_2, amount: 100 },
        ]
    );
    assert_eq!(
        registry.get_reservation_owner(hash),
        Some((USER_2, *b"abcdefgh", now + RESERVATION_LIFETIME))
    );
}

#[test]
fn reserve_then_register_round_trip() {
    let name = b"round trip".to_vec();
    let hash = blake2_256(&name);
    let mut registry = Pallet::<FixedLock>::new(Config {
        reservation_lifetime: 50,
        registration_lifetime: 1000,
        reservation_cost: 9,
        registration_one_byte_cost: 3,
    });
    assert_eq!(registry.reservate_vanity_name(USER_1, hash, 20).result, Ok(()));
    let outcome = registry.register_vanity_name(USER_1, name.clone(), 30);
    assert_eq!(outcome.result, Ok(()));
    assert_eq!(
        outcome.events,
        vec![Event::VanityNameRegistered { name: name.clone(), owner: USER_1 }]
    );
    assert_eq!(
        outcome.commands,
        vec![
            LockCommand::Release { lock_id: LOCK, owner: USER_1 },
            LockCommand::Place { lock_id: LOCK, owner: USER_1, amount: 30 },
        ]
    );
    assert_eq!(registry.get_vanity_name_owner(&name), Some((USER_1, LOCK, 1030)));
    assert_eq!(registry.get_reservation_owner(hash), None);
}

#[test]
fn register_with_hash_handed_in() {
    let hash = [7u8; 32];
    let mut registry = new_test_ext();
    assert_eq!(registry.reservate_vanity_name(USER_1, hash, 0).result, Ok(()));
    let outcome = registry.register_reserved_name(USER_1, hash, b"seven".to_vec(), 1);
    assert_eq!(outcome.result, Ok(()));
    assert_eq!(
        registry.get_vanity_name_owner(b"seven"),
        Some((USER_1, LOCK, 1 + REGISTRATION_LIFETIME))
    );
    assert_eq!(registry.get_reservation_owner(hash), None);
}

#[test]
fn failed_register_burns_the_reservation() {
    let hash = blake2_256(b"abc");
    let mut registry = new_test_ext();
    assert_eq!(registry.reservate_vanity_name(USER_1, hash, 0).result, Ok(()));
    assert_eq!(registry.register_vanity_name(USER_1, b"abc".to_vec(), 0).result, Ok(()));
    let registered = registry.get_vanity_name_owner(b"abc");

    assert_eq!(registry.reservate_vanity_name(USER_2, hash, 1).result, Ok(()));
    let outcome = registry.register_vanity_name(USER_2, b"abc".to_vec(), 2);
    assert_eq!(outcome.result, Err(Error::AlreadyRegistered));
    assert_eq!(
        outcome.events,
        vec![Event::ReRegisterTry { vanity_name: b"abc".to_vec(), owner: USER_1, tried: USER_2 }]
    );
    assert!(outcome.commands.is_empty());
    assert_eq!(registry.get_reservation_owner(hash), None);
    assert_eq!(registry.get_vanity_name_owner(b"abc"), registered);
}

#[test]
fn refresh_extends_the_deadline_only() {
    let hash = blake2_256(b"abc");
    let mut registry = new_test_ext();
    assert_eq!(registry.reservate_vanity_name(USER_1, hash, 0).result, Ok(()));
    assert_eq!(registry.register_vanity_name(USER_1, b"abc".to_vec(), 0).result, Ok(()));
    let outcome = registry.refresh_registration_vanity_name(USER_1, b"abc".to_vec(), 500);
    assert_eq!(outcome.result, Ok(()));
    assert!(outcome.events.is_empty());
    assert!(outcome.commands.is_empty());
    assert_eq!(
        registry.get_vanity_name_owner(b"abc"),
        Some((USER_1, LOCK, 500 + REGISTRATION_LIFETIME))
    );
}

#[test]
fn refresh_by_another_caller_is_turned_down() {
    let hash = blake2_256(b"abc");
    let mut registry = new_test_ext();
    assert_eq!(registry.reservate_vanity_name(USER_1, hash, 0).result, Ok(()));
    assert_eq!(registry.register_vanity_name(USER_1, b"abc".to_vec(), 0).result, Ok(()));
    let outcome =
        registry.refresh_registration_vanity_name(USER_2, b"abc".to_vec(), REGISTRATION_LIFETIME);
    assert_eq!(outcome.result, Err(Error::WrongRegistrationOwnership));
    assert!(outcome.events.is_empty());
    assert!(outcome.commands.is_empty());
    assert_eq!(
        registry.get_vanity_name_owner(b"abc"),
        Some((USER_1, LOCK, REGISTRATION_LIFETIME))
    );
}

#[test]
fn refresh_without_registration_fails() {
    let mut registry = new_test_ext();
    let outcome = registry.refresh_registration_vanity_name(USER_1, b"abc".to_vec(), 0);
    assert_eq!(outcome.result, Err(Error::NoRegistrationForRefresh));
    assert!(outcome.events.is_empty());
    assert!(outcome.commands.is_empty());
}

#[test]
fn refresh_sweeps_an_expired_registration() {
    let hash = blake2_256(b"abc");
    let mut registry = new_test_ext();
    assert_eq!(registry.reservate_vanity_name(USER_1, hash, 0).result, Ok(()));
    assert_eq!(registry.register_vanity_name(USER_1, b"abc".to_vec(), 0).result, Ok(()));
    let outcome = registry.refresh_registration_vanity_name(
        USER_2,
        b"abc".to_vec(),
        REGISTRATION_LIFETIME + 1,
    );
    assert_eq!(outcome.result, Err(Error::NoRegistrationForRefresh));
    assert_eq!(outcome.events, vec![Event::UnregisterVanityName { vanity_name: b"abc".to_vec() }]);
    assert_eq!(outcome.commands, vec![LockCommand::Release { lock_id: LOCK, owner: USER_1 }]);
    assert_eq!(registry.get_vanity_name_owner(b"abc"), None);
}

#[test]
fn expired_registration_gives_way_to_a_new_owner() {
    let hash = blake2_256(b"abc");
    let mut registry = new_test_ext();
    assert_eq!(registry.reservate_vanity_name(USER_1, hash, 0).result, Ok(()));
    assert_eq!(registry.register_vanity_name(USER_1, b"abc".to_vec(), 0).result, Ok(()));

    let now = REGISTRATION_LIFETIME + 1;
    assert_eq!(
        registry.refresh_registration_vanity_name(USER_1, b"abc".to_vec(), now).result,
        Err(Error::NoRegistrationForRefresh)
    );
    assert_eq!(registry.reservate_vanity_name(USER_2, hash, now).result, Ok(()));
    assert_eq!(registry.register_vanity_name(USER_2, b"abc".to_vec(), now).result, Ok(()));
    assert_eq!(
        registry.get_vanity_name_owner(b"abc"),
        Some((USER_2, LOCK, now + REGISTRATION_LIFETIME))
    );
}

#[test]
fn register_over_an_expired_registration_releases_its_hold() {
    let hash = blake2_256(b"abc");
    let mut registry = new_test_ext();
    assert_eq!(registry.reservate_vanity_name(USER_1, hash, 0).result, Ok(()));
    assert_eq!(registry.register_vanity_name(USER_1, b"abc".to_vec(), 0).result, Ok(()));

    let now = REGISTRATION_LIFETIME + 1;
    assert_eq!(registry.reservate_vanity_name(USER_2, hash, now).result, Ok(()));
    let outcome = registry.register_vanity_name(USER_2, b"abc".to_vec(), now);
    assert_eq!(outcome.result, Ok(()));
    assert_eq!(
        outcome.commands,
        vec![
            LockCommand::Release { lock_id: LOCK, owner: USER_1 },
            LockCommand::Release { lock_id: LOCK, owner: USER_2 },
            LockCommand::Place { lock_id: LOCK, owner: USER_2, amount: 3 },
        ]
    );
}

#[test]
fn register_by_one_who_never_reserved() {
    let hash = blake2_256(b"abc");
    let mut registry = new_test_ext();
    assert_eq!(registry.reservate_vanity_name(USER_1, hash, 0).result, Ok(()));
    let outcome = registry.register_vanity_name(USER_2, b"abc".to_vec(), 0);
    assert!(outcome.result.is_err());
    assert_eq!(outcome.result, Err(Error::WrongReservationOwnership));
    assert_eq!(registry.get_vanity_name_owner(b"abc"), None);
    assert_eq!(owner_of(registry.get_reservation_owner(hash)), Some(USER_1));
}

#[test]
fn names_are_kept_apart() {
    let mut registry = new_test_ext();
    let names: Vec<Vec<u8>> = (0u8..20).map(|i| vec![b'n', i]).collect();
    for (i, name) in names.iter().enumerate() {
        let who = i as u64;
        assert_eq!(registry.reservate_vanity_name(who, blake2_256(name), 0).result, Ok(()));
    }
    for (i, name) in names.iter().enumerate() {
        let who = i as u64;
        assert_eq!(registry.register_vanity_name(who, name.clone(), 1).result, Ok(()));
    }
    for (i, name) in names.iter().enumerate() {
        assert_eq!(owner_of(registry.get_vanity_name_owner(name)), Some(i as u64));
        assert_eq!(registry.get_reservation_owner(blake2_256(name)), None);
    }
    assert_eq!(registry.get_vanity_name_owner(b"n"), None);
}

#[test]
fn empty_name_costs_nothing() {
    let hash = blake2_256(b"");
    let mut registry = new_test_ext();
    assert_eq!(registry.reservate_vanity_name(USER_1, hash, 0).result, Ok(()));
    let outcome = registry.register_vanity_name(USER_1, Vec::new(), 0);
    assert_eq!(outcome.result, Ok(()));
    assert_eq!(
        outcome.commands,
        vec![
            LockCommand::Release { lock_id: LOCK, owner: USER_1 },
            LockCommand::Place { lock_id: LOCK, owner: USER_1, amount: 0 },
        ]
    );
}
