use firestore::errors::{FirestoreDatabaseError, FirestoreError, FirestoreErrorPublicGenericDetails};
use yuki_rs::lease::{
    initial_jitter_seconds, MaintainAction, MaintainEvent, INITIAL_JITTER_BOUND_SECONDS,
    LEASE_RENEWAL_INTERVAL_SECONDS, LEASE_RENEWAL_SAFETY_MARGIN_SECONDS,
    LEASE_RENEWAL_TIMEOUT_SECONDS,
};
use yuki_rs::time::Timestamp;
use yuki_rs::{Error, Lease};

fn unavailable() -> Error {
    Error::Firestore(FirestoreError::DatabaseError(FirestoreDatabaseError::new(
        FirestoreErrorPublicGenericDetails::new("Unavailable".to_string()),
        "down".to_string(),
        true,
    )))
}

fn lease() -> Lease<u32> {
    Lease::new(12, Timestamp::new(1_000, 0), 7)
}

#[test]
fn renewal_settings() {
    assert_eq!(LEASE_RENEWAL_INTERVAL_SECONDS, 60);
    assert_eq!(LEASE_RENEWAL_TIMEOUT_SECONDS, 10);
    assert_eq!(LEASE_RENEWAL_SAFETY_MARGIN_SECONDS, 60);
    for _ in 0..100 {
        assert!(initial_jitter_seconds() < INITIAL_JITTER_BOUND_SECONDS as u64);
    }
}

#[test]
fn new_lease_keeps_its_parts() {
    let lease = lease();
    assert_eq!(lease.id(), 12);
    assert_eq!(lease.lasts_until(), Timestamp::new(1_000, 0));
    assert_eq!(*lease.revision(), 7);
    assert_eq!(lease.into_parts(), (12, 7));
}

#[test]
fn renewal_deadline_is_a_minute_before_expiry() {
    let lease = lease();
    assert!(!lease.is_past_renewal_deadline(Timestamp::new(939, 999_999_999)));
    assert!(lease.is_past_renewal_deadline(Timestamp::new(940, 0)));
    assert!(lease.is_past_renewal_deadline(Timestamp::new(2_000, 0)));
}

#[test]
fn tick_renews_before_the_deadline() {
    let mut lease = lease();
    let action = lease.step_at(MaintainEvent::Tick, Timestamp::new(900, 0));
    assert!(matches!(action, MaintainAction::Renew));
}

#[test]
fn tick_past_the_deadline_reports_lease_lost() {
    let mut lease = lease();
    let action = lease.step_at(MaintainEvent::Tick, Timestamp::new(940, 0));
    assert!(matches!(action, MaintainAction::Stop(Err(Error::LeaseLost))));
}

#[test]
fn timeout_is_tolerated_until_the_deadline() {
    let mut lease = lease();
    let action = lease.step_at(MaintainEvent::RenewalTimedOut, Timestamp::new(939, 0));
    assert!(matches!(action, MaintainAction::Wait));
    let action = lease.step_at(MaintainEvent::RenewalTimedOut, Timestamp::new(941, 0));
    assert!(matches!(action, MaintainAction::Stop(Err(Error::LeaseRenewalTimeout))));
}

#[test]
fn successful_renewal_moves_the_deadline() {
    let mut lease = lease();
    let action = lease.step_at(MaintainEvent::Renewed(Ok((Timestamp::new(1_300, 0), 8))), Timestamp::new(950, 0));
    assert!(matches!(action, MaintainAction::Wait));
    assert_eq!(lease.lasts_until(), Timestamp::new(1_300, 0));
    assert_eq!(*lease.revision(), 8);
    assert_eq!(lease.id(), 12);
    let action = lease.step_at(MaintainEvent::Tick, Timestamp::new(1_000, 0));
    assert!(matches!(action, MaintainAction::Renew));
}

#[test]
fn lost_lease_stops_at_once() {
    let mut lease = lease();
    let action = lease.step_at(MaintainEvent::Renewed(Err(Error::LeaseLost)), Timestamp::new(100, 0));
    assert!(matches!(action, MaintainAction::Stop(Err(Error::LeaseLost))));
    assert_eq!(lease.lasts_until(), Timestamp::new(1_000, 0));
}

#[test]
fn other_renewal_errors_are_tolerated_until_the_deadline() {
    let mut lease = lease();
    let action = lease.step_at(MaintainEvent::Renewed(Err(unavailable())), Timestamp::new(100, 0));
    assert!(matches!(action, MaintainAction::Wait));
    let action = lease.step_at(MaintainEvent::Renewed(Err(unavailable())), Timestamp::new(940, 0));
    assert!(matches!(action, MaintainAction::Stop(Err(Error::Firestore(_)))));
}

#[test]
fn cancellation_stops_cleanly() {
    let mut lease = lease();
    let action = lease.step_at(MaintainEvent::Cancelled, Timestamp::new(5_000, 0));
    assert!(matches!(action, MaintainAction::Stop(Ok(()))));
    let action = lease.step(MaintainEvent::Cancelled);
    assert!(matches!(action, MaintainAction::Stop(Ok(()))));
}

#[test]
fn clock_driven_tick_on_an_old_lease_reports_lease_lost() {
    let mut lease = lease();
    let action = lease.step(MaintainEvent::Tick);
    assert!(matches!(action, MaintainAction::Stop(Err(Error::LeaseLost))));
    let mut fresh = Lease::new(1, Timestamp::new(32_503_680_000, 0), ());
    assert!(matches!(fresh.step(MaintainEvent::Tick), MaintainAction::Renew));
}
