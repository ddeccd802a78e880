use firestore::errors::{
    FirestoreDataConflictError, FirestoreDatabaseError, FirestoreError,
    FirestoreErrorPublicGenericDetails,
};
use std::collections::HashSet;
use yuki_rs::datastore::probe::{next_slot, SLOT_COUNT};
use yuki_rs::datastore::scan::{MissingRecord, ScanAction, ScanEvent, SlotRecord, SlotScan};
use yuki_rs::time::Timestamp;
use yuki_rs::Error;

fn database_error(code: &str) -> FirestoreError {
    FirestoreError::DatabaseError(FirestoreDatabaseError::new(
        FirestoreErrorPublicGenericDetails::new(code.to_string()),
        "refused".to_string(),
        false,
    ))
}

fn conflict_error(code: &str) -> FirestoreError {
    FirestoreError::DataConflictError(FirestoreDataConflictError::new(
        FirestoreErrorPublicGenericDetails::new(code.to_string()),
        "conflict".to_string(),
    ))
}

fn now() -> Timestamp {
    Timestamp::new(1_700_000_000, 0)
}

fn held() -> ScanEvent {
    ScanEvent::Read(Ok(SlotRecord::Present {
        lease_until: Timestamp::new(32_503_680_000, 0),
        update_time: Some(Timestamp::new(1_699_999_900, 0)),
    }))
}

fn expired() -> ScanEvent {
    ScanEvent::Read(Ok(SlotRecord::Present {
        lease_until: Timestamp::new(1_699_999_999, 999_999_999),
        update_time: Some(Timestamp::new(1_699_999_700, 12)),
    }))
}

fn read_slot(action: &ScanAction) -> u16 {
    match action {
        ScanAction::Read { slot } => *slot,
        other => panic!("expected a read, got {:?}", other),
    }
}

#[test]
fn next_slot_wraps_around() {
    assert_eq!(next_slot(1020, 7), 3);
    assert_eq!(next_slot(0, 1), 1);
    assert_eq!(next_slot(1023, 1023), 1022);
}

#[test]
fn scan_of_held_slots_visits_each_slot_once_then_gives_up() {
    let (mut scan, mut action) = SlotScan::start_at(MissingRecord::Create, 17, 100);
    let mut seen = Vec::new();
    for _ in 0..SLOT_COUNT {
        seen.push(read_slot(&action));
        action = scan.step_at(held(), now(), now());
    }
    assert!(matches!(action, ScanAction::Failed(Error::LeaseSlotsExhausted)));
    assert_eq!(seen[0], 17);
    assert_eq!(seen[1], (17 + 201) % 1024);
    let distinct: HashSet<u16> = seen.iter().copied().collect();
    assert_eq!(distinct.len(), 1024);
    assert!(seen.iter().all(|s| *s < 1024));
}

#[test]
fn machine_scan_of_leased_ids_reports_exhaustion() {
    let (mut scan, mut action) = SlotScan::start_at(MissingRecord::Fail, 1023, 511);
    for _ in 0..SLOT_COUNT {
        assert!(matches!(action, ScanAction::Read { .. }));
        action = scan.step_at(held(), now(), now());
    }
    assert!(matches!(action, ScanAction::Failed(Error::MachineIDsExhausted)));
}

#[test]
fn lease_ending_exactly_now_counts_as_held() {
    let (mut scan, _) = SlotScan::start_at(MissingRecord::Create, 4, 0);
    let event = ScanEvent::Read(Ok(SlotRecord::Present {
        lease_until: now(),
        update_time: Some(Timestamp::new(1, 0)),
    }));
    let action = scan.step_at(event, now(), now());
    assert!(matches!(action, ScanAction::Read { slot: 5 }));
}

#[test]
fn missing_slot_is_created_and_acquired() {
    let (mut scan, action) = SlotScan::start_at(MissingRecord::Create, 300, 2);
    assert!(matches!(action, ScanAction::Read { slot: 300 }));
    let action = scan.step_at(ScanEvent::Read(Ok(SlotRecord::Missing)), now(), now());
    let expected = Timestamp::new(1_700_000_300, 0);
    assert!(matches!(action, ScanAction::Insert { slot: 300, lease_until } if lease_until == expected));
    let written = Timestamp::new(1_700_000_000, 77);
    let action = scan.step_at(ScanEvent::Written(Ok(Some(written))), now(), now());
    assert!(matches!(
        action,
        ScanAction::Acquired { slot: 300, lease_until, revision } if lease_until == expected && revision == written
    ));
}

#[test]
fn missing_machine_record_is_an_error() {
    let (mut scan, _) = SlotScan::start_at(MissingRecord::Fail, 9, 3);
    let action = scan.step_at(held(), now(), now());
    assert!(matches!(action, ScanAction::Read { slot: 16 }));
    let action = scan.step_at(ScanEvent::Read(Ok(SlotRecord::Missing)), now(), now());
    assert!(matches!(action, ScanAction::Failed(Error::MissedMachineIDRecord(16))));
}

#[test]
fn expired_slot_is_overwritten_under_its_update_time() {
    let (mut scan, _) = SlotScan::start_at(MissingRecord::Create, 0, 0);
    let action = scan.step_at(expired(), now(), now());
    let expected = Timestamp::new(1_700_000_300, 0);
    assert!(matches!(
        action,
        ScanAction::Update { slot: 0, lease_until, precondition }
            if lease_until == expected && precondition == Timestamp::new(1_699_999_700, 12)
    ));
    let action = scan.step_at(ScanEvent::Written(Ok(Some(Timestamp::new(1_700_000_001, 0)))), now(), now());
    assert!(matches!(action, ScanAction::Acquired { slot: 0, .. }));
}

#[test]
fn lost_update_race_moves_to_next_slot() {
    let (mut scan, _) = SlotScan::start_at(MissingRecord::Create, 10, 5);
    let _ = scan.step_at(expired(), now(), now());
    let action = scan.step_at(ScanEvent::Written(Err(database_error("FailedPrecondition"))), now(), now());
    assert!(matches!(action, ScanAction::Read { slot: 21 }));
}

#[test]
fn lost_insert_race_moves_to_next_slot() {
    let (mut scan, _) = SlotScan::start_at(MissingRecord::Create, 1020, 3);
    let _ = scan.step_at(ScanEvent::Read(Ok(SlotRecord::Missing)), now(), now());
    let action = scan.step_at(ScanEvent::Written(Err(conflict_error("AlreadyExists"))), now(), now());
    assert!(matches!(action, ScanAction::Read { slot: 3 }));
}

#[test]
fn other_write_errors_end_the_scan() {
    let (mut scan, _) = SlotScan::start_at(MissingRecord::Create, 1, 1);
    let _ = scan.step_at(ScanEvent::Read(Ok(SlotRecord::Missing)), now(), now());
    let action = scan.step_at(ScanEvent::Written(Err(database_error("FailedPrecondition"))), now(), now());
    assert!(matches!(action, ScanAction::Failed(Error::Firestore(FirestoreError::DatabaseError(_)))));

    let (mut scan, _) = SlotScan::start_at(MissingRecord::Create, 1, 1);
    let _ = scan.step_at(expired(), now(), now());
    let action = scan.step_at(ScanEvent::Written(Err(conflict_error("AlreadyExists"))), now(), now());
    assert!(matches!(action, ScanAction::Failed(Error::Firestore(FirestoreError::DataConflictError(_)))));
}

#[test]
fn read_errors_end_the_scan() {
    let (mut scan, _) = SlotScan::start_at(MissingRecord::Create, 1, 1);
    let action = scan.step_at(ScanEvent::Read(Err(database_error("Unavailable"))), now(), now());
    assert!(matches!(action, ScanAction::Failed(Error::Firestore(_))));
}

#[test]
fn out_of_range_update_time_ends_the_scan() {
    let (mut scan, _) = SlotScan::start_at(MissingRecord::Create, 1, 1);
    let event = ScanEvent::Read(Ok(SlotRecord::Present {
        lease_until: Timestamp::new(0, 0),
        update_time: Some(Timestamp::new(i64::MAX, 0)),
    }));
    let action = scan.step_at(event, now(), now());
    assert!(matches!(action, ScanAction::Failed(Error::Firestore(FirestoreError::DeserializeError(_)))));
}

#[test]
fn random_start_reads_a_slot() {
    for _ in 0..100 {
        let (mut scan, action) = SlotScan::start(MissingRecord::Create);
        let first = read_slot(&action);
        assert!(first < SLOT_COUNT);
        let mut seen = HashSet::new();
        seen.insert(first);
        let mut action = scan.step(held());
        let mut count = 1;
        while let ScanAction::Read { slot } = action {
            assert!(seen.insert(slot));
            count += 1;
            action = scan.step(held());
        }
        assert_eq!(count, 1024);
        assert!(matches!(action, ScanAction::Failed(Error::LeaseSlotsExhausted)));
    }
}

#[test]
fn clock_driven_insert_uses_the_current_time() {
    let (mut scan, _) = SlotScan::start(MissingRecord::Create);
    let action = scan.step(ScanEvent::Read(Ok(SlotRecord::Missing)));
    match action {
        ScanAction::Insert { lease_until, .. } => assert!(lease_until.seconds > 1_704_067_200 + 300),
        other => panic!("expected an insert, got {:?}", other),
    }
}

#[test]
fn revoked_slot_is_claimed_again() {
    let (mut scan, _) = SlotScan::start_at(MissingRecord::Create, 42, 0);
    let event = ScanEvent::Read(Ok(SlotRecord::Present {
        lease_until: yuki_rs::Firestore::revoked_lease_until(),
        update_time: Some(Timestamp::new(1_699_999_000, 0)),
    }));
    let action = scan.step_at(event, now(), now());
    assert!(matches!(
        action,
        ScanAction::Update { slot: 42, precondition, .. } if precondition == Timestamp::new(1_699_999_000, 0)
    ));
}

#[test]
fn machine_scan_starts_below_the_last_id() {
    for _ in 0..5000 {
        let (_, action) = SlotScan::start(MissingRecord::Fail);
        assert!(read_slot(&action) < SLOT_COUNT - 1);
    }
}

#[test]
fn free_first_machine_id_is_handed_out() {
    let (mut scan, action) = SlotScan::start_at(MissingRecord::Fail, 1022, 0);
    assert!(matches!(action, ScanAction::Read { slot: 1022 }));
    let action = scan.step_at(
        ScanEvent::Read(Ok(SlotRecord::Present {
            lease_until: Timestamp::new(0, 0),
            update_time: Some(Timestamp::new(1_699_000_000, 0)),
        })),
        now(),
        now(),
    );
    assert!(matches!(action, ScanAction::Update { slot: 1022, .. }));
    let action = scan.step_at(ScanEvent::Written(Ok(Some(Timestamp::new(1_700_000_000, 3)))), now(), now());
    assert!(matches!(action, ScanAction::Acquired { slot: 1022, .. }));
}

#[test]
fn scan_reaches_the_revoked_slot_among_held_ones() {
    let revoked = 777u16;
    let (mut scan, mut action) = SlotScan::start_at(MissingRecord::Create, 5, 300);
    let mut reads = 0;
    loop {
        let slot = read_slot(&action);
        reads += 1;
        let record = if slot == revoked {
            SlotRecord::Present {
                lease_until: yuki_rs::Firestore::revoked_lease_until(),
                update_time: Some(Timestamp::new(1_699_999_000, 0)),
            }
        } else {
            match held() {
                ScanEvent::Read(Ok(record)) => record,
                _ => unreachable!(),
            }
        };
        action = scan.step_at(ScanEvent::Read(Ok(record)), now(), now());
        if !matches!(action, ScanAction::Read { .. }) {
            break;
        }
    }
    assert!(reads <= 1024);
    assert!(matches!(action, ScanAction::Update { slot: 777, lease_until, .. } if lease_until == Timestamp::new(1_700_000_300, 0)));
}
