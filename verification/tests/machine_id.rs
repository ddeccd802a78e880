use yuki_rs::machine_id::{
    HeartbeatAction, HeartbeatEvent, MachineID, HEARTBEAT_INTERVAL_SECONDS,
    LEASE_EXPIRY_THRESHOLD_SECONDS,
};
use yuki_rs::time::Timestamp;
use yuki_rs::Error;

#[test]
fn heartbeat_settings() {
    assert_eq!(HEARTBEAT_INTERVAL_SECONDS, 60);
    assert_eq!(LEASE_EXPIRY_THRESHOLD_SECONDS, 60);
}

#[test]
fn machine_id_as_integers() {
    let id = MachineID::new(1023, Timestamp::new(10, 0));
    assert_eq!(id.as_u16(), 1023);
    assert!(MachineID::new(0, Timestamp::new(10, 0)).as_u16() < 1024);
    assert_eq!(id.as_u64(), 1023u64);
    assert_eq!(id.lease_until(), Timestamp::new(10, 0));
}

#[test]
fn tick_extends_the_lease() {
    let mut id = MachineID::new(7, Timestamp::new(1_000, 0));
    assert!(matches!(id.step_at(HeartbeatEvent::Tick, Timestamp::new(0, 0)), HeartbeatAction::Extend(7)));
    let action = id.step_at(HeartbeatEvent::Extended(Ok(Timestamp::new(1_300, 0))), Timestamp::new(0, 0));
    assert!(matches!(action, HeartbeatAction::Wait));
    assert_eq!(id.lease_until(), Timestamp::new(1_300, 0));
}

#[test]
fn failed_extension_is_tolerated_while_time_is_left() {
    let mut id = MachineID::new(7, Timestamp::new(1_000, 0));
    let action = id.step_at(HeartbeatEvent::Extended(Err(Error::LeaseLost)), Timestamp::new(940, 0));
    assert!(matches!(action, HeartbeatAction::Wait));
    let action = id.step_at(HeartbeatEvent::Extended(Err(Error::LeaseLost)), Timestamp::new(940, 1));
    assert!(matches!(action, HeartbeatAction::Stop(Err(Error::LeaseLost))));
    assert_eq!(id.lease_until(), Timestamp::new(1_000, 0));
}

#[test]
fn cancellation_stops_the_heartbeat() {
    let mut id = MachineID::new(7, Timestamp::new(1_000, 0));
    assert!(matches!(id.step(HeartbeatEvent::Cancelled), HeartbeatAction::Stop(Ok(()))));
    let action = id.step(HeartbeatEvent::Extended(Err(Error::LeaseRenewalTimeout)));
    assert!(matches!(action, HeartbeatAction::Stop(Err(Error::LeaseRenewalTimeout))));
}
