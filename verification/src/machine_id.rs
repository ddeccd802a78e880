//! A machine id: a slot of the machine collection held by this process, and
//! the rules of its heartbeat. On every heartbeat the lease of the id is
//! extended; a failed extension is tolerated while the lease still has more
//! than a threshold left, and ends the heartbeat otherwise.
use vstd::prelude::*;
use crate::datastore::probe::SLOT_COUNT;
use crate::error::Error;
use crate::time::{is_clock_reading, utc_now, ClockReading, Timestamp};

verus! {

/// Seconds between two heartbeats.
pub const HEARTBEAT_INTERVAL_SECONDS: u64 = 60;

/// A failed extension ends the heartbeat once the lease has less than this
/// many seconds left.
pub const LEASE_EXPIRY_THRESHOLD_SECONDS: i64 = 60;

/// Whether, at `now`, a lease that runs until `lease_until` has less than
/// the threshold left.
pub open spec fn lease_about_to_expire(lease_until: Timestamp, now: Timestamp) -> bool {
    lease_until.as_nanos() - now.as_nanos() < LEASE_EXPIRY_THRESHOLD_SECONDS * 1_000_000_000
}

/// What happened while the id is held.
#[derive(Debug)]
pub enum HeartbeatEvent {
    /// The owner asked to stop.
    Cancelled,
    /// The heartbeat interval elapsed.
    Tick,
    /// An extension answered: the new expiry, or an error.
    Extended(Result<Timestamp, Error>),
}

/// What the holder of the id is to do next.
#[derive(Debug)]
pub enum HeartbeatAction {
    /// Stop, with this result.
    Stop(Result<(), Error>),
    /// Extend the lease of the given machine id.
    Extend(u16),
    /// Wait for the next event.
    Wait,
}

/// What the holder of machine id `id`, leased until `lease_until`, does on
/// `event` at time `now`.
pub open spec fn heartbeat_response(id: u16, lease_until: Timestamp, event: HeartbeatEvent, now: Timestamp) -> HeartbeatAction {
    match event {
        HeartbeatEvent::Cancelled => HeartbeatAction::Stop(Ok(())),
        HeartbeatEvent::Tick => HeartbeatAction::Extend(id),
        HeartbeatEvent::Extended(Ok(_)) => HeartbeatAction::Wait,
        HeartbeatEvent::Extended(Err(e)) => if lease_about_to_expire(lease_until, now) {
            HeartbeatAction::Stop(Err(e))
        } else {
            HeartbeatAction::Wait
        },
    }
}

/// A machine id held by this process.
pub struct MachineID {
    machine_id: u16,
    lease_until: Timestamp,
}

impl MachineID {
    #[verifier::type_invariant]
    spec fn inv(self) -> bool {
        self.machine_id < SLOT_COUNT
    }

    /// The id.
    pub closed spec fn id(&self) -> u16 {
        self.machine_id
    }

    /// When the lease of the id runs out.
    pub closed spec fn expiry(&self) -> Timestamp {
        self.lease_until
    }

    /// The id `machine_id`, leased until `lease_until`.
    pub fn new(machine_id: u16, lease_until: Timestamp) -> (id: Self)
        requires
            machine_id < SLOT_COUNT,
        ensures
            id.id() == machine_id,
            id.expiry() == lease_until,
    {
        MachineID { machine_id, lease_until }
    }

    pub fn as_u16(&self) -> (id: u16)
        ensures
            id == self.id(),
            id < SLOT_COUNT,
    {
        proof {
            use_type_invariant(self);
        }
        self.machine_id
    }

    pub fn as_u64(&self) -> (id: u64)
        ensures
            id == self.id(),
            id < SLOT_COUNT,
    {
        proof {
            use_type_invariant(self);
        }
        self.machine_id as u64
    }

    pub fn lease_until(&self) -> (lease_until: Timestamp)
        ensures
            lease_until == self.expiry(),
    {
        self.lease_until
    }

    /// Whether the lease has less than the threshold left at `now`.
    pub fn is_about_to_expire(&self, now: Timestamp) -> (expiring: bool)
        ensures
            expiring == lease_about_to_expire(self.expiry(), now),
    {
        let left: i128 = self.lease_until.to_nanos() - now.to_nanos();
        left < LEASE_EXPIRY_THRESHOLD_SECONDS as i128 * 1_000_000_000
    }

    /// Takes `event` at time `now`: extends on every tick, records every
    /// successful extension, and stops when cancelled or when an extension
    /// fails with less than the threshold left on the lease.
    pub fn step_at(&mut self, event: HeartbeatEvent, now: Timestamp) -> (action: HeartbeatAction)
        ensures
            action == heartbeat_response(old(self).id(), old(self).expiry(), event, now),
            final(self).id() == old(self).id(),
            final(self).expiry() == match event {
                HeartbeatEvent::Extended(Ok(lease_until)) => lease_until,
                _ => old(self).expiry(),
            },
    {
        match event {
            HeartbeatEvent::Cancelled => HeartbeatAction::Stop(Ok(())),
            HeartbeatEvent::Tick => HeartbeatAction::Extend(self.machine_id),
            HeartbeatEvent::Extended(Ok(lease_until)) => {
                proof {
                    use_type_invariant(&*self);
                }
                self.lease_until = lease_until;
                HeartbeatAction::Wait
            },
            HeartbeatEvent::Extended(Err(e)) => {
                if self.is_about_to_expire(now) {
                    HeartbeatAction::Stop(Err(e))
                } else {
                    HeartbeatAction::Wait
                }
            },
        }
    }

    /// Takes `event`, reading the clock where the decision needs the time: a
    /// failed extension is judged against the time that the clock reports
    /// during the call.
    pub fn step(&mut self, event: HeartbeatEvent) -> (action: HeartbeatAction)
        ensures
            event is Extended && event->Extended_0 is Err ==> exists|reading: ClockReading|
                is_clock_reading(reading.at()) && action == heartbeat_response(
                    old(self).id(),
                    old(self).expiry(),
                    event,
                    reading.at(),
                ),
            !(event is Extended && event->Extended_0 is Err) ==> forall|now: Timestamp|
                action == #[trigger] heartbeat_response(old(self).id(), old(self).expiry(), event, now),
            exists|now: Timestamp|
                is_clock_reading(now) && action == heartbeat_response(old(self).id(), old(self).expiry(), event, now),
            final(self).id() == old(self).id(),
            final(self).expiry() == match event {
                HeartbeatEvent::Extended(Ok(lease_until)) => lease_until,
                _ => old(self).expiry(),
            },
    {
        let ghost (id, expiry) = (self.id(), self.expiry());
        let timed = match &event {
            HeartbeatEvent::Extended(Err(_)) => true,
            _ => false,
        };
        if timed {
            let reading = utc_now();
            let now = reading.time();
            let action = self.step_at(event, now);
            assert(is_clock_reading(reading.at()) && action == heartbeat_response(id, expiry, event, reading.at()));
            assert(is_clock_reading(now) && action == heartbeat_response(id, expiry, event, now));
            action
        } else {
            let now = Timestamp::unix_epoch();
            let action = self.step_at(event, now);
            assert(is_clock_reading(now) && action == heartbeat_response(id, expiry, event, now));
            action
        }
    }
}

/// A failed extension never ends the heartbeat while the lease has at least
/// the threshold left, and always ends it once the lease has less.
pub proof fn lemma_heartbeat_tolerates_failures_until_threshold(
    id: u16,
    lease_until: Timestamp,
    e: Error,
    now: Timestamp,
)
    ensures
        heartbeat_response(id, lease_until, HeartbeatEvent::Extended(Err(e)), now) is Stop
            <==> lease_about_to_expire(lease_until, now),
{
}

/// A failed extension is tolerated exactly while the lease has at least the
/// threshold left at the time of the failure; otherwise the heartbeat stops
/// with that failure.
pub proof fn lemma_failed_extension_judged_by_time_left(
    id: u16,
    lease_until: Timestamp,
    error: Error,
    now: Timestamp,
)
    ensures
        lease_until.as_nanos() - now.as_nanos() >= LEASE_EXPIRY_THRESHOLD_SECONDS * 1_000_000_000
            ==> heartbeat_response(id, lease_until, HeartbeatEvent::Extended(Err(error)), now)
            == HeartbeatAction::Wait,
        lease_until.as_nanos() - now.as_nanos() < LEASE_EXPIRY_THRESHOLD_SECONDS * 1_000_000_000
            ==> heartbeat_response(id, lease_until, HeartbeatEvent::Extended(Err(error)), now)
            == HeartbeatAction::Stop(Err(error)),
{
}

} // verus!
