//! A held lease and the rules by which it is kept alive: it is renewed on a
//! fixed interval, and it is given up once its renewal deadline (its expiry
//! less a safety margin) has passed without a successful renewal, or as soon
//! as the store says that it is lost.
use vstd::prelude::*;
use crate::datastore::scan::random_below;
use crate::error::Error;
use crate::time::{is_clock_reading, utc_now, ClockReading, Timestamp};

verus! {

/// Seconds between two renewals.
pub const LEASE_RENEWAL_INTERVAL_SECONDS: u64 = 60;

/// Seconds that a renewal may take before it is given up.
pub const LEASE_RENEWAL_TIMEOUT_SECONDS: u64 = 10;

/// Seconds before its expiry at which a lease that was not renewed counts as lost.
pub const LEASE_RENEWAL_SAFETY_MARGIN_SECONDS: i64 = 60;

/// Bound (exclusive) on the seconds waited before the first renewal.
pub const INITIAL_JITTER_BOUND_SECONDS: u16 = 5;

/// Whether, at `now`, a lease that expires at `lasts_until` is past its
/// renewal deadline.
pub open spec fn renewal_deadline_passed(lasts_until: Timestamp, now: Timestamp) -> bool {
    now.as_nanos() >= lasts_until.as_nanos() - LEASE_RENEWAL_SAFETY_MARGIN_SECONDS * 1_000_000_000
}

/// What happened while a lease is being kept.
#[derive(Debug)]
pub enum MaintainEvent<R> {
    /// The owner asked to stop.
    Cancelled,
    /// The renewal interval elapsed.
    Tick,
    /// A renewal did not answer within the timeout.
    RenewalTimedOut,
    /// A renewal answered: the new expiry and revision, or an error.
    Renewed(Result<(Timestamp, R), Error>),
}

/// What the keeper of a lease is to do next.
#[derive(Debug)]
pub enum MaintainAction {
    /// Stop keeping the lease, with this result.
    Stop(Result<(), Error>),
    /// Renew the lease (under its current revision), with the timeout.
    Renew,
    /// Wait for the next event.
    Wait,
}

/// What the keeper of a lease that expires at `lasts_until` does on `event`
/// at time `now`.
pub open spec fn maintain_response<R>(lasts_until: Timestamp, event: MaintainEvent<R>, now: Timestamp) -> MaintainAction {
    match event {
        MaintainEvent::Cancelled => MaintainAction::Stop(Ok(())),
        MaintainEvent::Tick => if renewal_deadline_passed(lasts_until, now) {
            MaintainAction::Stop(Err(Error::LeaseLost))
        } else {
            MaintainAction::Renew
        },
        MaintainEvent::RenewalTimedOut => if renewal_deadline_passed(lasts_until, now) {
            MaintainAction::Stop(Err(Error::LeaseRenewalTimeout))
        } else {
            MaintainAction::Wait
        },
        MaintainEvent::Renewed(Ok(_)) => MaintainAction::Wait,
        MaintainEvent::Renewed(Err(e)) => if e is LeaseLost || renewal_deadline_passed(lasts_until, now) {
            MaintainAction::Stop(Err(e))
        } else {
            MaintainAction::Wait
        },
    }
}

/// Whether the keeper's answer to `event` depends on the time.
pub open spec fn depends_on_time<R>(event: MaintainEvent<R>) -> bool {
    match event {
        MaintainEvent::Cancelled => false,
        MaintainEvent::Renewed(Ok(_)) => false,
        _ => true,
    }
}

/// A slot held until `lasts_until` under revision `revision`.
pub struct Lease<R> {
    id: u16,
    lasts_until: Timestamp,
    revision: R,
}

/// Returns a random whole number of seconds below `INITIAL_JITTER_BOUND_SECONDS`,
/// to spread the first renewals of leases taken at the same time.
pub fn initial_jitter_seconds() -> (seconds: u64)
    ensures
        seconds < INITIAL_JITTER_BOUND_SECONDS,
{
    random_below(INITIAL_JITTER_BOUND_SECONDS) as u64
}

impl<R> Lease<R> {
    /// The slot that the lease holds.
    pub closed spec fn slot(&self) -> u16 {
        self.id
    }

    /// When the lease runs out.
    pub closed spec fn expiry(&self) -> Timestamp {
        self.lasts_until
    }

    /// The revision of the lease's record, which guards renewals and revocation.
    pub closed spec fn current_revision(&self) -> R {
        self.revision
    }

    /// The lease on slot `id` that a store handed out.
    pub fn new(id: u16, lasts_until: Timestamp, revision: R) -> (lease: Self)
        ensures
            lease.slot() == id,
            lease.expiry() == lasts_until,
            lease.current_revision() == revision,
    {
        Lease { id, lasts_until, revision }
    }

    /// The slot that the lease holds.
    pub fn id(&self) -> (id: u16)
        ensures
            id == self.slot(),
    {
        self.id
    }

    pub fn lasts_until(&self) -> (lasts_until: Timestamp)
        ensures
            lasts_until == self.expiry(),
    {
        self.lasts_until
    }

    pub fn revision(&self) -> (revision: &R)
        ensures
            *revision == self.current_revision(),
    {
        &self.revision
    }

    /// The slot and revision, which revoking the lease needs.
    pub fn into_parts(self) -> (parts: (u16, R))
        ensures
            parts == (self.slot(), self.current_revision()),
    {
        (self.id, self.revision)
    }

    /// Whether the lease is past its renewal deadline at `now`.
    pub fn is_past_renewal_deadline(&self, now: Timestamp) -> (passed: bool)
        ensures
            passed == renewal_deadline_passed(self.expiry(), now),
    {
        let left: i128 = self.lasts_until.to_nanos() - now.to_nanos();
        left <= LEASE_RENEWAL_SAFETY_MARGIN_SECONDS as i128 * 1_000_000_000
    }

    /// Takes `event` at time `now`: renews on every tick while the renewal
    /// deadline lies ahead, records every successful renewal, and stops when
    /// cancelled, when the lease is lost, or when the deadline has passed.
    pub fn step_at(&mut self, event: MaintainEvent<R>, now: Timestamp) -> (action: MaintainAction)
        ensures
            action == maintain_response(old(self).expiry(), event, now),
            final(self).slot() == old(self).slot(),
            match event {
                MaintainEvent::Renewed(Ok((lasts_until, revision))) => {
                    &&& final(self).expiry() == lasts_until
                    &&& final(self).current_revision() == revision
                },
                _ => *final(self) == *old(self),
            },
    {
        match event {
            MaintainEvent::Cancelled => MaintainAction::Stop(Ok(())),
            MaintainEvent::Tick => {
                if self.is_past_renewal_deadline(now) {
                    MaintainAction::Stop(Err(Error::LeaseLost))
                } else {
                    MaintainAction::Renew
                }
            },
            MaintainEvent::RenewalTimedOut => {
                if self.is_past_renewal_deadline(now) {
                    MaintainAction::Stop(Err(Error::LeaseRenewalTimeout))
                } else {
                    MaintainAction::Wait
                }
            },
            MaintainEvent::Renewed(Ok((lasts_until, revision))) => {
                self.lasts_until = lasts_until;
                self.revision = revision;
                MaintainAction::Wait
            },
            MaintainEvent::Renewed(Err(e)) => {
                if e.is_lease_lost_error() {
                    MaintainAction::Stop(Err(e))
                } else if self.is_past_renewal_deadline(now) {
                    MaintainAction::Stop(Err(e))
                } else {
                    MaintainAction::Wait
                }
            },
        }
    }

    /// Takes `event`, reading the clock where the decision needs the time:
    /// a tick, a timeout or a failed renewal is judged against the time that
    /// the clock reports during the call.
    pub fn step(&mut self, event: MaintainEvent<R>) -> (action: MaintainAction)
        ensures
            depends_on_time(event) ==> exists|reading: ClockReading|
                is_clock_reading(reading.at()) && action == maintain_response(
                    old(self).expiry(),
                    event,
                    reading.at(),
                ),
            !depends_on_time(event) ==> forall|now: Timestamp|
                action == #[trigger] maintain_response(old(self).expiry(), event, now),
            exists|now: Timestamp|
                is_clock_reading(now) && action == maintain_response(old(self).expiry(), event, now),
            final(self).slot() == old(self).slot(),
            match event {
                MaintainEvent::Renewed(Ok((lasts_until, revision))) => {
                    &&& final(self).expiry() == lasts_until
                    &&& final(self).current_revision() == revision
                },
                _ => *final(self) == *old(self),
            },
    {
        let ghost expiry = self.expiry();
        let timed = match &event {
            MaintainEvent::Cancelled => false,
            MaintainEvent::Renewed(Ok(_)) => false,
            _ => true,
        };
        if timed {
            let reading = utc_now();
            let now = reading.time();
            let action = self.step_at(event, now);
            assert(is_clock_reading(reading.at()) && action == maintain_response(expiry, event, reading.at()));
            assert(is_clock_reading(now) && action == maintain_response(expiry, event, now));
            action
        } else {
            let now = Timestamp::unix_epoch();
            let action = self.step_at(event, now);
            assert(is_clock_reading(now) && action == maintain_response(expiry, event, now));
            action
        }
    }
}

/// A lease is never kept past its renewal deadline: at a tick past the
/// deadline, the keeper stops and reports the lease lost, and after a
/// timeout or a failed renewal past the deadline it stops with an error.
pub proof fn lemma_lease_not_kept_past_deadline<R>(lasts_until: Timestamp, event: MaintainEvent<R>, now: Timestamp)
    requires
        renewal_deadline_passed(lasts_until, now),
        !(event is Renewed && event->Renewed_0 is Ok),
    ensures
        maintain_response(lasts_until, event, now) is Stop,
        event is Tick ==> maintain_response(lasts_until, event, now) == MaintainAction::Stop(Err(Error::LeaseLost)),
{
}

/// Before its renewal deadline a lease is only given up when its owner
/// cancels or the store says that the lease is lost; cancellation stops
/// without an error.
pub proof fn lemma_lease_kept_before_deadline<R>(lasts_until: Timestamp, event: MaintainEvent<R>, now: Timestamp)
    requires
        !renewal_deadline_passed(lasts_until, now),
    ensures
        maintain_response(lasts_until, event, now) matches MaintainAction::Stop(result) ==> (
            event is Cancelled && result is Ok) || (event matches MaintainEvent::Renewed(Err(e))
            && e is LeaseLost),
{
}

/// At a tick, a lease is renewed exactly while more than the safety margin
/// of it is left at the time of the tick, and otherwise reported lost.
pub proof fn lemma_tick_renews_while_margin_left<R>(lasts_until: Timestamp, now: Timestamp)
    ensures
        lasts_until.as_nanos() - now.as_nanos() > LEASE_RENEWAL_SAFETY_MARGIN_SECONDS * 1_000_000_000
            ==> maintain_response(lasts_until, MaintainEvent::<R>::Tick, now) == MaintainAction::Renew,
        lasts_until.as_nanos() - now.as_nanos() <= LEASE_RENEWAL_SAFETY_MARGIN_SECONDS
            * 1_000_000_000 ==> maintain_response(lasts_until, MaintainEvent::<R>::Tick, now)
            == MaintainAction::Stop(Err(Error::LeaseLost)),
{
}

/// A renewal that timed out or failed (for any reason but a lost lease) is
/// tolerated exactly while more than the safety margin of the lease is left
/// at that time.
pub proof fn lemma_failed_renewal_tolerated_while_margin_left<R>(
    lasts_until: Timestamp,
    now: Timestamp,
    error: Error,
)
    requires
        !(error is LeaseLost),
    ensures
        (maintain_response(lasts_until, MaintainEvent::<R>::RenewalTimedOut, now) is Wait)
            <==> lasts_until.as_nanos() - now.as_nanos() > LEASE_RENEWAL_SAFETY_MARGIN_SECONDS
            * 1_000_000_000,
        (maintain_response(lasts_until, MaintainEvent::<R>::Renewed(Err(error)), now) is Wait)
            <==> lasts_until.as_nanos() - now.as_nanos() > LEASE_RENEWAL_SAFETY_MARGIN_SECONDS
            * 1_000_000_000,
{
}

} // verus!
