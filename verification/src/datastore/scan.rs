//! Finding a free slot. A scan starts at a random slot and steps through the
//! slots with a random odd increment. For each slot it reads the slot's
//! document: a document whose lease has not run out is passed over; an
//! expired one is overwritten under the condition that nobody changed it
//! since it was read; a missing one is created (or, for machine ids, reported
//! as an error). A write that loses a race passes on to the next slot. After
//! every slot was passed over the scan gives up.
//!
//! The scan is a state machine: the caller performs each action (a read or a
//! write) and hands back what came of it as the next event.
use vstd::prelude::*;
use ::firestore::errors::FirestoreError;
use crate::datastore::probe::{
    SLOT_COUNT, is_scan_increment, lemma_probe_sequence_is_permutation, lemma_probe_slot_in_range,
    lemma_probe_slot_next, next_slot, probe_slot, probed_within,
};
use crate::datastore::store::{
    Firestore, LEASE_DURATION_SECONDS, is_already_exists, is_failed_precondition, lease_expiry,
    revision_of, from_timestamp_error, timestamp_in_range,
};
use crate::error::Error;
use crate::time::{is_clock_reading, utc_now, ClockReading, Timestamp};

verus! {

/// What a scan does with a slot that has no document.
#[derive(Clone, Copy, Debug, PartialEq, Eq, Structural)]
pub enum MissingRecord {
    /// Create the document and so take the slot (lease slots).
    Create,
    /// Report the slot as missing (machine ids, whose records are seeded).
    Fail,
}

/// What reading a slot's document found.
#[derive(Clone, Copy, Debug, PartialEq, Eq, Structural)]
pub enum SlotRecord {
    /// The slot has no document.
    Missing,
    /// The slot's document, with the expiry of its lease and its update time.
    Present { lease_until: Timestamp, update_time: Option<Timestamp> },
}

/// What came of the last action.
#[derive(Debug)]
pub enum ScanEvent {
    /// The read of the current slot's document.
    Read(Result<SlotRecord, FirestoreError>),
    /// The write of the current slot's document; on success, the update time
    /// of the written document.
    Written(Result<Option<Timestamp>, FirestoreError>),
}

/// What the caller is to do next.
#[derive(Debug)]
pub enum ScanAction {
    /// Read the document of `slot`.
    Read { slot: u16 },
    /// Create the document of `slot` with the given expiry; it must not exist.
    Insert { slot: u16, lease_until: Timestamp },
    /// Overwrite the expiry of `slot`'s document, provided its update time is
    /// still `precondition`.
    Update { slot: u16, lease_until: Timestamp, precondition: Timestamp },
    /// The scan took `slot` until `lease_until`; `revision` is the update
    /// time of the written document.
    Acquired { slot: u16, lease_until: Timestamp, revision: Timestamp },
    /// The scan ended without a slot.
    Failed(Error),
}

/// Where a scan stands.
#[derive(Clone, Copy, Debug, PartialEq, Eq, Structural)]
pub enum ScanPhase {
    /// Waiting for the read of the current slot.
    Reading,
    /// Waiting for the creation of the current slot's document.
    Inserting { lease_until: Timestamp },
    /// Waiting for the overwrite of the current slot's document.
    Updating { lease_until: Timestamp },
    /// The scan has ended.
    Finished,
}

/// The value of a [`SlotScan`].
pub ghost struct ScanView {
    /// The slot tried first.
    pub first: int,
    /// How many slots each step moves on.
    pub increment: int,
    /// How many slots were passed over so far.
    pub scanned: int,
    pub policy: MissingRecord,
    pub phase: ScanPhase,
}

/// Every slot that `action` names is a slot.
pub open spec fn names_slots_only(action: ScanAction) -> bool {
    match action {
        ScanAction::Read { slot } => slot < SLOT_COUNT,
        ScanAction::Insert { slot, .. } => slot < SLOT_COUNT,
        ScanAction::Update { slot, .. } => slot < SLOT_COUNT,
        ScanAction::Acquired { slot, .. } => slot < SLOT_COUNT,
        ScanAction::Failed(_) => true,
    }
}

/// Bound (exclusive) on the slot at which a scan with `policy` starts.
pub open spec fn first_slot_bound(policy: MissingRecord) -> int {
    match policy {
        MissingRecord::Create => SLOT_COUNT as int,
        MissingRecord::Fail => SLOT_COUNT - 1,
    }
}

/// The error with which a scan gives up after passing over every slot.
pub open spec fn exhausted_error(policy: MissingRecord) -> Error {
    match policy {
        MissingRecord::Create => Error::LeaseSlotsExhausted,
        MissingRecord::Fail => Error::MachineIDsExhausted,
    }
}

impl ScanView {
    pub open spec fn wf(self) -> bool {
        &&& 0 <= self.first < SLOT_COUNT as int
        &&& is_scan_increment(self.increment)
        &&& 0 <= self.scanned <= SLOT_COUNT as int
        &&& !(self.phase is Finished) ==> self.scanned < SLOT_COUNT as int
    }

    /// The slot that the scan is at.
    pub open spec fn current_slot(self) -> int {
        probe_slot(self.first, self.increment, self.scanned)
    }

    /// Whether `slot` was passed over.
    pub open spec fn passed_over(self, slot: int) -> bool {
        probed_within(self.first, self.increment, self.scanned, slot)
    }

    /// Whether the scan can take `event` (read at time `now`): a read answers
    /// a read and a write a write; the document of an expired lease and a
    /// written document come with their update times.
    pub open spec fn accepts(self, event: ScanEvent, now: Timestamp) -> bool {
        match event {
            ScanEvent::Read(read) => {
                &&& self.phase is Reading
                &&& match read {
                    Ok(SlotRecord::Present { lease_until, update_time }) => lease_until.as_nanos()
                        < now.as_nanos() ==> update_time is Some,
                    _ => true,
                }
            },
            ScanEvent::Written(written) => {
                &&& (self.phase is Inserting || self.phase is Updating)
                &&& match written {
                    Ok(update_time) => update_time is Some,
                    _ => true,
                }
            },
        }
    }

    /// Whether the scan can take `event` whatever the time.
    pub open spec fn accepts_at_any_time(self, event: ScanEvent) -> bool {
        match event {
            ScanEvent::Read(read) => {
                &&& self.phase is Reading
                &&& match read {
                    Ok(SlotRecord::Present { update_time, .. }) => update_time is Some,
                    _ => true,
                }
            },
            ScanEvent::Written(written) => {
                &&& (self.phase is Inserting || self.phase is Updating)
                &&& match written {
                    Ok(update_time) => update_time is Some,
                    _ => true,
                }
            },
        }
    }

    /// The scan with the current slot passed over, and what it asks next:
    /// the read of the next slot, or, after the last slot, the end.
    pub open spec fn pass_over(self) -> (ScanView, ScanAction) {
        let scanned = self.scanned + 1;
        if scanned >= SLOT_COUNT as int {
            (
                ScanView { scanned, phase: ScanPhase::Finished, ..self },
                ScanAction::Failed(exhausted_error(self.policy)),
            )
        } else {
            (
                ScanView { scanned, phase: ScanPhase::Reading, ..self },
                ScanAction::Read { slot: probe_slot(self.first, self.increment, scanned) as u16 },
            )
        }
    }

    /// Whether `(post, action)` is what the scan does on `event`, with the
    /// clock reading `lease_start` when it computes the new expiry and `now`
    /// when it checks a stored one. Where the update time of a document is
    /// out of the range of Firestore's timestamps, the scan ends with the
    /// conversion's error.
    pub open spec fn next(
        self,
        event: ScanEvent,
        lease_start: Timestamp,
        now: Timestamp,
        post: ScanView,
        action: ScanAction,
    ) -> bool {
        let slot = self.current_slot() as u16;
        let lease_until = lease_expiry(lease_start);
        let end = ScanView { phase: ScanPhase::Finished, ..self };
        match event {
            ScanEvent::Read(Err(e)) => post == end && action == ScanAction::Failed(Error::Firestore(e)),
            ScanEvent::Read(Ok(SlotRecord::Missing)) => match self.policy {
                MissingRecord::Create => {
                    &&& post == ScanView { phase: ScanPhase::Inserting { lease_until }, ..self }
                    &&& action == ScanAction::Insert { slot, lease_until }
                },
                MissingRecord::Fail => {
                    &&& post == end
                    &&& action == ScanAction::Failed(Error::MissedMachineIDRecord(slot))
                },
            },
            ScanEvent::Read(Ok(SlotRecord::Present { lease_until: held_until, update_time })) => {
                if held_until.as_nanos() >= now.as_nanos() {
                    (post, action) == self.pass_over()
                } else {
                    match revision_of(update_time.unwrap()) {
                        Some(precondition) => {
                            &&& post == ScanView { phase: ScanPhase::Updating { lease_until }, ..self }
                            &&& action == ScanAction::Update { slot, lease_until, precondition }
                        },
                        None => post == end && action == ScanAction::Failed(
                            Error::Firestore(from_timestamp_error(update_time.unwrap().seconds, update_time.unwrap().nanos)),
                        ),
                    }
                }
            },
            ScanEvent::Written(Ok(update_time)) => {
                let written_until = match self.phase {
                    ScanPhase::Inserting { lease_until } => lease_until,
                    ScanPhase::Updating { lease_until } => lease_until,
                    _ => lease_until,
                };
                match revision_of(update_time.unwrap()) {
                    Some(revision) => {
                        &&& post == end
                        &&& action == ScanAction::Acquired { slot, lease_until: written_until, revision }
                    },
                    None => post == end && action == ScanAction::Failed(
                        Error::Firestore(from_timestamp_error(update_time.unwrap().seconds, update_time.unwrap().nanos)),
                    ),
                }
            },
            ScanEvent::Written(Err(e)) => {
                if (self.phase is Updating && is_failed_precondition(e)) || (self.phase is Inserting
                    && is_already_exists(e)) {
                    (post, action) == self.pass_over()
                } else {
                    post == end && action == ScanAction::Failed(Error::Firestore(e))
                }
            },
        }
    }
}

/// A scan for a free slot.
pub struct SlotScan {
    first: u16,
    increment: u16,
    slot: u16,
    scanned: u16,
    policy: MissingRecord,
    phase: ScanPhase,
}

impl View for SlotScan {
    type V = ScanView;

    closed spec fn view(&self) -> ScanView {
        ScanView {
            first: self.first as int,
            increment: self.increment as int,
            scanned: self.scanned as int,
            policy: self.policy,
            phase: self.phase,
        }
    }
}

/// Returns `rand::random_range(0..upper)`: a value drawn at random below
/// `upper`. Nothing ties the value to anything else.
#[verifier::external_body]
pub(crate) fn random_below(upper: u16) -> (value: u16)
    requires
        upper > 0,
    ensures
        value < upper,
{
    rand::random_range(0..upper)
}

impl SlotScan {
    #[verifier::type_invariant]
    spec fn inv(self) -> bool {
        &&& self@.wf()
        &&& self.slot as int == self@.current_slot()
    }

    /// A scan that starts at slot `first` and moves `2 * half_step + 1`
    /// slots at a time, with the read of `first` as its first action.
    pub fn start_at(policy: MissingRecord, first: u16, half_step: u16) -> (res: (SlotScan, ScanAction))
        requires
            first < SLOT_COUNT,
            half_step < SLOT_COUNT / 2,
        ensures
            res.0@ == (ScanView {
                first: first as int,
                increment: 2 * half_step + 1,
                scanned: 0,
                policy,
                phase: ScanPhase::Reading,
            }),
            res.0@.wf(),
            res.1 == (ScanAction::Read { slot: first }),
    {
        let increment = half_step * 2 + 1;
        assert(probe_slot(first as int, increment as int, 0) == first) by {
            assert(0 * increment == 0);
        }
        let scan = SlotScan { first, increment, slot: first, scanned: 0, policy, phase: ScanPhase::Reading };
        (scan, ScanAction::Read { slot: first })
    }

    /// A scan that starts at a random slot and moves a random odd number of
    /// slots at a time. A scan for a lease slot may start at any slot; a scan
    /// for a machine id starts below the last id, which it reaches only by
    /// stepping on from an id that is taken.
    pub fn start(policy: MissingRecord) -> (res: (SlotScan, ScanAction))
        ensures
            res.0@.wf(),
            res.0@.scanned == 0,
            res.0@.policy == policy,
            res.0@.phase == ScanPhase::Reading,
            res.0@.first < first_slot_bound(policy),
            res.1 == (ScanAction::Read { slot: res.0@.first as u16 }),
    {
        let bound = match policy {
            MissingRecord::Create => SLOT_COUNT,
            MissingRecord::Fail => SLOT_COUNT - 1,
        };
        let first = random_below(bound);
        let half_step = random_below(SLOT_COUNT / 2);
        Self::start_at(policy, first, half_step)
    }

    /// The state with the current slot passed over.
    fn pass_over(&mut self) -> (action: ScanAction)
        requires
            old(self)@.wf(),
            !(old(self)@.phase is Finished),
        ensures
            (final(self)@, action) == old(self)@.pass_over(),
    {
        proof {
            use_type_invariant(&*self);
            lemma_probe_slot_next(self.first as int, self.increment as int, self.scanned as int);
        }
        let scanned = self.scanned + 1;
        let slot = next_slot(self.slot, self.increment);
        if scanned >= SLOT_COUNT {
            *self = SlotScan { slot, scanned, phase: ScanPhase::Finished, ..*self };
            match self.policy {
                MissingRecord::Create => ScanAction::Failed(Error::LeaseSlotsExhausted),
                MissingRecord::Fail => ScanAction::Failed(Error::MachineIDsExhausted),
            }
        } else {
            *self = SlotScan { slot, scanned, phase: ScanPhase::Reading, ..*self };
            ScanAction::Read { slot }
        }
    }

    fn finish(&mut self)
        ensures
            final(self)@ == (ScanView { phase: ScanPhase::Finished, ..old(self)@ }),
    {
        proof {
            use_type_invariant(&*self);
        }
        *self = SlotScan { phase: ScanPhase::Finished, ..*self };
    }

    /// Takes `event`, with the clock reading `lease_start` when the new
    /// expiry is computed and `now` when a stored one is checked.
    pub fn step_at(&mut self, event: ScanEvent, lease_start: Timestamp, now: Timestamp) -> (action: ScanAction)
        requires
            old(self)@.accepts(event, now),
            lease_start.seconds <= i64::MAX - LEASE_DURATION_SECONDS,
        ensures
            old(self)@.next(event, lease_start, now, final(self)@, action),
            final(self)@.wf(),
            names_slots_only(action),
    {
        proof {
            use_type_invariant(&*self);
            lemma_probe_slot_in_range(self.first as int, self.increment as int, self.scanned as int);
        }
        let slot = self.slot;
        match event {
            ScanEvent::Read(Err(e)) => {
                self.finish();
                ScanAction::Failed(Error::Firestore(e))
            },
            ScanEvent::Read(Ok(SlotRecord::Missing)) => {
                match self.policy {
                    MissingRecord::Create => {
                        let lease_until = Firestore::lease_until_from(lease_start);
                        *self = SlotScan { phase: ScanPhase::Inserting { lease_until }, ..*self };
                        ScanAction::Insert { slot, lease_until }
                    },
                    MissingRecord::Fail => {
                        self.finish();
                        ScanAction::Failed(Error::MissedMachineIDRecord(slot))
                    },
                }
            },
            ScanEvent::Read(Ok(SlotRecord::Present { lease_until: held_until, update_time })) => {
                let lease_until = Firestore::lease_until_from(lease_start);
                if held_until.is_at_or_after(&now) {
                    self.pass_over()
                } else {
                    match Firestore::revision(update_time) {
                        Ok(precondition) => {
                            *self = SlotScan { phase: ScanPhase::Updating { lease_until }, ..*self };
                            ScanAction::Update { slot, lease_until, precondition }
                        },
                        Err(e) => {
                            self.finish();
                            ScanAction::Failed(e)
                        },
                    }
                }
            },
            ScanEvent::Written(Ok(update_time)) => {
                let written_until = match self.phase {
                    ScanPhase::Inserting { lease_until } => lease_until,
                    ScanPhase::Updating { lease_until } => lease_until,
                    _ => lease_start,
                };
                self.finish();
                match Firestore::revision(update_time) {
                    Ok(revision) => ScanAction::Acquired { slot, lease_until: written_until, revision },
                    Err(e) => ScanAction::Failed(e),
                }
            },
            ScanEvent::Written(Err(e)) => {
                let refused = match self.phase {
                    ScanPhase::Updating { .. } => Firestore::is_failed_precondition_error(&e),
                    ScanPhase::Inserting { .. } => Firestore::is_already_exists_error(&e),
                    _ => false,
                };
                if refused {
                    self.pass_over()
                } else {
                    self.finish();
                    ScanAction::Failed(Error::Firestore(e))
                }
            },
        }
    }

    /// Takes `event`, reading the clock where the scan needs the time: the
    /// new expiry is computed from one reading of the clock and a stored
    /// expiry is checked against a reading taken during the call.
    pub fn step(&mut self, event: ScanEvent) -> (action: ScanAction)
        requires
            old(self)@.accepts_at_any_time(event),
        ensures
            exists|start: ClockReading, reading: ClockReading|
                is_clock_reading(start.at()) && is_clock_reading(reading.at()) && old(self)@.next(
                    event,
                    start.at(),
                    reading.at(),
                    final(self)@,
                    action,
                ),
            exists|lease_start: Timestamp, now: Timestamp|
                is_clock_reading(lease_start) && is_clock_reading(now) && old(self)@.next(
                    event,
                    lease_start,
                    now,
                    final(self)@,
                    action,
                ),
            final(self)@.wf(),
            names_slots_only(action),
    {
        let start = utc_now();
        let lease_start = start.time();
        let present = match &event {
            ScanEvent::Read(Ok(SlotRecord::Present { .. })) => true,
            _ => false,
        };
        let ghost pre = self@;
        if present {
            let reading = utc_now();
            let now = reading.time();
            let action = self.step_at(event, lease_start, now);
            assert(is_clock_reading(start.at()) && is_clock_reading(reading.at()) && pre.next(
                event,
                start.at(),
                reading.at(),
                self@,
                action,
            ));
            assert(is_clock_reading(lease_start) && is_clock_reading(now) && pre.next(
                event,
                lease_start,
                now,
                self@,
                action,
            ));
            action
        } else {
            let action = self.step_at(event, lease_start, lease_start);
            assert(is_clock_reading(start.at()) && is_clock_reading(start.at()) && pre.next(
                event,
                start.at(),
                start.at(),
                self@,
                action,
            ));
            assert(is_clock_reading(lease_start) && is_clock_reading(lease_start) && pre.next(
                event,
                lease_start,
                lease_start,
                self@,
                action,
            ));
            action
        }
    }
}

/// A scan that passed over `SLOT_COUNT` slots passed over every slot: the
/// scan gives up only after it found each slot taken.
pub proof fn lemma_exhausted_scan_passed_over_every_slot(scan: ScanView)
    requires
        scan.wf(),
        scan.scanned == SLOT_COUNT as int,
    ensures
        forall|slot: int| 0 <= slot < SLOT_COUNT as int ==> #[trigger] scan.passed_over(slot),
{
    lemma_probe_sequence_is_permutation(scan.first, scan.increment);
}

/// A scan passes over each slot at most once: the slots passed over so far
/// are all different.
pub proof fn lemma_scan_never_repeats_a_slot(scan: ScanView, i: int, j: int)
    requires
        scan.wf(),
        0 <= i < j < scan.scanned,
    ensures
        probe_slot(scan.first, scan.increment, i) != probe_slot(scan.first, scan.increment, j),
{
    crate::datastore::probe::lemma_probe_steps_distinct(scan.first, scan.increment, i, j);
}

/// A scan gives up only once it has passed over every slot, and only the
/// error of exhaustion says so.
pub proof fn lemma_scan_gives_up_only_when_exhausted(
    scan: ScanView,
    event: ScanEvent,
    lease_start: Timestamp,
    now: Timestamp,
    post: ScanView,
    action: ScanAction,
)
    requires
        scan.wf(),
        scan.accepts(event, now),
        scan.next(event, lease_start, now, post, action),
        (action matches ScanAction::Failed(e) && (e is LeaseSlotsExhausted || e is MachineIDsExhausted)),
    ensures
        post.scanned == SLOT_COUNT as int,
        forall|slot: int| 0 <= slot < SLOT_COUNT as int ==> #[trigger] post.passed_over(slot),
{
    lemma_exhausted_scan_passed_over_every_slot(post);
}

/// A scan never writes a slot whose lease had not run out when it was read.
pub proof fn lemma_scan_never_overwrites_a_live_lease(
    scan: ScanView,
    lease_until: Timestamp,
    update_time: Option<Timestamp>,
    lease_start: Timestamp,
    now: Timestamp,
    post: ScanView,
    action: ScanAction,
)
    requires
        scan.wf(),
        lease_until.as_nanos() >= now.as_nanos(),
        scan.next(
            ScanEvent::Read(Ok(SlotRecord::Present { lease_until, update_time })),
            lease_start,
            now,
            post,
            action,
        ),
    ensures
        !(action is Insert),
        !(action is Update),
        post.scanned == scan.scanned + 1,
{
}

/// A revoked lease frees its slot: a scan that reads a document whose expiry
/// is the one that revocation writes (the Unix epoch), at any later time,
/// overwrites it rather than passing over it.
pub proof fn lemma_revoked_slot_is_claimable(
    scan: ScanView,
    update_time: Timestamp,
    lease_start: Timestamp,
    now: Timestamp,
    post: ScanView,
    action: ScanAction,
)
    requires
        scan.wf(),
        now.as_nanos() > 0,
        revision_of(update_time) is Some,
        scan.next(
            ScanEvent::Read(
                Ok(SlotRecord::Present { lease_until: Timestamp::unix_epoch_spec(), update_time: Some(update_time) }),
            ),
            lease_start,
            now,
            post,
            action,
        ),
    ensures
        action matches ScanAction::Update { slot, precondition, .. } && slot == scan.current_slot()
            && Some(precondition) == revision_of(update_time),
        post.scanned == scan.scanned,
{
}

/// A scan that takes the first slot it reads hands out that slot; so a
/// machine-id scan, which starts below the last id, hands out an id below
/// the last one whenever the first id it reads is free.
pub proof fn lemma_first_slot_taken_is_the_start(
    scan: ScanView,
    event: ScanEvent,
    lease_start: Timestamp,
    now: Timestamp,
    post: ScanView,
    action: ScanAction,
)
    requires
        scan.wf(),
        scan.scanned == 0,
        scan.first < first_slot_bound(scan.policy),
        scan.accepts(event, now),
        scan.next(event, lease_start, now, post, action),
    ensures
        (match action {
            ScanAction::Insert { slot, .. } => slot == scan.first,
            ScanAction::Update { slot, .. } => slot == scan.first,
            ScanAction::Acquired { slot, .. } => slot == scan.first,
            _ => true,
        }),
        scan.policy is Fail ==> (match action {
            ScanAction::Update { slot, .. } => slot < SLOT_COUNT - 1,
            ScanAction::Acquired { slot, .. } => slot < SLOT_COUNT - 1,
            _ => true,
        }),
{
    assert(probe_slot(scan.first, scan.increment, 0) == scan.first) by {
        assert(0 * scan.increment == 0);
        vstd::arithmetic::div_mod::lemma_small_mod(scan.first as nat, SLOT_COUNT as nat);
    }
}

/// The scan after passing over its first `steps` slots, waiting for the
/// read of the next one.
pub open spec fn after_passing_over(scan: ScanView, steps: int) -> ScanView {
    ScanView { scanned: steps, phase: ScanPhase::Reading, ..scan }
}

/// Whether `record` holds a lease that has not run out at `now`.
pub open spec fn is_live(record: SlotRecord, now: Timestamp) -> bool {
    match record {
        SlotRecord::Present { lease_until, update_time } => lease_until.as_nanos() >= now.as_nanos()
            && update_time is Some,
        SlotRecord::Missing => false,
    }
}

/// Revoking a lease gives its slot to the next taker: when slot `id` holds
/// the record that revocation writes (an expiry at the Unix epoch) and every
/// other slot holds a live lease at each time the scan reads the clock, a
/// fresh scan passes over the other slots it meets, one read after another,
/// until it reaches `id`, which it does within `SLOT_COUNT` reads, and then
/// overwrites `id` under the record's revision with a new lease. `records`
/// gives what each slot holds; the scan reads the clock at `starts(j)` and
/// `nows(j)` at its `j`-th read.
pub proof fn lemma_scan_takes_revoked_slot(
    scan: ScanView,
    id: int,
    update_time: Timestamp,
    records: spec_fn(int) -> SlotRecord,
    starts: spec_fn(int) -> Timestamp,
    nows: spec_fn(int) -> Timestamp,
)
    requires
        scan.wf(),
        scan.scanned == 0,
        scan.phase is Reading,
        0 <= id < SLOT_COUNT as int,
        records(id) == (SlotRecord::Present {
            lease_until: Timestamp::unix_epoch_spec(),
            update_time: Some(update_time),
        }),
        revision_of(update_time) is Some,
        forall|j: int| 0 <= j < SLOT_COUNT as int ==> #[trigger] nows(j).as_nanos() > 0,
        forall|j: int, s: int|
            0 <= j < SLOT_COUNT as int && 0 <= s < SLOT_COUNT as int && s != id ==> is_live(
                #[trigger] records(s),
                #[trigger] nows(j),
            ),
    ensures
        exists|k: int|
            {
                &&& 0 <= k < SLOT_COUNT as int
                &&& probe_slot(scan.first, scan.increment, k) == id
                &&& forall|j: int|
                    0 <= j < k ==> #[trigger] after_passing_over(scan, j).next(
                        ScanEvent::Read(Ok(records(probe_slot(scan.first, scan.increment, j)))),
                        starts(j),
                        nows(j),
                        after_passing_over(scan, j + 1),
                        ScanAction::Read { slot: probe_slot(scan.first, scan.increment, j + 1) as u16 },
                    )
                &&& after_passing_over(scan, k).next(
                    ScanEvent::Read(Ok(records(id))),
                    starts(k),
                    nows(k),
                    ScanView {
                        phase: ScanPhase::Updating { lease_until: lease_expiry(starts(k)) },
                        ..after_passing_over(scan, k)
                    },
                    ScanAction::Update {
                        slot: id as u16,
                        lease_until: lease_expiry(starts(k)),
                        precondition: revision_of(update_time).unwrap(),
                    },
                )
            },
{
    let m = SLOT_COUNT as int;
    lemma_probe_sequence_is_permutation(scan.first, scan.increment);
    assert(probed_within(scan.first, scan.increment, m, id));
    let k = choose|k: int| 0 <= k < m && #[trigger] probe_slot(scan.first, scan.increment, k) == id;
    assert forall|j: int| 0 <= j < k implies #[trigger] after_passing_over(scan, j).next(
        ScanEvent::Read(Ok(records(probe_slot(scan.first, scan.increment, j)))),
        starts(j),
        nows(j),
        after_passing_over(scan, j + 1),
        ScanAction::Read { slot: probe_slot(scan.first, scan.increment, j + 1) as u16 },
    ) by {
        let s = probe_slot(scan.first, scan.increment, j);
        crate::datastore::probe::lemma_probe_steps_distinct(scan.first, scan.increment, j, k);
        lemma_probe_slot_in_range(scan.first, scan.increment, j);
        assert(is_live(records(s), nows(j)));
    }
    let post = ScanView {
        phase: ScanPhase::Updating { lease_until: lease_expiry(starts(k)) },
        ..after_passing_over(scan, k)
    };
    let action = ScanAction::Update {
        slot: id as u16,
        lease_until: lease_expiry(starts(k)),
        precondition: revision_of(update_time).unwrap(),
    };
    assert(nows(k).as_nanos() > 0);
    assert(after_passing_over(scan, k).next(ScanEvent::Read(Ok(records(id))), starts(k), nows(k), post, action));
}

/// A lease that ran out before the time at which the scan checks it is
/// taken over: the scan overwrites that slot, under the record's update time,
/// with a lease that runs `LEASE_DURATION_SECONDS` after the time at which
/// the scan computed it, and does not move on to another slot.
pub proof fn lemma_scan_claims_expired_lease(
    scan: ScanView,
    lease_until: Timestamp,
    update_time: Timestamp,
    lease_start: Timestamp,
    now: Timestamp,
    post: ScanView,
    action: ScanAction,
)
    requires
        scan.wf(),
        lease_start.seconds <= i64::MAX - LEASE_DURATION_SECONDS,
        lease_until.as_nanos() < now.as_nanos(),
        timestamp_in_range(update_time.seconds, update_time.nanos),
        scan.next(
            ScanEvent::Read(Ok(SlotRecord::Present { lease_until, update_time: Some(update_time) })),
            lease_start,
            now,
            post,
            action,
        ),
    ensures
        action is Update,
        action->Update_slot == scan.current_slot(),
        action->Update_lease_until.as_nanos() == lease_start.as_nanos() + LEASE_DURATION_SECONDS
            * 1_000_000_000,
        action->Update_precondition.as_nanos() == update_time.as_nanos(),
        post.scanned == scan.scanned,
{
    lemma_probe_slot_in_range(scan.first, scan.increment, scan.scanned);
    crate::datastore::store::lemma_normalize_keeps_the_instant(update_time);
}

/// A taken slot runs until the expiry that the scan wrote into it: when a
/// read leads the scan to create or overwrite a slot and that write
/// succeeds, the scan hands out the same slot with the expiry of the write,
/// `LEASE_DURATION_SECONDS` after the time at which the write was issued,
/// whatever the time at which the write answered.
pub proof fn lemma_acquired_expiry_is_the_written_one(
    scan: ScanView,
    read: ScanEvent,
    read_start: Timestamp,
    read_now: Timestamp,
    writing: ScanView,
    write: ScanAction,
    update_time: Timestamp,
    answer_start: Timestamp,
    answer_now: Timestamp,
    done: ScanView,
    acquired: ScanAction,
)
    requires
        scan.wf(),
        scan.accepts(read, read_now),
        read_start.seconds <= i64::MAX - LEASE_DURATION_SECONDS,
        scan.next(read, read_start, read_now, writing, write),
        write is Insert || write is Update,
        timestamp_in_range(update_time.seconds, update_time.nanos),
        writing.next(
            ScanEvent::Written(Ok(Some(update_time))),
            answer_start,
            answer_now,
            done,
            acquired,
        ),
    ensures
        acquired is Acquired,
        write is Insert ==> acquired->Acquired_slot == write->Insert_slot
            && acquired->Acquired_lease_until == write->Insert_lease_until,
        write is Update ==> acquired->Acquired_slot == write->Update_slot
            && acquired->Acquired_lease_until == write->Update_lease_until,
        acquired->Acquired_lease_until.as_nanos() == read_start.as_nanos() + LEASE_DURATION_SECONDS
            * 1_000_000_000,
        acquired->Acquired_revision.as_nanos() == update_time.as_nanos(),
        done.phase is Finished,
{
    crate::datastore::store::lemma_normalize_keeps_the_instant(update_time);
}

/// Every step keeps the scan well formed, and every slot that a scan names
/// is a slot.
pub proof fn lemma_scan_step_names_slots(
    scan: ScanView,
    event: ScanEvent,
    lease_start: Timestamp,
    now: Timestamp,
    post: ScanView,
    action: ScanAction,
)
    requires
        scan.wf(),
        scan.accepts(event, now),
        scan.next(event, lease_start, now, post, action),
    ensures
        post.wf(),
        post.scanned == scan.scanned || post.scanned == scan.scanned + 1,
        (match action {
            ScanAction::Read { slot } => slot < SLOT_COUNT && slot == post.current_slot(),
            ScanAction::Insert { slot, .. } => slot < SLOT_COUNT && slot == scan.current_slot(),
            ScanAction::Update { slot, .. } => slot < SLOT_COUNT && slot == scan.current_slot(),
            ScanAction::Acquired { slot, .. } => slot < SLOT_COUNT && slot == scan.current_slot(),
            ScanAction::Failed(_) => true,
        }),
{
    lemma_probe_slot_in_range(scan.first, scan.increment, scan.scanned);
    lemma_probe_slot_in_range(scan.first, scan.increment, scan.scanned + 1);
}

} // verus!
