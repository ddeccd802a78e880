//! Leases kept as documents of a Firestore collection, one document per slot.
use vstd::prelude::*;
use ::firestore::errors::FirestoreError;
use ::firestore::FirestoreDb;
use crate::error::Error;
use crate::time::{is_clock_reading, utc_now, ClockReading, Timestamp, MAX_CLOCK_SECONDS};

verus! {

/// Makes `firestore::FirestoreDb` usable in signatures and fields; its
/// contents stay opaque.
#[verifier::external_type_specification]
#[verifier::external_body]
pub struct ExFirestoreDb(::firestore::FirestoreDb);

/// Collection that holds one document per lease slot.
pub const LEASE_COLLECTION: &'static str = "leases";

/// Collection that holds one document per machine id.
pub const MACHINE_COLLECTION: &'static str = "machines";

/// How long a lease lasts after it was taken or renewed.
pub const LEASE_DURATION_SECONDS: i64 = 300;

/// What a Firestore error says about itself, as far as the lease logic reads it.
#[derive(Debug)]
pub enum FirestoreErrorCode {
    /// A general database error with its code, such as `FailedPrecondition`.
    Database(String),
    /// A data conflict with its code, such as `AlreadyExists`.
    DataConflict(String),
    /// Any other kind of error.
    Other,
}

/// The value of a [`FirestoreErrorCode`].
pub ghost enum FirestoreErrorCodeView {
    Database(Seq<char>),
    DataConflict(Seq<char>),
    Other,
}

impl View for FirestoreErrorCode {
    type V = FirestoreErrorCodeView;

    open spec fn view(&self) -> FirestoreErrorCodeView {
        match self {
            FirestoreErrorCode::Database(code) => FirestoreErrorCodeView::Database(code@),
            FirestoreErrorCode::DataConflict(code) => FirestoreErrorCodeView::DataConflict(code@),
            FirestoreErrorCode::Other => FirestoreErrorCodeView::Other,
        }
    }
}

/// The kind and code that a `FirestoreError` carries.
pub uninterp spec fn firestore_error_code(error: FirestoreError) -> FirestoreErrorCodeView;

/// Reads which variant a `firestore::errors::FirestoreError` is and, for
/// database errors and data conflicts, the code in its public details. What
/// it returns depends on the error value alone and is given the name
/// `firestore_error_code`.
#[verifier::external_body]
fn error_code(error: &FirestoreError) -> (code: FirestoreErrorCode)
    ensures
        code@ == firestore_error_code(*error),
{
    match error {
        FirestoreError::DatabaseError(e) => FirestoreErrorCode::Database(e.public.code.clone()),
        FirestoreError::DataConflictError(e) => FirestoreErrorCode::DataConflict(e.public.code.clone()),
        FirestoreError::SystemError(_) => FirestoreErrorCode::Other,
        FirestoreError::DataNotFoundError(_) => FirestoreErrorCode::Other,
        FirestoreError::InvalidParametersError(_) => FirestoreErrorCode::Other,
        FirestoreError::SerializeError(_) => FirestoreErrorCode::Other,
        FirestoreError::DeserializeError(_) => FirestoreErrorCode::Other,
        FirestoreError::NetworkError(_) => FirestoreErrorCode::Other,
        FirestoreError::ErrorInTransaction(_) => FirestoreErrorCode::Other,
        FirestoreError::CacheError(_) => FirestoreErrorCode::Other,
    }
}

/// Whether Firestore refused a write because its precondition did not hold.
pub open spec fn is_failed_precondition(error: FirestoreError) -> bool {
    firestore_error_code(error) == FirestoreErrorCodeView::Database("FailedPrecondition"@)
}

/// Whether Firestore refused to create a document because it already exists.
pub open spec fn is_already_exists(error: FirestoreError) -> bool {
    firestore_error_code(error) == FirestoreErrorCodeView::DataConflict("AlreadyExists"@)
}

/// Earliest whole second of the instants that Firestore's timestamp type holds.
pub const MIN_TIMESTAMP_SECONDS: i64 = -377_705_023_201;

/// Latest whole second of the instants that Firestore's timestamp type holds.
pub const MAX_TIMESTAMP_SECONDS: i64 = 253_402_207_200;

/// Whether `firestore::timestamp_utils::from_timestamp` accepts the time:
/// its seconds lie within the range of the timestamp type, its nanoseconds
/// within one second either way, and the earliest second takes no negative
/// nanoseconds.
pub open spec fn timestamp_in_range(seconds: i64, nanos: i32) -> bool {
    &&& MIN_TIMESTAMP_SECONDS <= seconds <= MAX_TIMESTAMP_SECONDS
    &&& -999_999_999 <= nanos <= 999_999_999
    &&& !(seconds == MIN_TIMESTAMP_SECONDS && nanos < 0)
}

/// The error with which `firestore::timestamp_utils::from_timestamp`
/// rejects a time out of range.
pub uninterp spec fn from_timestamp_error(seconds: i64, nanos: i32) -> FirestoreError;

/// Calls `firestore::timestamp_utils::from_timestamp` on the time and turns
/// the result back into seconds and nanoseconds with
/// `firestore::timestamp_utils::to_timestamp`. The call succeeds exactly for
/// the times that its timestamp type (jiff's) can hold, and then gives the
/// same instant with its nanoseconds brought into one second; otherwise it
/// gives its deserialization error, which depends on the time alone and is
/// named `from_timestamp_error`.
#[verifier::external_body]
fn from_timestamp(time: Timestamp) -> (res: std::result::Result<Timestamp, FirestoreError>)
    ensures
        res is Ok <==> timestamp_in_range(time.seconds, time.nanos),
        res matches Ok(t) ==> t == normalize(time),
        res matches Err(e) ==> e == from_timestamp_error(time.seconds, time.nanos),
{
    let raw = firestore::gcloud_sdk::prost_types::Timestamp { seconds: time.seconds, nanos: time.nanos };
    match firestore::timestamp_utils::from_timestamp(raw) {
        Ok(instant) => {
            let back = firestore::timestamp_utils::to_timestamp(instant);
            Ok(Timestamp { seconds: back.seconds, nanos: back.nanos })
        },
        Err(e) => Err(e),
    }
}

/// The same instant as `t`, with its nanoseconds within one second.
pub open spec fn normalize(t: Timestamp) -> Timestamp {
    Timestamp {
        seconds: (t.as_nanos() / 1_000_000_000) as i64,
        nanos: (t.as_nanos() % 1_000_000_000) as i32,
    }
}

/// What reading the revision of a document with update time `update_time`
/// gives: the update time, normalized, or the conversion's error.
pub open spec fn revision_result(update_time: Timestamp) -> Result<Timestamp, Error> {
    if timestamp_in_range(update_time.seconds, update_time.nanos) {
        Ok(normalize(update_time))
    } else {
        Err(Error::Firestore(from_timestamp_error(update_time.seconds, update_time.nanos)))
    }
}

/// Normalizing a time keeps the instant and puts the nanoseconds within
/// one second.
pub proof fn lemma_normalize_keeps_the_instant(t: Timestamp)
    requires
        timestamp_in_range(t.seconds, t.nanos),
    ensures
        normalize(t).as_nanos() == t.as_nanos(),
        normalize(t).is_normalized(),
{
    let n = t.as_nanos();
    let q = n / 1_000_000_000;
    let r = n % 1_000_000_000;
    vstd::arithmetic::div_mod::lemma_fundamental_div_mod(n, 1_000_000_000);
    vstd::arithmetic::div_mod::lemma_mod_bound(n, 1_000_000_000);
    assert(n == 1_000_000_000 * q + r);
    assert(-377_705_023_202 <= q <= 253_402_207_201) by (nonlinear_arith)
        requires
            n == 1_000_000_000 * q + r,
            0 <= r < 1_000_000_000,
            -377_705_023_201 * 1_000_000_000 - 999_999_999 <= n <= 253_402_207_200 * 1_000_000_000
                + 999_999_999,
    ;
}

/// The revision that a document's update time stands for, if Firestore's
/// timestamp conversion accepts it.
pub open spec fn revision_of(update_time: Timestamp) -> Option<Timestamp> {
    match revision_result(update_time) {
        Ok(revision) => Some(revision),
        Err(_) => None,
    }
}

/// The expiry of a lease taken or renewed at `now`.
pub open spec fn lease_expiry(now: Timestamp) -> Timestamp {
    Timestamp { seconds: (now.seconds + LEASE_DURATION_SECONDS) as i64, nanos: now.nanos }
}

/// A lease store backed by a Firestore database.
pub struct Firestore {
    database: FirestoreDb,
}

impl Firestore {
    /// The database that the store works on.
    pub closed spec fn db(&self) -> FirestoreDb {
        self.database
    }

    pub fn new(firestore_database: FirestoreDb) -> (store: Self)
        ensures
            store.db() == firestore_database,
    {
        Self { database: firestore_database }
    }

    /// The database that the store works on.
    pub fn database(&self) -> (database: &FirestoreDb)
        ensures
            *database == self.db(),
    {
        &self.database
    }

    /// Whether Firestore refused a write because its precondition (the
    /// document's update time) no longer held.
    pub fn is_failed_precondition_error(error: &FirestoreError) -> (refused: bool)
        ensures
            refused == is_failed_precondition(*error),
    {
        match error_code(error) {
            FirestoreErrorCode::Database(code) => {
                let expected = "FailedPrecondition".to_string();
                proof {
                    broadcast use vstd::string::to_string_from_display_ensures_for_str;
                }
                code == expected
            },
            _ => false,
        }
    }

    /// Whether Firestore refused to create a document because it exists.
    pub fn is_already_exists_error(error: &FirestoreError) -> (exists: bool)
        ensures
            exists == is_already_exists(*error),
    {
        match error_code(error) {
            FirestoreErrorCode::DataConflict(code) => {
                let expected = "AlreadyExists".to_string();
                proof {
                    broadcast use vstd::string::to_string_from_display_ensures_for_str;
                }
                code == expected
            },
            _ => false,
        }
    }

    /// The revision of a document, which is its update time. Firestore
    /// always hands out documents with their update time.
    pub fn revision(update_time: Option<Timestamp>) -> (res: Result<Timestamp, Error>)
        requires
            update_time is Some,
        ensures
            res == revision_result(update_time.unwrap()),
            res is Ok <==> revision_of(update_time.unwrap()) is Some,
            res matches Ok(r) ==> revision_of(update_time.unwrap()) == Some(r),
    {
        let update_time = update_time.unwrap();
        match from_timestamp(update_time) {
            Ok(t) => Ok(t),
            Err(e) => Err(Error::Firestore(e)),
        }
    }

    /// What renewing a lease comes to: `lease_until` is the expiry that was
    /// written and `written` what the update, guarded by the lease's
    /// revision, answered (on success, the update time of the document).
    pub fn renewal_outcome(
        lease_until: Timestamp,
        written: Result<Option<Timestamp>, FirestoreError>,
    ) -> (res: Result<(Timestamp, Timestamp), Error>)
        requires
            written matches Ok(update_time) ==> update_time is Some,
        ensures
            written matches Ok(update_time) ==> match revision_of(update_time.unwrap()) {
                Some(revision) => res == Ok::<(Timestamp, Timestamp), Error>((lease_until, revision)),
                None => res == Err::<(Timestamp, Timestamp), Error>(
                    Error::Firestore(from_timestamp_error(update_time.unwrap().seconds, update_time.unwrap().nanos)),
                ),
            },
            written matches Err(e) ==> if is_failed_precondition(e) {
                res matches Err(Error::LeaseLost)
            } else {
                res == Err::<(Timestamp, Timestamp), Error>(Error::Firestore(e))
            },
    {
        match written {
            Ok(update_time) => match Self::revision(update_time) {
                Ok(revision) => Ok((lease_until, revision)),
                Err(e) => Err(e),
            },
            Err(e) => {
                if Self::is_failed_precondition_error(&e) {
                    Err(Error::LeaseLost)
                } else {
                    Err(Error::Firestore(e))
                }
            },
        }
    }

    /// What revoking a lease comes to, given what the update that wrote the
    /// revoked expiry, guarded by the lease's revision, answered.
    pub fn revoke_outcome(written: Result<(), FirestoreError>) -> (res: Result<(), Error>)
        ensures
            written is Ok ==> res is Ok,
            written matches Err(e) ==> if is_failed_precondition(e) {
                res matches Err(Error::LeaseLost)
            } else {
                res == Err::<(), Error>(Error::Firestore(e))
            },
    {
        match written {
            Ok(()) => Ok(()),
            Err(e) => {
                if Self::is_failed_precondition_error(&e) {
                    Err(Error::LeaseLost)
                } else {
                    Err(Error::Firestore(e))
                }
            },
        }
    }

    /// What extending the lease of a machine id comes to: `lease_until` is
    /// the expiry that was written and `written` what the write answered.
    pub fn extension_outcome(
        lease_until: Timestamp,
        written: Result<(), FirestoreError>,
    ) -> (res: Result<Timestamp, Error>)
        ensures
            written is Ok ==> res == Ok::<Timestamp, Error>(lease_until),
            written matches Err(e) ==> res == Err::<Timestamp, Error>(Error::Firestore(e)),
    {
        match written {
            Ok(()) => Ok(lease_until),
            Err(e) => Err(Error::Firestore(e)),
        }
    }

    /// The expiry of a lease taken or renewed at `now`.
    pub fn lease_until_from(now: Timestamp) -> (lease_until: Timestamp)
        requires
            now.seconds <= i64::MAX - LEASE_DURATION_SECONDS,
        ensures
            lease_until == lease_expiry(now),
            lease_until.as_nanos() == now.as_nanos() + LEASE_DURATION_SECONDS * 1_000_000_000,
    {
        now.plus_seconds(LEASE_DURATION_SECONDS)
    }

    /// The expiry of a lease taken or renewed now: `LEASE_DURATION_SECONDS`
    /// after the time that the clock reports during the call.
    pub fn lease_until_now() -> (lease_until: Timestamp)
        ensures
            exists|reading: ClockReading|
                is_clock_reading(reading.at()) && lease_until == lease_expiry(reading.at())
                    && lease_until.as_nanos() == reading.at().as_nanos() + LEASE_DURATION_SECONDS
                    * 1_000_000_000,
            exists|now: Timestamp| is_clock_reading(now) && lease_until == lease_expiry(now),
            lease_until.is_normalized(),
            LEASE_DURATION_SECONDS <= lease_until.seconds <= MAX_CLOCK_SECONDS + LEASE_DURATION_SECONDS,
    {
        let reading = utc_now();
        let now = reading.time();
        let lease_until = Self::lease_until_from(now);
        assert(is_clock_reading(reading.at()) && lease_until == lease_expiry(reading.at())
            && lease_until.as_nanos() == reading.at().as_nanos() + LEASE_DURATION_SECONDS
            * 1_000_000_000);
        assert(is_clock_reading(now) && lease_until == lease_expiry(now));
        lease_until
    }

    /// The expiry written into a revoked lease: the Unix epoch, long past.
    pub fn revoked_lease_until() -> (lease_until: Timestamp)
        ensures
            lease_until == Timestamp::unix_epoch_spec(),
    {
        Timestamp::unix_epoch()
    }
}

} // verus!
