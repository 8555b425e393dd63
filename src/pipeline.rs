//! The per-row reconciliation state machine. Each stage names the outside
//! work to do next; the result of that work comes back as an event.
use vstd::prelude::*;
use crate::aic::AIC;
use crate::clock::Timestamp;
use crate::ids::RecordId;
use crate::subscription::{
    not_reported, not_reported_status, subscription_from_row, DecodingError, Row, StatusEntry,
    Subscription,
};

verus! {

/// Why an attribution lookup failed.
#[derive(Clone, Copy, Debug, PartialEq, Eq, Structural)]
pub enum LookupFailure {
    /// No live record has the flow identifier.
    NotFound,
    /// The store could not be read.
    Unavailable,
}

/// Why a subscription insert failed.
#[derive(Clone, Copy, Debug, PartialEq, Eq, Structural)]
pub enum InsertFailure {
    /// A subscription with the same unique key is already stored.
    Uniqueness,
    /// Any other storage error.
    Other,
}

/// Why a row was skipped; the batch goes on after each of these.
#[derive(Clone, Copy, Debug, PartialEq, Eq, Structural)]
pub enum Failure {
    Decoding(DecodingError),
    NotFound,
    Lookup,
    ArchiveWrite,
    UniquenessViolation,
    Storage,
}

/// How a row ended.
#[derive(Clone, Copy, Debug, PartialEq, Eq, Structural)]
pub enum RowOutcome {
    /// The enriched subscription was stored.
    Persisted,
    /// The row was abandoned for this pass.
    Skipped(Failure),
    /// The live record could not be deleted after it was archived: the stores
    /// disagree and no further row may be processed.
    Fatal,
}

/// Where a row stands, and so what must be done next.
#[derive(Debug)]
pub enum Stage {
    /// Look up the live attribution record for the draft's flow identifier.
    Resolving(Subscription),
    /// Write the record to the archive.
    Archiving(Subscription, AIC),
    /// Delete the record, now archived, from the live store.
    Retiring(Subscription, AIC),
    /// Insert the assembled subscription.
    Writing(Subscription),
    /// Nothing is left to do.
    Finished(RowOutcome),
}

/// The result of the work that a stage asked for.
#[derive(Debug)]
pub enum Event {
    LookedUp(Result<AIC, LookupFailure>),
    /// Whether the archive write succeeded.
    Archived(bool),
    /// Whether the live record was deleted, and the instant it was.
    Retired(bool, Timestamp),
    Inserted(Result<(), InsertFailure>),
}

/// `draft` carrying the identifier, expiry and tag of `record`.
pub open spec fn attributed(draft: Subscription, record: AIC) -> Subscription {
    Subscription {
        aic_id: Some(record.id),
        aic_expires: Some(record.expires),
        cj_event_value: Some(record.cj_event_value),
        ..draft
    }
}

/// `sub` assembled for storage at `now`: status `not_reported`, and a history
/// holding that status alone, at `now`.
pub open spec fn is_assembled(r: Subscription, sub: Subscription, now: Timestamp) -> bool {
    &&& r.id == sub.id
    &&& r.flow_id == sub.flow_id
    &&& r.subscription_id == sub.subscription_id
    &&& r.report_timestamp == sub.report_timestamp
    &&& r.subscription_created == sub.subscription_created
    &&& r.fxa_uid == sub.fxa_uid
    &&& r.quantity == sub.quantity
    &&& r.plan_id == sub.plan_id
    &&& r.plan_currency == sub.plan_currency
    &&& r.plan_amount == sub.plan_amount
    &&& r.country == sub.country
    &&& r.aic_id == sub.aic_id
    &&& r.aic_expires == sub.aic_expires
    &&& r.cj_event_value == sub.cj_event_value
    &&& r.status is Some && r.status->Some_0@ == not_reported()
    &&& r.status_history is Some
    &&& r.status_history->Some_0@.len() == 1
    &&& r.status_history->Some_0@[0].status@ == not_reported()
    &&& r.status_history->Some_0@[0].t == now
}

/// Fills in the attribution fields of `draft` from `record`.
pub fn attach_attribution(draft: Subscription, record: &AIC) -> (r: Subscription)
    ensures
        r == attributed(draft, *record),
{
    Subscription {
        aic_id: Some(record.id),
        aic_expires: Some(record.expires),
        cj_event_value: Some(record.cj_event_value.clone()),
        ..draft
    }
}

/// Sets the status to `not_reported` and starts the history with it at `now`.
pub fn assemble(sub: Subscription, now: Timestamp) -> (r: Subscription)
    ensures
        is_assembled(r, sub, now),
{
    let entry = StatusEntry { status: not_reported_status(), t: now };
    let mut history: Vec<StatusEntry> = Vec::new();
    history.push(entry);
    Subscription { status: Some(not_reported_status()), status_history: Some(history), ..sub }
}

/// How a row ends once its subscription insert has returned `res`.
pub fn insert_outcome(res: Result<(), InsertFailure>) -> (r: RowOutcome)
    ensures
        r == match res {
            Ok(()) => RowOutcome::Persisted,
            Err(InsertFailure::Uniqueness) => RowOutcome::Skipped(Failure::UniquenessViolation),
            Err(InsertFailure::Other) => RowOutcome::Skipped(Failure::Storage),
        },
{
    match res {
        Ok(()) => RowOutcome::Persisted,
        Err(InsertFailure::Uniqueness) => RowOutcome::Skipped(Failure::UniquenessViolation),
        Err(InsertFailure::Other) => RowOutcome::Skipped(Failure::Storage),
    }
}

/// The first stage of a row: decoding it under identifier `id`.
pub fn start(row: &Row, id: RecordId) -> (r: Stage)
    ensures
        match r {
            Stage::Resolving(draft) => row.first_error() is None && draft.is_draft_of(*row, id),
            Stage::Finished(RowOutcome::Skipped(Failure::Decoding(e))) => row.first_error()
                == Some(e),
            _ => false,
        },
{
    match subscription_from_row(row, id) {
        Ok(draft) => Stage::Resolving(draft),
        Err(e) => Stage::Finished(RowOutcome::Skipped(Failure::Decoding(e))),
    }
}

/// The stage after `stage` once `event` has come back. An event that does not
/// answer the stage's work leaves the stage as it is.
pub fn advance(stage: Stage, event: Event) -> (r: Stage)
    ensures
        match (stage, event) {
            (Stage::Resolving(d), Event::LookedUp(Ok(a))) => r == Stage::Archiving(
                attributed(d, a),
                a,
            ),
            (Stage::Resolving(_), Event::LookedUp(Err(LookupFailure::NotFound))) => r
                == Stage::Finished(RowOutcome::Skipped(Failure::NotFound)),
            (Stage::Resolving(_), Event::LookedUp(Err(LookupFailure::Unavailable))) => r
                == Stage::Finished(RowOutcome::Skipped(Failure::Lookup)),
            (Stage::Archiving(s, a), Event::Archived(true)) => r == Stage::Retiring(s, a),
            (Stage::Archiving(_, _), Event::Archived(false)) => r == Stage::Finished(
                RowOutcome::Skipped(Failure::ArchiveWrite),
            ),
            (Stage::Retiring(s, _), Event::Retired(true, now)) => match r {
                Stage::Writing(w) => is_assembled(w, s, now),
                _ => false,
            },
            (Stage::Retiring(_, _), Event::Retired(false, _)) => r == Stage::Finished(
                RowOutcome::Fatal,
            ),
            (Stage::Writing(_), Event::Inserted(Ok(()))) => r == Stage::Finished(
                RowOutcome::Persisted,
            ),
            (Stage::Writing(_), Event::Inserted(Err(InsertFailure::Uniqueness))) => r
                == Stage::Finished(RowOutcome::Skipped(Failure::UniquenessViolation)),
            (Stage::Writing(_), Event::Inserted(Err(InsertFailure::Other))) => r
                == Stage::Finished(RowOutcome::Skipped(Failure::Storage)),
            _ => r == stage,
        },
{
    match (stage, event) {
        (Stage::Resolving(d), Event::LookedUp(Ok(a))) => {
            let sub = attach_attribution(d, &a);
            Stage::Archiving(sub, a)
        },
        (Stage::Resolving(_), Event::LookedUp(Err(LookupFailure::NotFound))) => {
            Stage::Finished(RowOutcome::Skipped(Failure::NotFound))
        },
        (Stage::Resolving(_), Event::LookedUp(Err(LookupFailure::Unavailable))) => {
            Stage::Finished(RowOutcome::Skipped(Failure::Lookup))
        },
        (Stage::Archiving(s, a), Event::Archived(ok)) => {
            if ok {
                Stage::Retiring(s, a)
            } else {
                Stage::Finished(RowOutcome::Skipped(Failure::ArchiveWrite))
            }
        },
        (Stage::Retiring(s, a), Event::Retired(ok, now)) => {
            if ok {
                Stage::Writing(assemble(s, now))
            } else {
                Stage::Finished(RowOutcome::Fatal)
            }
        },
        (Stage::Writing(_), Event::Inserted(res)) => Stage::Finished(insert_outcome(res)),
        (stage, _) => stage,
    }
}

} // verus!
