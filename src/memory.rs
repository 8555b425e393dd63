//! The three stores of the pipeline held in memory: live attribution records,
//! archived attribution records, and subscriptions; and the pipeline run
//! against them.
use vstd::prelude::*;
use crate::aic::{str_eq, AIC};
use crate::clock::{now_utc, Timestamp};
use crate::ids::{new_v4, RecordId};
use crate::pipeline::{
    advance, insert_outcome, start, Event, Failure, InsertFailure,
    LookupFailure, RowOutcome, Stage,
};
use crate::subscription::{not_reported, Row, Subscription};

verus! {

/// No two records share an identifier.
pub open spec fn ids_unique(s: Seq<AIC>) -> bool {
    forall|i: int, j: int| 0 <= i < j < s.len() ==> s[i].id != s[j].id
}

/// No two subscriptions share a flow identifier.
pub open spec fn flows_unique(s: Seq<Subscription>) -> bool {
    forall|i: int, j: int| 0 <= i < j < s.len() ==> s[i].flow_id@ != s[j].flow_id@
}

/// Some record has identifier `id`.
pub open spec fn has_id(s: Seq<AIC>, id: RecordId) -> bool {
    exists|j: int| 0 <= j < s.len() && s[j].id == id
}

/// Index `i` holds the first record whose flow identifier is `flow`.
pub open spec fn first_with_flow(s: Seq<AIC>, flow: Seq<char>, i: int) -> bool {
    &&& 0 <= i < s.len()
    &&& s[i].flow_id@ == flow
    &&& forall|k: int| 0 <= k < i ==> s[k].flow_id@ != flow
}

/// Some record has flow identifier `flow`.
pub open spec fn has_flow(s: Seq<AIC>, flow: Seq<char>) -> bool {
    exists|j: int| 0 <= j < s.len() && s[j].flow_id@ == flow
}

/// Some subscription has flow identifier `flow`.
pub open spec fn has_subscription_for(s: Seq<Subscription>, flow: Seq<char>) -> bool {
    exists|j: int| 0 <= j < s.len() && s[j].flow_id@ == flow
}

/// The archive after `record` is written to it: a snapshot with the same
/// identifier is replaced, else the record is appended.
pub open spec fn archived(s: Seq<AIC>, record: AIC) -> Seq<AIC> {
    if has_id(s, record.id) {
        s.update(choose|j: int| 0 <= j < s.len() && s[j].id == record.id, record)
    } else {
        s.push(record)
    }
}

/// A subscription reconciled from `row` under `id` with `record` at `now`.
pub open spec fn is_reconciled(
    sub: Subscription,
    row: Row,
    id: RecordId,
    record: AIC,
    now: Timestamp,
) -> bool {
    &&& sub.carries_row(row, id)
    &&& sub.aic_id == Some(record.id)
    &&& sub.aic_expires == Some(record.expires)
    &&& sub.cj_event_value == Some(record.cj_event_value)
    &&& sub.status is Some && sub.status->Some_0@ == not_reported()
    &&& sub.status_history is Some
    &&& sub.status_history->Some_0@.len() == 1
    &&& sub.status_history->Some_0@[0].status@ == not_reported()
    &&& sub.status_history->Some_0@[0].t == now
}

/// How many of `outcomes` stored a subscription.
pub open spec fn persisted_count(outcomes: Seq<RowOutcome>) -> nat
    decreases outcomes.len(),
{
    if outcomes.len() == 0 {
        0
    } else {
        persisted_count(outcomes.drop_last()) + if outcomes.last() == RowOutcome::Persisted {
            1nat
        } else {
            0nat
        }
    }
}

/// `outcomes` and `after` come from processing `rows` in order from `before`,
/// passing through the stores of `trace`, row `i` under identifier `ids[i]` at
/// instant `nows[i]`.
pub open spec fn is_run(
    before: MemoryStores,
    rows: Vec<Row>,
    trace: Seq<MemoryStores>,
    ids: Seq<RecordId>,
    nows: Seq<Timestamp>,
    after: MemoryStores,
    outcomes: Seq<RowOutcome>,
) -> bool {
    &&& trace.len() == rows@.len() + 1
    &&& ids.len() == rows@.len()
    &&& nows.len() == rows@.len()
    &&& outcomes.len() == rows@.len()
    &&& trace[0] == before
    &&& trace.last() == after
    &&& forall|i: int|
        0 <= i < rows@.len() ==> #[trigger] row_step(
            trace[i],
            rows@[i],
            ids[i],
            nows[i],
            trace[i + 1],
            outcomes[i],
        )
}

/// The live, archive and subscription stores.
#[derive(Debug)]
pub struct MemoryStores {
    pub live: Vec<AIC>,
    pub archive: Vec<AIC>,
    pub subscriptions: Vec<Subscription>,
}

/// What processing `row` under identifier `id` at `now` does to the stores
/// `before`, leaving `after`, and how the row ends.
pub open spec fn row_step(
    before: MemoryStores,
    row: Row,
    id: RecordId,
    now: Timestamp,
    after: MemoryStores,
    outcome: RowOutcome,
) -> bool {
    match row.first_error() {
        Some(e) => {
            &&& outcome == RowOutcome::Skipped(Failure::Decoding(e))
            &&& after.unchanged_from(before)
        },
        None => if !has_flow(before.live@, row.flow()) {
            &&& outcome == RowOutcome::Skipped(Failure::NotFound)
            &&& after.unchanged_from(before)
        } else {
            exists|i: int|
                {
                    &&& #[trigger] first_with_flow(before.live@, row.flow(), i)
                    &&& after.live@ == before.live@.remove(i)
                    &&& after.archive@ == archived(before.archive@, before.live@[i])
                    &&& if has_subscription_for(before.subscriptions@, row.flow()) {
                        &&& outcome == RowOutcome::Skipped(Failure::UniquenessViolation)
                        &&& after.subscriptions@ == before.subscriptions@
                    } else {
                        &&& outcome == RowOutcome::Persisted
                        &&& after.subscriptions@.len() == before.subscriptions@.len() + 1
                        &&& after.subscriptions@.drop_last() == before.subscriptions@
                        &&& is_reconciled(
                            after.subscriptions@.last(),
                            row,
                            id,
                            before.live@[i],
                            now,
                        )
                    }
                }
        },
    }
}

impl MemoryStores {
    /// Identifiers are unique in each attribution store, and flow identifiers
    /// among subscriptions.
    pub open spec fn wf(&self) -> bool {
        &&& ids_unique(self.live@)
        &&& ids_unique(self.archive@)
        &&& flows_unique(self.subscriptions@)
    }

    /// The three stores hold what they held in `before`.
    pub open spec fn unchanged_from(&self, before: MemoryStores) -> bool {
        &&& self.live@ == before.live@
        &&& self.archive@ == before.archive@
        &&& self.subscriptions@ == before.subscriptions@
    }

    /// Three empty stores.
    pub fn new() -> (r: MemoryStores)
        ensures
            r.wf(),
            r.live@.len() == 0,
            r.archive@.len() == 0,
            r.subscriptions@.len() == 0,
    {
        MemoryStores { live: Vec::new(), archive: Vec::new(), subscriptions: Vec::new() }
    }

    /// Adds a live record; refused, leaving the stores as they are, when a
    /// live record already has its identifier.
    pub fn add_live(&mut self, record: AIC) -> (r: bool)
        requires
            old(self).wf(),
        ensures
            final(self).wf(),
            r == !has_id(old(self).live@, record.id),
            r ==> final(self).live@ == old(self).live@.push(record),
            !r ==> final(self).live@ == old(self).live@,
            final(self).archive@ == old(self).archive@,
            final(self).subscriptions@ == old(self).subscriptions@,
    {
        match position_of_id(&self.live, record.id) {
            Some(_) => false,
            None => {
                self.live.push(record);
                true
            },
        }
    }

    /// The first live record whose flow identifier is `flow_id`.
    pub fn fetch_one_by_flow_id(&self, flow_id: &str) -> (r: Result<AIC, LookupFailure>)
        ensures
            match r {
                Ok(a) => exists|i: int| #[trigger]
                    first_with_flow(self.live@, flow_id@, i) && a == self.live@[i],
                Err(e) => e == LookupFailure::NotFound && !has_flow(self.live@, flow_id@),
            },
    {
        let mut i: usize = 0;
        while i < self.live.len()
            invariant
                i <= self.live@.len(),
                forall|k: int| 0 <= k < i ==> self.live@[k].flow_id@ != flow_id@,
            decreases self.live@.len() - i,
        {
            if str_eq(self.live[i].flow_id.as_str(), flow_id) {
                assert(first_with_flow(self.live@, flow_id@, i as int));
                return Ok(self.live[i].snapshot());
            }
            i = i + 1;
        }
        Err(LookupFailure::NotFound)
    }

    /// Writes `record` to the archive, replacing a snapshot with the same
    /// identifier. This never fails, so the archive never holds two snapshots
    /// of one record.
    pub fn archive_record(&mut self, record: AIC) -> (r: bool)
        requires
            old(self).wf(),
        ensures
            final(self).wf(),
            r,
            final(self).archive@ == archived(old(self).archive@, record),
            final(self).live@ == old(self).live@,
            final(self).subscriptions@ == old(self).subscriptions@,
    {
        match position_of_id(&self.archive, record.id) {
            Some(j) => {
                proof {
                    let c = choose|k: int|
                        0 <= k < self.archive@.len() && self.archive@[k].id == record.id;
                    assert(c == j as int);
                }
                self.archive.set(j, record);
            },
            None => {
                self.archive.push(record);
            },
        }
        true
    }

    /// Deletes the live record with identifier `id`, if there is one. This
    /// never fails.
    pub fn delete_live(&mut self, id: RecordId) -> (r: bool)
        requires
            old(self).wf(),
        ensures
            final(self).wf(),
            r,
            !has_id(final(self).live@, id),
            forall|i: int|
                0 <= i < old(self).live@.len() && old(self).live@[i].id == id
                    ==> final(self).live@ == old(self).live@.remove(i),
            !has_id(old(self).live@, id) ==> final(self).live@ == old(self).live@,
            final(self).archive@ == old(self).archive@,
            final(self).subscriptions@ == old(self).subscriptions@,
    {
        match position_of_id(&self.live, id) {
            Some(i) => {
                let ghost before = self.live@;
                self.live.remove(i);
                assert forall|k: int| 0 <= k < self.live@.len() implies self.live@[k].id != id by {
                    if k < i {
                        assert(before[k].id != before[i as int].id);
                    } else {
                        assert(before[k + 1].id != before[i as int].id);
                    }
                }
            },
            None => {},
        }
        true
    }

    /// Inserts `sub`; refused as a uniqueness violation, leaving the stores as
    /// they are, when a stored subscription has the same flow identifier.
    pub fn insert_subscription(&mut self, sub: Subscription) -> (r: Result<(), InsertFailure>)
        requires
            old(self).wf(),
        ensures
            final(self).wf(),
            r is Err <==> has_subscription_for(old(self).subscriptions@, sub.flow_id@),
            r is Err ==> r == Err::<(), InsertFailure>(InsertFailure::Uniqueness)
                && final(self).subscriptions@ == old(self).subscriptions@,
            r is Ok ==> final(self).subscriptions@ == old(self).subscriptions@.push(sub),
            final(self).live@ == old(self).live@,
            final(self).archive@ == old(self).archive@,
    {
        let mut i: usize = 0;
        while i < self.subscriptions.len()
            invariant
                i <= self.subscriptions@.len(),
                *self == *old(self),
                old(self).wf(),
                forall|k: int| 0 <= k < i ==> self.subscriptions@[k].flow_id@ != sub.flow_id@,
            decreases self.subscriptions@.len() - i,
        {
            if self.subscriptions[i].flow_id == sub.flow_id {
                return Err(InsertFailure::Uniqueness);
            }
            i = i + 1;
        }
        self.subscriptions.push(sub);
        Ok(())
    }

    /// Carries one row through decoding, lookup, archiving, retirement of the
    /// live record, and the subscription insert, under identifier `id` at `now`.
    pub fn process_row(&mut self, row: &Row, id: RecordId, now: Timestamp) -> (outcome: RowOutcome)
        requires
            old(self).wf(),
        ensures
            final(self).wf(),
            row_step(*old(self), *row, id, now, *final(self), outcome),
    {
        let ghost before = *self;
        let draft = match start(row, id) {
            Stage::Resolving(d) => d,
            Stage::Finished(o) => {
                return o;
            },
            _ => {
                return RowOutcome::Fatal;
            },
        };
        let found = self.fetch_one_by_flow_id(draft.flow_id.as_str());
        let (sub, record) = match advance(Stage::Resolving(draft), Event::LookedUp(found)) {
            Stage::Archiving(s, a) => (s, a),
            Stage::Finished(o) => {
                return o;
            },
            _ => {
                return RowOutcome::Fatal;
            },
        };
        let ghost i = choose|i: int| #[trigger]
            first_with_flow(before.live@, row.flow(), i) && record == before.live@[i];
        assert(first_with_flow(before.live@, row.flow(), i));
        let written = self.archive_record(record.snapshot());
        let (sub, record) = match advance(Stage::Archiving(sub, record), Event::Archived(written)) {
            Stage::Retiring(s, a) => (s, a),
            _ => {
                return RowOutcome::Fatal;
            },
        };
        let deleted = self.delete_live(record.id);
        let sub = match advance(Stage::Retiring(sub, record), Event::Retired(deleted, now)) {
            Stage::Writing(w) => w,
            _ => {
                return RowOutcome::Fatal;
            },
        };
        let res = self.insert_subscription(sub);
        proof {
            if res is Ok {
                assert(self.subscriptions@.drop_last() =~= before.subscriptions@);
            }
        }
        insert_outcome(res)
    }

    /// Processes `rows` in order, each under a fresh random identifier and at
    /// the instant it is reached. In memory no deletion fails, so every row is
    /// processed.
    pub fn reconcile(&mut self, rows: &Vec<Row>) -> (outcomes: Vec<RowOutcome>)
        requires
            old(self).wf(),
        ensures
            final(self).wf(),
            outcomes@.len() == rows@.len(),
            forall|i: int|
                0 <= i < rows@.len() ==> outcomes@[i] != RowOutcome::Fatal && (match rows@[i].first_error() {
                    Some(e) => outcomes@[i] == RowOutcome::Skipped(Failure::Decoding(e)),
                    None => !(outcomes@[i] is Skipped && outcomes@[i]->Skipped_0 is Decoding),
                }),
            final(self).subscriptions@.len() == old(self).subscriptions@.len() + persisted_count(
                outcomes@,
            ),
            exists|trace: Seq<MemoryStores>, ids: Seq<RecordId>, nows: Seq<Timestamp>|
                is_run(*old(self), *rows, trace, ids, nows, *final(self), outcomes@),
    {
        let mut outcomes: Vec<RowOutcome> = Vec::new();
        let ghost mut trace: Seq<MemoryStores> = seq![*self];
        let ghost mut ids: Seq<RecordId> = Seq::empty();
        let ghost mut nows: Seq<Timestamp> = Seq::empty();
        let mut k: usize = 0;
        while k < rows.len()
            invariant
                k <= rows@.len(),
                self.wf(),
                outcomes@.len() == k,
                forall|i: int|
                    0 <= i < k ==> outcomes@[i] != RowOutcome::Fatal && (match rows@[i].first_error() {
                        Some(e) => outcomes@[i] == RowOutcome::Skipped(Failure::Decoding(e)),
                        None => !(outcomes@[i] is Skipped && outcomes@[i]->Skipped_0 is Decoding),
                    }),
                self.subscriptions@.len() == old(self).subscriptions@.len() + persisted_count(
                    outcomes@,
                ),
                trace.len() == k + 1,
                ids.len() == k,
                nows.len() == k,
                trace[0] == *old(self),
                trace.last() == *self,
                forall|i: int|
                    0 <= i < k ==> #[trigger] row_step(
                        trace[i],
                        rows@[i],
                        ids[i],
                        nows[i],
                        trace[i + 1],
                        outcomes@[i],
                    ),
            decreases rows@.len() - k,
        {
            let id = new_v4();
            let now = now_utc();
            let ghost prev = outcomes@;
            let o = self.process_row(&rows[k], id, now);
            outcomes.push(o);
            proof {
                assert(outcomes@.drop_last() =~= prev);
                trace = trace.push(*self);
                ids = ids.push(id);
                nows = nows.push(now);
            }
            k = k + 1;
        }
        assert(is_run(*old(self), *rows, trace, ids, nows, *self, outcomes@));
        outcomes
    }
}

/// A row that decodes, whose flow identifier has a live record and no stored
/// subscription yet, is persisted; the stored subscription carries the
/// identifier, expiry and tag of that record, status `not_reported`, and a
/// history of exactly one entry with that status.
pub proof fn lemma_matched_row_persisted(
    before: MemoryStores,
    row: Row,
    id: RecordId,
    now: Timestamp,
    after: MemoryStores,
    outcome: RowOutcome,
)
    requires
        row_step(before, row, id, now, after, outcome),
        row.first_error() is None,
        has_flow(before.live@, row.flow()),
        !has_subscription_for(before.subscriptions@, row.flow()),
    ensures
        outcome == RowOutcome::Persisted,
        exists|i: int|
            #[trigger] first_with_flow(before.live@, row.flow(), i) && is_reconciled(
                after.subscriptions@.last(),
                row,
                id,
                before.live@[i],
                now,
            ),
{
}

/// A row with a required column missing or malformed stores nothing and
/// changes no record.
pub proof fn lemma_undecodable_row_inert(
    before: MemoryStores,
    row: Row,
    id: RecordId,
    now: Timestamp,
    after: MemoryStores,
    outcome: RowOutcome,
)
    requires
        row_step(before, row, id, now, after, outcome),
        row.first_error() is Some,
    ensures
        outcome == RowOutcome::Skipped(Failure::Decoding(row.first_error()->Some_0)),
        after.unchanged_from(before),
{
}

/// A row whose flow identifier matches no live record stores nothing and
/// changes no record.
pub proof fn lemma_unmatched_row_inert(
    before: MemoryStores,
    row: Row,
    id: RecordId,
    now: Timestamp,
    after: MemoryStores,
    outcome: RowOutcome,
)
    requires
        row_step(before, row, id, now, after, outcome),
        row.first_error() is None,
        !has_flow(before.live@, row.flow()),
    ensures
        outcome == RowOutcome::Skipped(Failure::NotFound),
        after.unchanged_from(before),
{
}

/// After a row is persisted, the archive holds exactly one snapshot with the
/// identifier of the record it matched, equal to that record in every field,
/// and the live store no longer holds that identifier.
pub proof fn lemma_retired_once(
    before: MemoryStores,
    row: Row,
    id: RecordId,
    now: Timestamp,
    after: MemoryStores,
    outcome: RowOutcome,
)
    requires
        before.wf(),
        row_step(before, row, id, now, after, outcome),
        outcome == RowOutcome::Persisted,
    ensures
        exists|i: int|
            #[trigger] first_with_flow(before.live@, row.flow(), i) && {
                let a = before.live@[i];
                &&& exists|j: int|
                    0 <= j < after.archive@.len() && after.archive@[j] == a && forall|k: int|
                        0 <= k < after.archive@.len() && k != j ==> after.archive@[k].id != a.id
                &&& !has_id(after.live@, a.id)
            },
{
    let flow = row.flow();
    let i = choose|i: int| #[trigger]
        first_with_flow(before.live@, flow, i) && after.live@ == before.live@.remove(i)
            && after.archive@ == archived(before.archive@, before.live@[i]);
    let a = before.live@[i];
    let s = before.archive@;
    if has_id(s, a.id) {
        let j = choose|j: int| 0 <= j < s.len() && s[j].id == a.id;
        assert(after.archive@[j] == a);
        assert forall|k: int| 0 <= k < after.archive@.len() && k != j implies after.archive@[k].id
            != a.id by {
            assert(s[k].id != s[j].id);
        }
    } else {
        let j = s.len() as int;
        assert(after.archive@[j] == a);
    }
    assert forall|k: int| 0 <= k < after.live@.len() implies after.live@[k].id != a.id by {
        if k < i {
            assert(before.live@[k].id != before.live@[i].id);
        } else {
            assert(before.live@[k + 1].id != before.live@[i].id);
        }
    }
}

/// Of two rows with the same flow identifier, both decodable and both matched
/// to a live record, the second is refused as a uniqueness violation, and
/// afterwards exactly one subscription has that flow identifier.
pub proof fn lemma_one_subscription_per_flow(
    s0: MemoryStores,
    r1: Row,
    id1: RecordId,
    t1: Timestamp,
    s1: MemoryStores,
    o1: RowOutcome,
    r2: Row,
    id2: RecordId,
    t2: Timestamp,
    s2: MemoryStores,
    o2: RowOutcome,
)
    requires
        s2.wf(),
        row_step(s0, r1, id1, t1, s1, o1),
        row_step(s1, r2, id2, t2, s2, o2),
        r1.first_error() is None,
        r2.first_error() is None,
        r1.flow() == r2.flow(),
        has_flow(s0.live@, r1.flow()),
        has_flow(s1.live@, r2.flow()),
    ensures
        o2 == RowOutcome::Skipped(Failure::UniquenessViolation),
        exists|j: int|
            0 <= j < s2.subscriptions@.len() && s2.subscriptions@[j].flow_id@ == r1.flow()
                && forall|k: int|
                0 <= k < s2.subscriptions@.len() && s2.subscriptions@[k].flow_id@ == r1.flow()
                    ==> k == j,
{
    let flow = r1.flow();
    let subs0 = s0.subscriptions@;
    let subs1 = s1.subscriptions@;
    assert(has_subscription_for(subs1, flow)) by {
        if has_subscription_for(subs0, flow) {
            let j = choose|j: int| 0 <= j < subs0.len() && subs0[j].flow_id@ == flow;
            assert(subs1[j] == subs0[j]);
        } else {
            let j = subs0.len() as int;
            assert(subs1[j] == subs1.last());
        }
    }
    let j = choose|j: int| 0 <= j < subs1.len() && subs1[j].flow_id@ == flow;
    assert(s2.subscriptions@[j].flow_id@ == flow);
}

/// The index of the record with identifier `id`, if any.
fn position_of_id(s: &Vec<AIC>, id: RecordId) -> (r: Option<usize>)
    ensures
        match r {
            Some(i) => i < s@.len() && s@[i as int].id == id,
            None => !has_id(s@, id),
        },
{
    let mut i: usize = 0;
    while i < s.len()
        invariant
            i <= s@.len(),
            forall|k: int| 0 <= k < i ==> s@[k].id != id,
        decreases s@.len() - i,
    {
        if s[i].id.bits == id.bits {
            return Some(i);
        }
        i = i + 1;
    }
    None
}

} // verus!
