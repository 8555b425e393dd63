//! Attribution records ("AIC"): a flow identifier tied to an attribution tag
//! for thirty days.
use vstd::prelude::*;
use crate::clock::{now_utc, Timestamp};
use crate::ids::{new_v4, RecordId};

verus! {

/// A live attribution record.
#[derive(Debug)]
pub struct AIC {
    pub id: RecordId,
    pub cj_event_value: String,
    pub flow_id: String,
    pub created: Timestamp,
    pub expires: Timestamp,
}

impl AIC {
    /// The record's validity window is exactly thirty days long.
    pub open spec fn window_ok(&self) -> bool {
        self.expires.unix_nanos == self.created.plus_days(30)
    }

    /// A field-for-field copy, such as the archive keeps.
    pub fn snapshot(&self) -> (r: AIC)
        ensures
            r == *self,
    {
        AIC {
            id: self.id,
            cj_event_value: self.cj_event_value.clone(),
            flow_id: self.flow_id.clone(),
            created: self.created,
            expires: self.expires,
        }
    }

    /// A fresh record with identifier `id`, created at `now`.
    pub fn new_at(id: RecordId, cj_event_value: &str, flow_id: &str, now: Timestamp) -> (r: AIC)
        requires
            now.in_clock_range(),
        ensures
            r.id == id,
            r.cj_event_value@ == cj_event_value@,
            r.flow_id@ == flow_id@,
            r.created == now,
            r.window_ok(),
    {
        AIC {
            id,
            cj_event_value: cj_event_value.to_string(),
            flow_id: flow_id.to_string(),
            created: now,
            expires: now.window_end(),
        }
    }

    /// A fresh record with a new random identifier, created now.
    pub fn create(cj_event_value: &str, flow_id: &str) -> (r: AIC)
        ensures
            r.cj_event_value@ == cj_event_value@,
            r.flow_id@ == flow_id@,
            r.created.in_clock_range(),
            r.window_ok(),
    {
        let id = new_v4();
        let now = now_utc();
        AIC::new_at(id, cj_event_value, flow_id, now)
    }

    /// `existing` with new values, as of `now`: the window restarts at `now`
    /// when the attribution tag changes, and is kept as it was otherwise.
    pub fn update_at(existing: &AIC, cj_event_value: &str, flow_id: &str, now: Timestamp) -> (r: AIC)
        requires
            now.in_clock_range(),
        ensures
            r.id == existing.id,
            r.cj_event_value@ == cj_event_value@,
            r.flow_id@ == flow_id@,
            existing.cj_event_value@ == cj_event_value@ ==> r.created == existing.created
                && r.expires == existing.expires,
            existing.cj_event_value@ != cj_event_value@ ==> r.created == now && r.window_ok(),
    {
        let same_tag = str_eq(existing.cj_event_value.as_str(), cj_event_value);
        let (created, expires) = if same_tag {
            (existing.created, existing.expires)
        } else {
            (now, now.window_end())
        };
        AIC {
            id: existing.id,
            cj_event_value: cj_event_value.to_string(),
            flow_id: flow_id.to_string(),
            created,
            expires,
        }
    }

    /// `existing` with new values, as of the current instant.
    pub fn update(existing: &AIC, cj_event_value: &str, flow_id: &str) -> (r: AIC)
        ensures
            r.id == existing.id,
            r.cj_event_value@ == cj_event_value@,
            r.flow_id@ == flow_id@,
            existing.cj_event_value@ == cj_event_value@ ==> r.created == existing.created
                && r.expires == existing.expires,
            existing.cj_event_value@ != cj_event_value@ ==> r.created.in_clock_range()
                && r.window_ok(),
    {
        let now = now_utc();
        AIC::update_at(existing, cj_event_value, flow_id, now)
    }
}

/// Whether two strings hold the same characters.
pub fn str_eq(a: &str, b: &str) -> (r: bool)
    ensures
        r == (a@ == b@),
{
    let n = a.unicode_len();
    if n != b.unicode_len() {
        return false;
    }
    let mut i: usize = 0;
    while i < n
        invariant
            n == a@.len(),
            n == b@.len(),
            i <= n,
            forall|j: int| 0 <= j < i ==> a@[j] == b@[j],
        decreases n - i,
    {
        if a.get_char(i) != b.get_char(i) {
            return false;
        }
        i = i + 1;
    }
    assert(a@ =~= b@);
    true
}

/// A freshly created record spans thirty days, and an update that keeps the
/// attribution tag keeps that span; an update that changes the tag opens a new
/// thirty-day span. So every record reached by creation and updates spans
/// thirty days.
pub proof fn lemma_window_kept(existing: AIC, cj_event_value: Seq<char>, updated: AIC)
    requires
        existing.window_ok(),
        updated.id == existing.id,
        updated.cj_event_value@ == cj_event_value,
        existing.cj_event_value@ == cj_event_value ==> updated.created == existing.created
            && updated.expires == existing.expires,
        existing.cj_event_value@ != cj_event_value ==> updated.window_ok(),
    ensures
        updated.window_ok(),
        existing.cj_event_value@ == cj_event_value ==> updated.created == existing.created,
{
}

} // verus!
