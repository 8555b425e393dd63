use cjms::aic::{str_eq, AIC};
use cjms::clock::{now_utc, Timestamp};
use cjms::ids::{new_v4, RecordId};
use cjms::pipeline::{
    advance, attach_attribution, insert_outcome, start, Event, Failure, InsertFailure,
    LookupFailure, RowOutcome, Stage,
};
use cjms::subscription::{not_reported_status, Row, Value};

const DAY: i128 = 86_400_000_000_000;

fn text(s: &str) -> Value {
    Value::Text(s.to_string())
}

fn row() -> Row {
    Row {
        flow_id: text("f1"),
        subscription_id: text("s1"),
        report_timestamp: Value::Time(Timestamp { unix_nanos: 1 }),
        subscription_created: Value::Time(Timestamp { unix_nanos: 1 }),
        fxa_uid: text("u1"),
        quantity: Value::Integer(1),
        plan_id: text("p1"),
        plan_currency: text("usd"),
        plan_amount: Value::Integer(999),
        country: text("US"),
    }
}

fn record() -> AIC {
    AIC {
        id: RecordId { bits: 0xA },
        cj_event_value: "cj1".to_string(),
        flow_id: "f1".to_string(),
        created: Timestamp { unix_nanos: 0 },
        expires: Timestamp { unix_nanos: 30 * DAY },
    }
}

fn resolving() -> Stage {
    start(&row(), RecordId { bits: 1 })
}

fn archiving() -> Stage {
    advance(resolving(), Event::LookedUp(Ok(record())))
}

fn retiring() -> Stage {
    advance(archiving(), Event::Archived(true))
}

#[test]
fn start_decodes_or_finishes() {
    assert!(matches!(resolving(), Stage::Resolving(_)));
    let mut r = row();
    r.flow_id = Value::Null;
    assert!(matches!(
        start(&r, RecordId { bits: 1 }),
        Stage::Finished(RowOutcome::Skipped(Failure::Decoding(_)))
    ));
}

#[test]
fn lookup_attaches_attribution() {
    match archiving() {
        Stage::Archiving(sub, rec) => {
            assert_eq!(sub.aic_id, Some(RecordId { bits: 0xA }));
            assert_eq!(sub.aic_expires, Some(Timestamp { unix_nanos: 30 * DAY }));
            assert_eq!(sub.cj_event_value.as_deref(), Some("cj1"));
            assert_eq!(rec.id, RecordId { bits: 0xA });
        }
        other => panic!("unexpected stage {:?}", other),
    }
}

#[test]
fn lookup_failures_skip() {
    let s = advance(resolving(), Event::LookedUp(Err(LookupFailure::NotFound)));
    assert!(matches!(s, Stage::Finished(RowOutcome::Skipped(Failure::NotFound))));
    let s = advance(resolving(), Event::LookedUp(Err(LookupFailure::Unavailable)));
    assert!(matches!(s, Stage::Finished(RowOutcome::Skipped(Failure::Lookup))));
}

#[test]
fn archive_failure_skips_before_deletion() {
    let s = advance(archiving(), Event::Archived(false));
    assert!(matches!(s, Stage::Finished(RowOutcome::Skipped(Failure::ArchiveWrite))));
    assert!(matches!(retiring(), Stage::Retiring(_, _)));
}

#[test]
fn delete_failure_is_fatal() {
    let s = advance(retiring(), Event::Retired(false, Timestamp { unix_nanos: 5 }));
    assert!(matches!(s, Stage::Finished(RowOutcome::Fatal)));
}

#[test]
fn retirement_assembles_the_subscription() {
    let now = Timestamp { unix_nanos: 42 };
    match advance(retiring(), Event::Retired(true, now)) {
        Stage::Writing(sub) => {
            assert_eq!(sub.status.as_deref(), Some("not_reported"));
            let h = sub.status_history.unwrap();
            assert_eq!(h.len(), 1);
            assert_eq!(h[0].status, "not_reported");
            assert_eq!(h[0].t, now);
            assert_eq!(sub.aic_id, Some(RecordId { bits: 0xA }));
        }
        other => panic!("unexpected stage {:?}", other),
    }
}

#[test]
fn insert_results_are_classified() {
    assert_eq!(insert_outcome(Ok(())), RowOutcome::Persisted);
    assert_eq!(
        insert_outcome(Err(InsertFailure::Uniqueness)),
        RowOutcome::Skipped(Failure::UniquenessViolation)
    );
    assert_eq!(insert_outcome(Err(InsertFailure::Other)), RowOutcome::Skipped(Failure::Storage));
    let writing = advance(retiring(), Event::Retired(true, Timestamp { unix_nanos: 1 }));
    let s = advance(writing, Event::Inserted(Err(InsertFailure::Uniqueness)));
    assert!(matches!(s, Stage::Finished(RowOutcome::Skipped(Failure::UniquenessViolation))));
}

#[test]
fn unrelated_event_leaves_stage() {
    let s = advance(resolving(), Event::Archived(true));
    assert!(matches!(s, Stage::Resolving(_)));
    let s = advance(Stage::Finished(RowOutcome::Persisted), Event::Inserted(Ok(())));
    assert!(matches!(s, Stage::Finished(RowOutcome::Persisted)));
}

#[test]
fn attach_keeps_draft_fields() {
    let draft = match resolving() {
        Stage::Resolving(d) => d,
        _ => unreachable!(),
    };
    let sub = attach_attribution(draft, &record());
    assert_eq!(sub.flow_id, "f1");
    assert_eq!(sub.id, RecordId { bits: 1 });
    assert!(sub.status.is_none());
}

#[test]
fn new_record_spans_thirty_days() {
    let now = Timestamp { unix_nanos: 1_000 };
    let r = AIC::new_at(RecordId { bits: 9 }, "cj", "flow", now);
    assert_eq!(r.created, now);
    assert_eq!(r.expires, Timestamp { unix_nanos: 1_000 + 2_592_000_000_000_000 });
    assert_eq!(r.cj_event_value, "cj");
    assert_eq!(r.flow_id, "flow");
}

#[test]
fn update_with_same_tag_keeps_window() {
    let existing = record();
    let later = Timestamp { unix_nanos: 10 * DAY };
    let r = AIC::update_at(&existing, "cj1", "f9", later);
    assert_eq!(r.id, existing.id);
    assert_eq!(r.flow_id, "f9");
    assert_eq!(r.created, existing.created);
    assert_eq!(r.expires, existing.expires);
}

#[test]
fn update_with_new_tag_restarts_window() {
    let existing = record();
    let later = Timestamp { unix_nanos: 10 * DAY };
    let r = AIC::update_at(&existing, "cj2", "f1", later);
    assert_eq!(r.created, later);
    assert_eq!(r.expires, Timestamp { unix_nanos: 40 * DAY });
    assert_eq!(r.cj_event_value, "cj2");
}

#[test]
fn create_and_update_use_the_clock() {
    let r = AIC::create("cj", "flow");
    assert_eq!(r.expires.unix_nanos - r.created.unix_nanos, 30 * DAY);
    assert!(r.created.unix_nanos > 1_600_000_000_000_000_000);
    let u = AIC::update(&r, "other", "flow");
    assert_eq!(u.id, r.id);
    assert_eq!(u.expires.unix_nanos - u.created.unix_nanos, 30 * DAY);
    assert!(u.created.unix_nanos >= r.created.unix_nanos);
    let same = AIC::update(&r, "cj", "flow2");
    assert_eq!(same.created, r.created);
}

#[test]
fn wrappers_give_fresh_values() {
    assert!(now_utc().unix_nanos > 1_600_000_000_000_000_000);
    let a = new_v4();
    assert_ne!(a, new_v4());
    assert_eq!((a.bits >> 76) & 0xf, 4);
    assert_eq!(RecordId::from_u128(5).bits, 5);
    assert_eq!(Timestamp::from_unix_nanos(-3).unix_nanos, -3);
    assert_eq!(
        Timestamp { unix_nanos: 0 }.window_end(),
        Timestamp { unix_nanos: 30 * DAY }
    );
}

#[test]
fn strings_compare_by_characters() {
    assert!(str_eq("abc", "abc"));
    assert!(!str_eq("abc", "abd"));
    assert!(!str_eq("ab", "abc"));
    assert!(str_eq("", ""));
    assert_eq!(not_reported_status(), "not_reported");
}
