use cjms::clock::Timestamp;
use cjms::ids::RecordId;
use cjms::subscription::{
    make_subscription_from_bq_row, subscription_from_row, Column, DecodingError, DecodingProblem,
    Row, Value,
};

fn text(s: &str) -> Value {
    Value::Text(s.to_string())
}

fn row() -> Row {
    Row {
        flow_id: text("f1"),
        subscription_id: text("s1"),
        report_timestamp: Value::Time(Timestamp { unix_nanos: 10 }),
        subscription_created: Value::Time(Timestamp { unix_nanos: 20 }),
        fxa_uid: text("u1"),
        quantity: Value::Integer(2),
        plan_id: text("p1"),
        plan_currency: text("eur"),
        plan_amount: Value::Integer(-5),
        country: Value::Null,
    }
}

fn error(column: Column, problem: DecodingProblem) -> DecodingError {
    DecodingError { column, problem }
}

#[test]
fn decodes_every_column() {
    let sub = subscription_from_row(&row(), RecordId { bits: 3 }).unwrap();
    assert_eq!(sub.id, RecordId { bits: 3 });
    assert_eq!(sub.flow_id, "f1");
    assert_eq!(sub.subscription_id, "s1");
    assert_eq!(sub.report_timestamp, Timestamp { unix_nanos: 10 });
    assert_eq!(sub.subscription_created, Timestamp { unix_nanos: 20 });
    assert_eq!(sub.fxa_uid, "u1");
    assert_eq!(sub.quantity, 2);
    assert_eq!(sub.plan_id, "p1");
    assert_eq!(sub.plan_currency, "eur");
    assert_eq!(sub.plan_amount, -5);
    assert_eq!(sub.country, None);
    assert!(sub.aic_id.is_none() && sub.aic_expires.is_none() && sub.cj_event_value.is_none());
    assert!(sub.status.is_none() && sub.status_history.is_none());
}

#[test]
fn country_is_lenient() {
    let mut r = row();
    r.country = Value::Integer(4);
    assert_eq!(subscription_from_row(&r, RecordId { bits: 0 }).unwrap().country, None);
    r.country = text("DE");
    assert_eq!(
        subscription_from_row(&r, RecordId { bits: 0 }).unwrap().country.as_deref(),
        Some("DE")
    );
}

#[test]
fn missing_flow_id_is_reported_first() {
    let mut r = row();
    r.flow_id = Value::Null;
    r.plan_id = Value::Null;
    let e = subscription_from_row(&r, RecordId { bits: 0 }).unwrap_err();
    assert_eq!(e, error(Column::FlowId, DecodingProblem::Missing));
}

#[test]
fn wrong_types_are_malformed() {
    let mut r = row();
    r.report_timestamp = text("yesterday");
    let e = subscription_from_row(&r, RecordId { bits: 0 }).unwrap_err();
    assert_eq!(e, error(Column::ReportTimestamp, DecodingProblem::Malformed));
    let mut r = row();
    r.fxa_uid = Value::Integer(1);
    let e = subscription_from_row(&r, RecordId { bits: 0 }).unwrap_err();
    assert_eq!(e, error(Column::FxaUid, DecodingProblem::Malformed));
}

#[test]
fn integers_must_fit_in_32_bits() {
    let mut r = row();
    r.plan_amount = Value::Integer(2_147_483_648);
    let e = subscription_from_row(&r, RecordId { bits: 0 }).unwrap_err();
    assert_eq!(e, error(Column::PlanAmount, DecodingProblem::Malformed));
    r.plan_amount = Value::Integer(-2_147_483_648);
    assert_eq!(subscription_from_row(&r, RecordId { bits: 0 }).unwrap().plan_amount, i32::MIN);
}

#[test]
fn each_required_column_can_be_missing() {
    let cases: Vec<(Column, fn(&mut Row))> = vec![
        (Column::SubscriptionId, |r| r.subscription_id = Value::Null),
        (Column::SubscriptionCreated, |r| r.subscription_created = Value::Null),
        (Column::Quantity, |r| r.quantity = Value::Null),
        (Column::PlanCurrency, |r| r.plan_currency = Value::Null),
    ];
    for (column, clear) in cases {
        let mut r = row();
        clear(&mut r);
        let e = subscription_from_row(&r, RecordId { bits: 0 }).unwrap_err();
        assert_eq!(e, error(column, DecodingProblem::Missing));
    }
}

#[test]
fn fresh_drafts_get_random_version_4_ids() {
    let a = make_subscription_from_bq_row(&row()).unwrap();
    let b = make_subscription_from_bq_row(&row()).unwrap();
    assert_ne!(a.id, b.id);
    assert_eq!((a.id.bits >> 76) & 0xf, 4);
    assert_eq!(a.flow_id, "f1");
}
