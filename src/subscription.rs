//! Subscription records and their decoding from warehouse rows.
use vstd::prelude::*;
use crate::aic::AIC;
use crate::clock::Timestamp;
use crate::ids::{new_v4, RecordId};

verus! {

/// One cell of a warehouse row.
#[derive(Debug)]
pub enum Value {
    Null,
    Text(String),
    Integer(i64),
    Time(Timestamp),
}

/// The columns of the warehouse's subscription-event table.
#[derive(Clone, Copy, Debug, PartialEq, Eq, Structural)]
pub enum Column {
    FlowId,
    SubscriptionId,
    ReportTimestamp,
    SubscriptionCreated,
    FxaUid,
    Quantity,
    PlanId,
    PlanCurrency,
    PlanAmount,
    Country,
}

/// Why a required cell could not be read.
#[derive(Clone, Copy, Debug, PartialEq, Eq, Structural)]
pub enum DecodingProblem {
    /// The cell is null.
    Missing,
    /// The cell holds a value of another type, or an integer out of range.
    Malformed,
}

/// A row that could not be decoded, with the first column at fault.
#[derive(Clone, Copy, Debug, PartialEq, Eq, Structural)]
pub struct DecodingError {
    pub column: Column,
    pub problem: DecodingProblem,
}

/// One warehouse row of the subscription-event table.
#[derive(Debug)]
pub struct Row {
    pub flow_id: Value,
    pub subscription_id: Value,
    pub report_timestamp: Value,
    pub subscription_created: Value,
    pub fxa_uid: Value,
    pub quantity: Value,
    pub plan_id: Value,
    pub plan_currency: Value,
    pub plan_amount: Value,
    pub country: Value,
}

/// One step in a subscription's status history.
#[derive(Debug)]
pub struct StatusEntry {
    pub status: String,
    pub t: Timestamp,
}

/// A subscription event, enriched with its attribution once reconciled.
#[derive(Debug)]
pub struct Subscription {
    pub id: RecordId,
    pub flow_id: String,
    pub subscription_id: String,
    pub report_timestamp: Timestamp,
    pub subscription_created: Timestamp,
    pub fxa_uid: String,
    pub quantity: i32,
    pub plan_id: String,
    pub plan_currency: String,
    pub plan_amount: i32,
    pub country: Option<String>,
    pub aic_id: Option<RecordId>,
    pub aic_expires: Option<Timestamp>,
    pub cj_event_value: Option<String>,
    pub status: Option<String>,
    pub status_history: Option<Vec<StatusEntry>>,
}

/// The status of a reconciled subscription that has not been reported yet.
pub open spec fn not_reported() -> Seq<char> {
    "not_reported"@
}

/// The text of the status `not_reported`.
pub fn not_reported_status() -> (r: String)
    ensures
        r@ == not_reported(),
{
    String::from_str("not_reported")
}

/// What a strict text accessor reads from a cell.
pub open spec fn text_cell(v: Value, c: Column) -> Result<Seq<char>, DecodingError> {
    match v {
        Value::Text(s) => Ok(s@),
        Value::Null => Err(DecodingError { column: c, problem: DecodingProblem::Missing }),
        _ => Err(DecodingError { column: c, problem: DecodingProblem::Malformed }),
    }
}

/// What a strict instant accessor reads from a cell.
pub open spec fn time_cell(v: Value, c: Column) -> Result<Timestamp, DecodingError> {
    match v {
        Value::Time(t) => Ok(t),
        Value::Null => Err(DecodingError { column: c, problem: DecodingProblem::Missing }),
        _ => Err(DecodingError { column: c, problem: DecodingProblem::Malformed }),
    }
}

/// What a strict 32-bit integer accessor reads from a cell.
pub open spec fn i32_cell(v: Value, c: Column) -> Result<i32, DecodingError> {
    match v {
        Value::Integer(n) => if i32::MIN <= n <= i32::MAX {
            Ok(n as i32)
        } else {
            Err(DecodingError { column: c, problem: DecodingProblem::Malformed })
        },
        Value::Null => Err(DecodingError { column: c, problem: DecodingProblem::Missing }),
        _ => Err(DecodingError { column: c, problem: DecodingProblem::Malformed }),
    }
}

/// What the lenient accessor reads from a cell: text if there is text.
pub open spec fn optional_text_cell(v: Value) -> Option<Seq<char>> {
    match v {
        Value::Text(s) => Some(s@),
        _ => None,
    }
}

impl Row {
    /// The flow identifier of a row that decodes.
    pub open spec fn flow(self) -> Seq<char> {
        text_cell(self.flow_id, Column::FlowId)->Ok_0
    }

    /// The first required column that cannot be read, in table order.
    pub open spec fn first_error(self) -> Option<DecodingError> {
        if text_cell(self.flow_id, Column::FlowId) is Err {
            Some(text_cell(self.flow_id, Column::FlowId)->Err_0)
        } else if text_cell(self.subscription_id, Column::SubscriptionId) is Err {
            Some(text_cell(self.subscription_id, Column::SubscriptionId)->Err_0)
        } else if time_cell(self.report_timestamp, Column::ReportTimestamp) is Err {
            Some(time_cell(self.report_timestamp, Column::ReportTimestamp)->Err_0)
        } else if time_cell(self.subscription_created, Column::SubscriptionCreated) is Err {
            Some(time_cell(self.subscription_created, Column::SubscriptionCreated)->Err_0)
        } else if text_cell(self.fxa_uid, Column::FxaUid) is Err {
            Some(text_cell(self.fxa_uid, Column::FxaUid)->Err_0)
        } else if i32_cell(self.quantity, Column::Quantity) is Err {
            Some(i32_cell(self.quantity, Column::Quantity)->Err_0)
        } else if text_cell(self.plan_id, Column::PlanId) is Err {
            Some(text_cell(self.plan_id, Column::PlanId)->Err_0)
        } else if text_cell(self.plan_currency, Column::PlanCurrency) is Err {
            Some(text_cell(self.plan_currency, Column::PlanCurrency)->Err_0)
        } else if i32_cell(self.plan_amount, Column::PlanAmount) is Err {
            Some(i32_cell(self.plan_amount, Column::PlanAmount)->Err_0)
        } else {
            None
        }
    }
}

impl Subscription {
    /// A draft decoded from `row` under identifier `id`: every field read from
    /// its column, and nothing yet from an attribution record.
    pub open spec fn is_draft_of(self, row: Row, id: RecordId) -> bool {
        &&& self.carries_row(row, id)
        &&& self.aic_id is None
        &&& self.aic_expires is None
        &&& self.cj_event_value is None
        &&& self.status is None
        &&& self.status_history is None
    }

    /// Identifier `id`, and every field that comes from a row read from `row`.
    pub open spec fn carries_row(self, row: Row, id: RecordId) -> bool {
        &&& self.id == id
        &&& text_cell(row.flow_id, Column::FlowId) == Ok::<Seq<char>, DecodingError>(self.flow_id@)
        &&& text_cell(row.subscription_id, Column::SubscriptionId) == Ok::<Seq<char>, DecodingError>(self.subscription_id@)
        &&& time_cell(row.report_timestamp, Column::ReportTimestamp) == Ok::<Timestamp, DecodingError>(self.report_timestamp)
        &&& time_cell(row.subscription_created, Column::SubscriptionCreated) == Ok::<Timestamp, DecodingError>(self.subscription_created)
        &&& text_cell(row.fxa_uid, Column::FxaUid) == Ok::<Seq<char>, DecodingError>(self.fxa_uid@)
        &&& i32_cell(row.quantity, Column::Quantity) == Ok::<i32, DecodingError>(self.quantity)
        &&& text_cell(row.plan_id, Column::PlanId) == Ok::<Seq<char>, DecodingError>(self.plan_id@)
        &&& text_cell(row.plan_currency, Column::PlanCurrency) == Ok::<Seq<char>, DecodingError>(self.plan_currency@)
        &&& i32_cell(row.plan_amount, Column::PlanAmount) == Ok::<i32, DecodingError>(self.plan_amount)
        &&& match self.country {
            Some(c) => optional_text_cell(row.country) == Some(c@),
            None => optional_text_cell(row.country) is None,
        }
    }
}

fn read_text(v: &Value, c: Column) -> (r: Result<String, DecodingError>)
    ensures
        match r {
            Ok(s) => text_cell(*v, c) == Ok::<Seq<char>, DecodingError>(s@),
            Err(e) => text_cell(*v, c) == Err::<Seq<char>, DecodingError>(e),
        },
{
    match v {
        Value::Text(s) => Ok(s.clone()),
        Value::Null => Err(DecodingError { column: c, problem: DecodingProblem::Missing }),
        _ => Err(DecodingError { column: c, problem: DecodingProblem::Malformed }),
    }
}

fn read_time(v: &Value, c: Column) -> (r: Result<Timestamp, DecodingError>)
    ensures
        r == time_cell(*v, c),
{
    match v {
        Value::Time(t) => Ok(*t),
        Value::Null => Err(DecodingError { column: c, problem: DecodingProblem::Missing }),
        _ => Err(DecodingError { column: c, problem: DecodingProblem::Malformed }),
    }
}

fn read_i32(v: &Value, c: Column) -> (r: Result<i32, DecodingError>)
    ensures
        r == i32_cell(*v, c),
{
    match v {
        Value::Integer(n) => if i32::MIN as i64 <= *n && *n <= i32::MAX as i64 {
            Ok(*n as i32)
        } else {
            Err(DecodingError { column: c, problem: DecodingProblem::Malformed })
        },
        Value::Null => Err(DecodingError { column: c, problem: DecodingProblem::Missing }),
        _ => Err(DecodingError { column: c, problem: DecodingProblem::Malformed }),
    }
}

fn read_optional_text(v: &Value) -> (r: Option<String>)
    ensures
        match r {
            Some(s) => optional_text_cell(*v) == Some(s@),
            None => optional_text_cell(*v) is None,
        },
{
    match v {
        Value::Text(s) => Some(s.clone()),
        _ => None,
    }
}

/// Decodes `row` into a draft with identifier `id`; fails with the first
/// required column, in table order, that is null or holds the wrong type.
pub fn subscription_from_row(row: &Row, id: RecordId) -> (r: Result<Subscription, DecodingError>)
    ensures
        match r {
            Ok(sub) => row.first_error() is None && sub.is_draft_of(*row, id),
            Err(e) => row.first_error() == Some(e),
        },
{
    let flow_id = read_text(&row.flow_id, Column::FlowId)?;
    let subscription_id = read_text(&row.subscription_id, Column::SubscriptionId)?;
    let report_timestamp = read_time(&row.report_timestamp, Column::ReportTimestamp)?;
    let subscription_created = read_time(&row.subscription_created, Column::SubscriptionCreated)?;
    let fxa_uid = read_text(&row.fxa_uid, Column::FxaUid)?;
    let quantity = read_i32(&row.quantity, Column::Quantity)?;
    let plan_id = read_text(&row.plan_id, Column::PlanId)?;
    let plan_currency = read_text(&row.plan_currency, Column::PlanCurrency)?;
    let plan_amount = read_i32(&row.plan_amount, Column::PlanAmount)?;
    let country = read_optional_text(&row.country);
    Ok(Subscription {
        id,
        flow_id,
        subscription_id,
        report_timestamp,
        subscription_created,
        fxa_uid,
        quantity,
        plan_id,
        plan_currency,
        plan_amount,
        country,
        aic_id: None,
        aic_expires: None,
        cj_event_value: None,
        status: None,
        status_history: None,
    })
}

/// Decodes `row` into a draft under a fresh random identifier.
pub fn make_subscription_from_bq_row(row: &Row) -> (r: Result<Subscription, DecodingError>)
    ensures
        match r {
            Ok(sub) => row.first_error() is None && sub.is_draft_of(*row, sub.id),
            Err(e) => row.first_error() == Some(e),
        },
{
    let id = new_v4();
    subscription_from_row(row, id)
}

} // verus!
