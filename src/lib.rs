//! Reconciliation of subscription events with short-lived attribution records.

pub mod aic;
pub mod clock;
pub mod ids;
pub mod memory;
pub mod pipeline;
pub mod subscription;
