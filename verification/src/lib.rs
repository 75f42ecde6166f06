//! Verified core of a multi-tenant double-entry accounting backend.
//!
//! The crate is organised around two halves that share only plain string
//! identifiers: a ledger service (chart of accounts, posting, period locks,
//! reversals, audit trail) and a reconciliation service (match candidates,
//! session state machine, scoring). Leaf modules hold the value types and
//! request/response shapes that surround them.

pub mod approvals;
pub mod bank;
pub mod docs;
pub mod ledger;
pub mod ledger_service;
pub mod policy;
pub mod reconcile;
pub mod reporting;
pub mod support;
pub mod telemetry;
pub mod tenancy;
pub mod text;

pub use text::format_currency;
pub use text::format_minor;
