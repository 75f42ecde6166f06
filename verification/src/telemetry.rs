//! Accounting telemetry counters: what the ledger and reconciliation
//! surfaces report about themselves. Persistence of the counters is the
//! caller's business; this core only tracks the store path as data.

use vstd::prelude::*;

use crate::ledger::PeriodAction;
use crate::policy::PolicyDecision;

verus! {

/// Monotonic counters over the accounting surfaces, plus the latest
/// approvals snapshot.
#[derive(Debug, Clone, Copy, PartialEq, Eq, Structural)]
pub struct TelemetryCounters {
    pub reconciliation_transactions: usize,
    pub reconciliation_candidates: usize,
    pub reconciliation_write_offs: usize,
    pub period_lock_events: usize,
    pub period_lock_soft_close: usize,
    pub period_lock_close: usize,
    pub period_lock_reopen_soft: usize,
    pub period_lock_reopen_full: usize,
    pub policy_auto_post: usize,
    pub policy_needs_approval: usize,
    pub policy_reject: usize,
    pub approvals_total: usize,
    pub approvals_overdue: usize,
}

/// All counters at zero.
pub open spec fn zero_counters() -> TelemetryCounters {
    TelemetryCounters {
        reconciliation_transactions: 0,
        reconciliation_candidates: 0,
        reconciliation_write_offs: 0,
        period_lock_events: 0,
        period_lock_soft_close: 0,
        period_lock_close: 0,
        period_lock_reopen_soft: 0,
        period_lock_reopen_full: 0,
        policy_auto_post: 0,
        policy_needs_approval: 0,
        policy_reject: 0,
        approvals_total: 0,
        approvals_overdue: 0,
    }
}

impl Default for TelemetryCounters {
    fn default() -> (r: Self)
        ensures
            r == zero_counters(),
    {
        TelemetryCounters {
            reconciliation_transactions: 0,
            reconciliation_candidates: 0,
            reconciliation_write_offs: 0,
            period_lock_events: 0,
            period_lock_soft_close: 0,
            period_lock_close: 0,
            period_lock_reopen_soft: 0,
            period_lock_reopen_full: 0,
            policy_auto_post: 0,
            policy_needs_approval: 0,
            policy_reject: 0,
            approvals_total: 0,
            approvals_overdue: 0,
        }
    }
}

/// In-memory accounting telemetry with an optional path that a caller may
/// persist the counters under.
#[derive(Debug, PartialEq, Eq)]
pub struct AccountingTelemetry {
    pub counters: TelemetryCounters,
    pub store_path: Option<String>,
}

impl Clone for AccountingTelemetry {
    fn clone(&self) -> (r: Self)
        ensures
            r == *self,
    {
        AccountingTelemetry { counters: self.counters, store_path: self.store_path.clone() }
    }
}

impl Default for AccountingTelemetry {
    fn default() -> (r: Self)
        ensures
            r.counters == zero_counters(),
            r.store_path is None,
    {
        AccountingTelemetry::new()
    }
}

impl AccountingTelemetry {
    /// Fresh counters with no persistence path.
    #[must_use]
    pub fn new() -> (r: Self)
        ensures
            r.counters == zero_counters(),
            r.store_path is None,
    {
        AccountingTelemetry { counters: TelemetryCounters::default(), store_path: None }
    }

    /// Fresh counters that a caller intends to persist under `path`.
    #[must_use]
    pub fn with_store_path(path: String) -> (r: Self)
        ensures
            r.counters == zero_counters(),
            r.store_path matches Some(p) && p == path,
    {
        AccountingTelemetry { counters: TelemetryCounters::default(), store_path: Some(path) }
    }

    /// Preloaded counters (for example read back from disk) under an
    /// optional persistence path.
    #[must_use]
    pub fn from_store(counters: TelemetryCounters, store_path: Option<String>) -> (r: Self)
        ensures
            r.counters == counters,
            r.store_path == store_path,
    {
        AccountingTelemetry { counters, store_path }
    }

    /// The path the counters are persisted under, if any.
    #[must_use]
    pub fn store_path(&self) -> (r: Option<&String>)
        ensures
            match r {
                Some(p) => self.store_path matches Some(x) && x == *p,
                None => self.store_path is None,
            },
    {
        self.store_path.as_ref()
    }

    /// Adds `count` reconciled bank transactions; zero is a no-op.
    pub fn record_transactions(&mut self, count: usize)
        requires
            old(self).counters.reconciliation_transactions + count <= usize::MAX,
        ensures
            final(self).counters.reconciliation_transactions == old(
                self,
            ).counters.reconciliation_transactions + count,
            final(self).counters == (TelemetryCounters {
                reconciliation_transactions: final(self).counters.reconciliation_transactions,
                ..old(self).counters
            }),
            final(self).store_path == old(self).store_path,
    {
        if count == 0 {
            return ;
        }
        self.counters.reconciliation_transactions = self.counters.reconciliation_transactions
            + count;
    }

    /// Adds `count` proposed candidates; zero is a no-op.
    pub fn record_candidates(&mut self, count: usize)
        requires
            old(self).counters.reconciliation_candidates + count <= usize::MAX,
        ensures
            final(self).counters.reconciliation_candidates == old(
                self,
            ).counters.reconciliation_candidates + count,
            final(self).counters == (TelemetryCounters {
                reconciliation_candidates: final(self).counters.reconciliation_candidates,
                ..old(self).counters
            }),
            final(self).store_path == old(self).store_path,
    {
        if count == 0 {
            return ;
        }
        self.counters.reconciliation_candidates = self.counters.reconciliation_candidates + count;
    }

    /// Counts one write-off.
    pub fn record_write_off(&mut self)
        requires
            old(self).counters.reconciliation_write_offs < usize::MAX,
        ensures
            final(self).counters.reconciliation_write_offs == old(
                self,
            ).counters.reconciliation_write_offs + 1,
            final(self).counters == (TelemetryCounters {
                reconciliation_write_offs: final(self).counters.reconciliation_write_offs,
                ..old(self).counters
            }),
            final(self).store_path == old(self).store_path,
    {
        self.counters.reconciliation_write_offs = self.counters.reconciliation_write_offs + 1;
    }

    /// Counts one period lock event under its action.
    pub fn record_period_lock(&mut self, action: PeriodAction)
        requires
            old(self).counters.period_lock_events < usize::MAX,
            old(self).counters.period_lock_soft_close < usize::MAX,
            old(self).counters.period_lock_close < usize::MAX,
            old(self).counters.period_lock_reopen_soft < usize::MAX,
            old(self).counters.period_lock_reopen_full < usize::MAX,
        ensures
            final(self).counters.period_lock_events == old(self).counters.period_lock_events + 1,
            final(self).counters.period_lock_soft_close == old(
                self,
            ).counters.period_lock_soft_close + if action is SoftClose {
                1int
            } else {
                0int
            },
            final(self).counters.period_lock_close == old(self).counters.period_lock_close + (
            if action is Close {
                1int
            } else {
                0int
            }),
            final(self).counters.period_lock_reopen_soft == old(
                self,
            ).counters.period_lock_reopen_soft + if action is ReopenSoft {
                1int
            } else {
                0int
            },
            final(self).counters.period_lock_reopen_full == old(
                self,
            ).counters.period_lock_reopen_full + if action is ReopenFull {
                1int
            } else {
                0int
            },
            final(self).counters.reconciliation_transactions == old(
                self,
            ).counters.reconciliation_transactions,
            final(self).counters.reconciliation_candidates == old(
                self,
            ).counters.reconciliation_candidates,
            final(self).counters.reconciliation_write_offs == old(
                self,
            ).counters.reconciliation_write_offs,
            final(self).counters.policy_auto_post == old(self).counters.policy_auto_post,
            final(self).counters.policy_needs_approval == old(self).counters.policy_needs_approval,
            final(self).counters.policy_reject == old(self).counters.policy_reject,
            final(self).counters.approvals_total == old(self).counters.approvals_total,
            final(self).counters.approvals_overdue == old(self).counters.approvals_overdue,
            final(self).store_path == old(self).store_path,
    {
        self.counters.period_lock_events = self.counters.period_lock_events + 1;
        match action {
            PeriodAction::SoftClose => {
                self.counters.period_lock_soft_close = self.counters.period_lock_soft_close + 1;
            },
            PeriodAction::Close => {
                self.counters.period_lock_close = self.counters.period_lock_close + 1;
            },
            PeriodAction::ReopenSoft => {
                self.counters.period_lock_reopen_soft = self.counters.period_lock_reopen_soft + 1;
            },
            PeriodAction::ReopenFull => {
                self.counters.period_lock_reopen_full = self.counters.period_lock_reopen_full + 1;
            },
        }
    }

    /// Counts one policy decision under its outcome.
    pub fn record_policy_decision(&mut self, decision: PolicyDecision)
        requires
            old(self).counters.policy_auto_post < usize::MAX,
            old(self).counters.policy_needs_approval < usize::MAX,
            old(self).counters.policy_reject < usize::MAX,
        ensures
            final(self).counters.policy_auto_post == old(self).counters.policy_auto_post + (
            if decision is AutoPost {
                1int
            } else {
                0int
            }),
            final(self).counters.policy_needs_approval == old(
                self,
            ).counters.policy_needs_approval + if decision is NeedsApproval {
                1int
            } else {
                0int
            },
            final(self).counters.policy_reject == old(self).counters.policy_reject + (
            if decision is Reject {
                1int
            } else {
                0int
            }),
            final(self).counters.reconciliation_transactions == old(
                self,
            ).counters.reconciliation_transactions,
            final(self).counters.reconciliation_candidates == old(
                self,
            ).counters.reconciliation_candidates,
            final(self).counters.reconciliation_write_offs == old(
                self,
            ).counters.reconciliation_write_offs,
            final(self).counters.period_lock_events == old(self).counters.period_lock_events,
            final(self).counters.period_lock_soft_close == old(
                self,
            ).counters.period_lock_soft_close,
            final(self).counters.period_lock_close == old(self).counters.period_lock_close,
            final(self).counters.period_lock_reopen_soft == old(
                self,
            ).counters.period_lock_reopen_soft,
            final(self).counters.period_lock_reopen_full == old(
                self,
            ).counters.period_lock_reopen_full,
            final(self).counters.approvals_total == old(self).counters.approvals_total,
            final(self).counters.approvals_overdue == old(self).counters.approvals_overdue,
            final(self).store_path == old(self).store_path,
    {
        match decision {
            PolicyDecision::AutoPost => {
                self.counters.policy_auto_post = self.counters.policy_auto_post + 1;
            },
            PolicyDecision::NeedsApproval => {
                self.counters.policy_needs_approval = self.counters.policy_needs_approval + 1;
            },
            PolicyDecision::Reject => {
                self.counters.policy_reject = self.counters.policy_reject + 1;
            },
        }
    }

    /// Replaces the approvals snapshot; identical values change nothing.
    pub fn record_approvals_snapshot(&mut self, total: usize, overdue: usize)
        ensures
            final(self).counters.approvals_total == total,
            final(self).counters.approvals_overdue == overdue,
            final(self).counters == (TelemetryCounters {
                approvals_total: total,
                approvals_overdue: overdue,
                ..old(self).counters
            }),
            final(self).store_path == old(self).store_path,
    {
        if self.counters.approvals_total == total && self.counters.approvals_overdue == overdue {
            return ;
        }
        self.counters.approvals_total = total;
        self.counters.approvals_overdue = overdue;
    }

    /// A copy of the current counters.
    #[must_use]
    pub fn snapshot(&self) -> (r: TelemetryCounters)
        ensures
            r == self.counters,
    {
        self.counters
    }

    /// A sink over a copy of this telemetry.
    #[must_use]
    pub fn policy_sink(&self) -> (r: TelemetryPolicyEventSink)
        ensures
            r.telemetry == *self,
    {
        TelemetryPolicyEventSink { telemetry: self.clone() }
    }
}

/// Forwards policy decisions into its telemetry counters.
#[derive(Debug, PartialEq, Eq)]
pub struct TelemetryPolicyEventSink {
    pub telemetry: AccountingTelemetry,
}

impl TelemetryPolicyEventSink {
    /// Counts one decision on the sink's own counters.
    pub fn record_decision(&mut self, decision: PolicyDecision)
        requires
            old(self).telemetry.counters.policy_auto_post < usize::MAX,
            old(self).telemetry.counters.policy_needs_approval < usize::MAX,
            old(self).telemetry.counters.policy_reject < usize::MAX,
        ensures
            final(self).telemetry.counters.policy_auto_post == old(
                self,
            ).telemetry.counters.policy_auto_post + if decision is AutoPost {
                1int
            } else {
                0int
            },
            final(self).telemetry.counters.policy_needs_approval == old(
                self,
            ).telemetry.counters.policy_needs_approval + if decision is NeedsApproval {
                1int
            } else {
                0int
            },
            final(self).telemetry.counters.policy_reject == old(
                self,
            ).telemetry.counters.policy_reject + if decision is Reject {
                1int
            } else {
                0int
            },
    {
        self.telemetry.record_policy_decision(decision);
    }
}

} // verus!
