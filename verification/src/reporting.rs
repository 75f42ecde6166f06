//! Reporting and integration shapes shared by the command line and the
//! assistant surfaces: telemetry summaries, operator guidance wording,
//! demo tenants, and balanced entry suggestions.

use vstd::prelude::*;

use crate::ledger::Role;
use crate::ledger::TenantContext;
use crate::telemetry::TelemetryCounters;

verus! {

/// Telemetry counters shaped for serialized reconciliation summaries.
#[derive(Debug, Clone, Copy, PartialEq, Eq, Structural)]
pub struct ReconciliationTelemetryOutput {
    pub reconciliation_transactions: usize,
    pub reconciliation_candidates: usize,
    pub reconciliation_write_offs: usize,
    pub period_lock_events: usize,
    pub period_lock_soft_close: usize,
    pub period_lock_close: usize,
    pub period_lock_reopen_soft: usize,
    pub period_lock_reopen_full: usize,
    pub policy_auto_post: usize,
    pub policy_needs_approval: usize,
    pub policy_reject: usize,
    pub approvals_total: usize,
    pub approvals_overdue: usize,
}

impl ReconciliationTelemetryOutput {
    /// Copies the counters field for field.
    pub fn from_counters(counters: &TelemetryCounters) -> (r: Self)
        ensures
            r.reconciliation_transactions == counters.reconciliation_transactions,
            r.reconciliation_candidates == counters.reconciliation_candidates,
            r.reconciliation_write_offs == counters.reconciliation_write_offs,
            r.period_lock_events == counters.period_lock_events,
            r.period_lock_soft_close == counters.period_lock_soft_close,
            r.period_lock_close == counters.period_lock_close,
            r.period_lock_reopen_soft == counters.period_lock_reopen_soft,
            r.period_lock_reopen_full == counters.period_lock_reopen_full,
            r.policy_auto_post == counters.policy_auto_post,
            r.policy_needs_approval == counters.policy_needs_approval,
            r.policy_reject == counters.policy_reject,
            r.approvals_total == counters.approvals_total,
            r.approvals_overdue == counters.approvals_overdue,
    {
        ReconciliationTelemetryOutput {
            reconciliation_transactions: counters.reconciliation_transactions,
            reconciliation_candidates: counters.reconciliation_candidates,
            reconciliation_write_offs: counters.reconciliation_write_offs,
            period_lock_events: counters.period_lock_events,
            period_lock_soft_close: counters.period_lock_soft_close,
            period_lock_close: counters.period_lock_close,
            period_lock_reopen_soft: counters.period_lock_reopen_soft,
            period_lock_reopen_full: counters.period_lock_reopen_full,
            policy_auto_post: counters.policy_auto_post,
            policy_needs_approval: counters.policy_needs_approval,
            policy_reject: counters.policy_reject,
            approvals_total: counters.approvals_total,
            approvals_overdue: counters.approvals_overdue,
        }
    }
}

/// Ingest figures shaped for serialized summaries.
#[derive(Debug, PartialEq)]
pub struct IngestSnapshotOutput {
    pub ingested_total: usize,
    pub deduped_total: usize,
    pub duplicates_dropped: usize,
    pub last_feed_at: String,
}

/// Approvals backlog figures shaped for serialized summaries.
#[derive(Debug, PartialEq)]
pub struct ApprovalsBacklogOutput {
    pub generated_at: String,
    pub total: usize,
    pub overdue: usize,
}

/// The wording both operator surfaces use to point at a duplicate set.
pub fn duplicate_guidance_message(id: &str) -> (r: String)
    ensures
        r@ == "See CLI summary for duplicate set "@ + id@,
{
    let mut s = String::from_str("See CLI summary for duplicate set ");
    s.append(id);
    s
}

/// The service-account tenant the demo environment administers under.
pub fn demo_admin_tenant() -> (r: TenantContext)
    ensures
        r.tenant_id@ == "ledger-admin"@,
        r.user_id@ == "codex-ledger-demo"@,
        r.roles@ == seq![Role::ServiceAccount],
        r.locale matches Some(l) && l@ == "en-US"@,
{
    let mut roles: Vec<Role> = Vec::new();
    roles.push(Role::ServiceAccount);
    assert(roles@ =~= seq![Role::ServiceAccount]);
    TenantContext {
        tenant_id: String::from_str("ledger-admin"),
        user_id: String::from_str("codex-ledger-demo"),
        roles,
        locale: Some(String::from_str("en-US")),
    }
}

/// The accountant tenant the demo environment posts under, scoped to one
/// company.
pub fn demo_company_tenant(company_id: &str) -> (r: TenantContext)
    ensures
        r.tenant_id@ == company_id@,
        r.user_id@ == "codex-ledger-demo"@,
        r.roles@ == seq![Role::Accountant],
        r.locale matches Some(l) && l@ == "en-US"@,
{
    let mut roles: Vec<Role> = Vec::new();
    roles.push(Role::Accountant);
    assert(roles@ =~= seq![Role::Accountant]);
    TenantContext {
        tenant_id: company_id.to_owned(),
        user_id: String::from_str("codex-ledger-demo"),
        roles,
        locale: Some(String::from_str("en-US")),
    }
}

/// A summary of how reconciled one company is.
#[derive(Debug, PartialEq)]
pub struct ReconciliationSummary {
    pub company_id: String,
    pub matched: usize,
    pub pending: usize,
    pub last_refreshed_at_millis: Option<i64>,
}

/// A provider that reports no reconciliation activity for any company.
#[derive(Debug, PartialEq, Eq)]
pub struct NullReconciliationSummaryProvider;

impl NullReconciliationSummaryProvider {
    /// An all-zero summary for the company.
    pub fn summary(&self, company_id: &str) -> (r: ReconciliationSummary)
        ensures
            r.company_id@ == company_id@,
            r.matched == 0,
            r.pending == 0,
            r.last_refreshed_at_millis is None,
    {
        ReconciliationSummary {
            company_id: company_id.to_owned(),
            matched: 0,
            pending: 0,
            last_refreshed_at_millis: None,
        }
    }
}

// --- assistant surfaces -------------------------------------------------

/// One side of a suggested journal entry line.
#[derive(Debug, PartialEq)]
pub struct SuggestedLine {
    pub account_code: String,
    pub account_name: String,
    pub debit_minor: i64,
    pub credit_minor: i64,
}

impl Clone for SuggestedLine {
    fn clone(&self) -> (r: Self)
        ensures
            r == *self,
    {
        SuggestedLine {
            account_code: self.account_code.clone(),
            account_name: self.account_name.clone(),
            debit_minor: self.debit_minor,
            credit_minor: self.credit_minor,
        }
    }
}

/// Total debits across suggested lines.
pub open spec fn suggested_debits(lines: Seq<SuggestedLine>) -> int
    decreases lines.len(),
{
    if lines.len() == 0 {
        0
    } else {
        suggested_debits(lines.drop_last()) + lines.last().debit_minor as int
    }
}

/// Total credits across suggested lines.
pub open spec fn suggested_credits(lines: Seq<SuggestedLine>) -> int
    decreases lines.len(),
{
    if lines.len() == 0 {
        0
    } else {
        suggested_credits(lines.drop_last()) + lines.last().credit_minor as int
    }
}

/// A draft journal entry proposed from a document, with a confidence in
/// thousandths.
#[derive(Debug, PartialEq)]
pub struct JournalEntrySuggestion {
    pub lines: Vec<SuggestedLine>,
    pub memo: String,
    pub confidence_milli: u32,
    pub reasoning: String,
}

impl JournalEntrySuggestion {
    /// Total suggested debits equal total suggested credits.
    pub open spec fn spec_is_balanced(self) -> bool {
        suggested_debits(self.lines@) == suggested_credits(self.lines@)
    }

    pub fn is_balanced(&self) -> (r: bool)
        ensures
            r == self.spec_is_balanced(),
    {
        let mut debits: i128 = 0;
        let mut credits: i128 = 0;
        let mut i: usize = 0;
        while i < self.lines.len()
            invariant
                i <= self.lines@.len(),
                debits == suggested_debits(self.lines@.subrange(0, i as int)),
                credits == suggested_credits(self.lines@.subrange(0, i as int)),
                -(i as int) * 0x8000_0000_0000_0000 <= debits <= (i as int) * 0x8000_0000_0000_0000,
                -(i as int) * 0x8000_0000_0000_0000 <= credits <= (i as int)
                    * 0x8000_0000_0000_0000,
            decreases self.lines@.len() - i,
        {
            proof {
                assert(self.lines@.subrange(0, i + 1 as int).drop_last() =~= self.lines@.subrange(
                    0,
                    i as int,
                ));
                assert(self.lines@.subrange(0, i + 1 as int).last() == self.lines@[i as int]);
            }
            debits = debits + (self.lines[i].debit_minor as i128);
            credits = credits + (self.lines[i].credit_minor as i128);
            i = i + 1;
        }
        proof {
            assert(self.lines@.subrange(0, self.lines@.len() as int) =~= self.lines@);
        }
        debits == credits
    }
}

/// The document-to-suggestion agent; its providers are injected by the
/// host application.
#[derive(Debug, PartialEq, Eq)]
pub struct DocumentAgent;

impl Default for DocumentAgent {
    fn default() -> (r: Self)
        ensures
            r == DocumentAgent,
    {
        DocumentAgent::new()
    }
}

impl DocumentAgent {
    pub fn new() -> (r: Self)
        ensures
            r == DocumentAgent,
    {
        DocumentAgent
    }
}

/// What a tool invocation can fail with before it reaches the ledger.
#[derive(Debug, PartialEq, Eq)]
pub enum FunctionCallError {
    RespondToModel(String),
    MissingLocalShellCallId,
    Fatal(String),
    InvalidArgs(String),
    SerializationError(String),
}

impl Clone for FunctionCallError {
    fn clone(&self) -> (r: Self)
        ensures
            r == *self,
    {
        match self {
            FunctionCallError::RespondToModel(m) => FunctionCallError::RespondToModel(m.clone()),
            FunctionCallError::MissingLocalShellCallId => FunctionCallError::MissingLocalShellCallId,
            FunctionCallError::Fatal(m) => FunctionCallError::Fatal(m.clone()),
            FunctionCallError::InvalidArgs(m) => FunctionCallError::InvalidArgs(m.clone()),
            FunctionCallError::SerializationError(m) => FunctionCallError::SerializationError(
                m.clone(),
            ),
        }
    }
}

} // verus!
