//! Approval queue surface types: requests, stages, tasks and the queue
//! filter. The human approval workflow itself runs outside this core.

use vstd::prelude::*;

use crate::text::eq_str;
use crate::text::trim_spec;
use crate::text::trim_str;

verus! {

pub type ApprovalId = String;

pub type CompanyId = String;

pub type UserId = String;

pub type ApprovalsResult<T> = Result<T, ApprovalsError>;

#[derive(Debug, PartialEq, Eq)]
pub enum ApprovalsError {
    NotFound(String),
    AlreadyAssigned { assignee: UserId },
    NotAssigned(UserId),
    Finalized,
    Validation(String),
}

impl Clone for ApprovalsError {
    fn clone(&self) -> (r: Self)
        ensures
            r == *self,
    {
        match self {
            ApprovalsError::NotFound(m) => ApprovalsError::NotFound(m.clone()),
            ApprovalsError::AlreadyAssigned { assignee } => ApprovalsError::AlreadyAssigned {
                assignee: assignee.clone(),
            },
            ApprovalsError::NotAssigned(m) => ApprovalsError::NotAssigned(m.clone()),
            ApprovalsError::Finalized => ApprovalsError::Finalized,
            ApprovalsError::Validation(m) => ApprovalsError::Validation(m.clone()),
        }
    }
}

#[derive(Debug, Clone, Copy, PartialEq, Eq, Structural)]
pub enum ApprovalPriority {
    Low,
    Normal,
    High,
}

/// One stage of an approval chain; an empty approver list admits anyone.
#[derive(Debug, PartialEq, Eq)]
pub struct ApprovalStage {
    pub approvers: Vec<UserId>,
}

impl ApprovalStage {
    /// Whether `user_id` may act on this stage.
    #[must_use]
    pub fn allows(&self, user_id: &UserId) -> (r: bool)
        ensures
            r == (self.approvers@.len() == 0 || exists|k: int|
                0 <= k < self.approvers@.len() && (#[trigger] self.approvers@[k])@ == user_id@),
    {
        if self.approvers.len() == 0 {
            return true;
        }
        crate::text::vec_contains_str(&self.approvers, user_id.as_str())
    }
}

impl Clone for ApprovalStage {
    fn clone(&self) -> (r: Self)
        ensures
            r.approvers@ == self.approvers@,
    {
        let mut approvers: Vec<UserId> = Vec::new();
        let mut i: usize = 0;
        while i < self.approvers.len()
            invariant
                i <= self.approvers@.len(),
                approvers@ == self.approvers@.subrange(0, i as int),
            decreases self.approvers@.len() - i,
        {
            approvers.push(self.approvers[i].clone());
            assert(approvers@ =~= self.approvers@.subrange(0, i + 1 as int));
            i = i + 1;
        }
        assert(approvers@ =~= self.approvers@);
        ApprovalStage { approvers }
    }
}

#[derive(Debug, Clone, Copy, PartialEq, Eq, Structural)]
pub enum ApprovalStatus {
    Pending,
    Assigned,
    Approved,
    Declined,
}

#[derive(Debug, Clone, Copy, PartialEq, Eq, Structural)]
pub enum ApprovalDecision {
    Approved,
    Declined,
}

/// An approval demand raised for a posting or write-off.
#[derive(Debug, PartialEq)]
pub struct ApprovalRequest {
    pub id: ApprovalId,
    pub company_id: CompanyId,
    pub submitted_by: UserId,
    pub submitted_at_millis: i64,
    pub summary: String,
    pub amount_minor: i64,
    pub currency: String,
    pub priority: ApprovalPriority,
    pub sla_at_millis: Option<i64>,
    pub metadata: Option<String>,
    pub stages: Vec<ApprovalStage>,
}

impl ApprovalRequest {
    /// A request must name a summary and a currency.
    pub fn validate(&self) -> (r: ApprovalsResult<()>)
        ensures
            match r {
                Ok(_) => trim_spec(self.summary@).len() > 0 && trim_spec(self.currency@).len() > 0,
                Err(e) => if trim_spec(self.summary@).len() == 0 {
                    e matches ApprovalsError::Validation(m) && m@
                        == "approval summary must be provided"@
                } else {
                    trim_spec(self.currency@).len() == 0 && (e matches ApprovalsError::Validation(m)
                        && m@ == "approval currency must be provided"@)
                },
            },
    {
        let summary = trim_str(self.summary.as_str());
        if summary.as_str().is_empty() {
            return Err(
                ApprovalsError::Validation(String::from_str("approval summary must be provided")),
            );
        }
        let currency = trim_str(self.currency.as_str());
        if currency.as_str().is_empty() {
            return Err(
                ApprovalsError::Validation(String::from_str("approval currency must be provided")),
            );
        }
        Ok(())
    }
}

/// One recorded decision on a stage.
#[derive(Debug, PartialEq)]
pub struct DecisionRecord {
    pub decision: ApprovalDecision,
    pub decided_by: UserId,
    pub decided_at_millis: i64,
    pub reason: Option<String>,
}

impl Clone for DecisionRecord {
    fn clone(&self) -> (r: Self)
        ensures
            r == *self,
    {
        DecisionRecord {
            decision: self.decision,
            decided_by: self.decided_by.clone(),
            decided_at_millis: self.decided_at_millis,
            reason: self.reason.clone(),
        }
    }
}

/// A queued approval with its stage progress.
#[derive(Debug, PartialEq)]
pub struct ApprovalTask {
    pub request: ApprovalRequest,
    pub status: ApprovalStatus,
    pub assigned_to: Option<UserId>,
    pub decision: Option<DecisionRecord>,
    pub current_stage_index: usize,
    pub stage_decisions: Vec<Option<DecisionRecord>>,
}

impl ApprovalTask {
    /// Wraps a request as a pending task, giving a request with no stages
    /// one open stage, with one undecided slot per stage.
    pub fn new(request: ApprovalRequest) -> (r: Self)
        ensures
            r.status is Pending,
            r.assigned_to is None,
            r.decision is None,
            r.current_stage_index == 0,
            r.request.stages@.len() == if request.stages@.len() == 0 {
                1int
            } else {
                request.stages@.len() as int
            },
            r.stage_decisions@.len() == r.request.stages@.len(),
            forall|k: int| 0 <= k < r.stage_decisions@.len() ==> (#[trigger] r.stage_decisions@[k])
                is None,
    {
        let mut request = request;
        if request.stages.len() == 0 {
            request.stages.push(ApprovalStage { approvers: Vec::new() });
        }
        let stage_count = request.stages.len();
        let mut stage_decisions: Vec<Option<DecisionRecord>> = Vec::new();
        let mut i: usize = 0;
        while i < stage_count
            invariant
                i <= stage_count,
                stage_decisions@.len() == i,
                forall|k: int| 0 <= k < i ==> (#[trigger] stage_decisions@[k]) is None,
            decreases stage_count - i,
        {
            stage_decisions.push(None);
            i = i + 1;
        }
        ApprovalTask {
            request,
            status: ApprovalStatus::Pending,
            assigned_to: None,
            decision: None,
            current_stage_index: 0,
            stage_decisions,
        }
    }

    /// Approved and declined tasks take no further transitions.
    pub open spec fn spec_is_finalized(self) -> bool {
        self.status is Approved || self.status is Declined
    }

    pub fn is_finalized(&self) -> (r: bool)
        ensures
            r == self.spec_is_finalized(),
    {
        match self.status {
            ApprovalStatus::Approved | ApprovalStatus::Declined => true,
            _ => false,
        }
    }

    /// A live task whose deadline has passed.
    pub fn is_overdue(&self, now_millis: i64) -> (r: bool)
        ensures
            r == (!self.spec_is_finalized() && (self.request.sla_at_millis matches Some(d) && d
                < now_millis)),
    {
        if self.is_finalized() {
            return false;
        }
        match self.request.sla_at_millis {
            Some(deadline) => deadline < now_millis,
            None => false,
        }
    }
}

/// Narrows an approval queue listing by company, assignee and status.
#[derive(Debug, PartialEq)]
pub struct QueueFilter {
    pub company_id: Option<CompanyId>,
    pub assignee: Option<UserId>,
    pub status: Option<ApprovalStatus>,
}

impl Default for QueueFilter {
    fn default() -> (r: Self)
        ensures
            r.company_id is None,
            r.assignee is None,
            r.status is None,
    {
        QueueFilter { company_id: None, assignee: None, status: None }
    }
}

impl QueueFilter {
    /// Whether the task passes every set criterion.
    pub fn matches(&self, task: &ApprovalTask) -> (r: bool)
        ensures
            r == ((match self.company_id {
                Some(c) => task.request.company_id@ == c@,
                None => true,
            }) && (match self.assignee {
                Some(a) => task.assigned_to matches Some(x) && x@ == a@,
                None => true,
            }) && (match self.status {
                Some(s) => task.status == s,
                None => true,
            })),
    {
        match &self.company_id {
            Some(company_id) => {
                if !eq_str(task.request.company_id.as_str(), company_id.as_str()) {
                    return false;
                }
            },
            None => {},
        }
        match &self.assignee {
            Some(assignee) => {
                match &task.assigned_to {
                    Some(current) => {
                        if !eq_str(current.as_str(), assignee.as_str()) {
                            return false;
                        }
                    },
                    None => {
                        return false;
                    },
                }
            },
            None => {},
        }
        match self.status {
            Some(status) => task.status == status,
            None => true,
        }
    }
}

/// One decision handed to the queue.
#[derive(Debug, PartialEq)]
pub struct DecisionInput {
    pub decided_by: UserId,
    pub decision: ApprovalDecision,
    pub reason: Option<String>,
}

impl Clone for DecisionInput {
    fn clone(&self) -> (r: Self)
        ensures
            r == *self,
    {
        DecisionInput {
            decided_by: self.decided_by.clone(),
            decision: self.decision,
            reason: self.reason.clone(),
        }
    }
}

} // verus!
