//! Policy-engine surface types: the decision taxonomy and the leaf
//! context and sink shapes that callers of the posting pipeline consume.

use vstd::prelude::*;

verus! {

pub type ProposalId = String;

pub type PolicyResult<T> = Result<T, PolicyError>;

#[derive(Debug, PartialEq, Eq)]
pub enum PolicyError {
    Validation(String),
    Storage(String),
}

impl Clone for PolicyError {
    fn clone(&self) -> (r: Self)
        ensures
            r == *self,
    {
        match self {
            PolicyError::Validation(m) => PolicyError::Validation(m.clone()),
            PolicyError::Storage(m) => PolicyError::Storage(m.clone()),
        }
    }
}

/// What the policy engine decides for a posting proposal.
#[derive(Debug, Clone, Copy, PartialEq, Eq, Structural)]
pub enum PolicyDecision {
    AutoPost,
    NeedsApproval,
    Reject,
}

/// Who asks, for which company.
#[derive(Debug, PartialEq)]
pub struct PolicyContext {
    pub company_id: String,
    pub actor: String,
}

impl Clone for PolicyContext {
    fn clone(&self) -> (r: Self)
        ensures
            r == *self,
    {
        PolicyContext { company_id: self.company_id.clone(), actor: self.actor.clone() }
    }
}

/// A sink that discards policy evaluation events.
#[derive(Debug, PartialEq, Eq)]
pub struct NoopPolicyEventSink;

impl Default for NoopPolicyEventSink {
    fn default() -> (r: Self)
        ensures
            r == NoopPolicyEventSink,
    {
        NoopPolicyEventSink
    }
}

/// Connection settings of a database-backed policy store; the queries
/// themselves live outside this core.
#[derive(Debug, PartialEq, Eq)]
pub struct PostgresPolicyStore {
    pub connection_string: String,
}

impl PostgresPolicyStore {
    #[must_use]
    pub fn new(connection_string: String) -> (r: Self)
        ensures
            r.connection_string == connection_string,
    {
        PostgresPolicyStore { connection_string }
    }
}

} // verus!
