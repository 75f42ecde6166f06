//! Reconciliation sessions and match candidates: the candidate lifecycle
//! state machine that disposes proposed pairings of bank transactions and
//! journal entries.

use vstd::prelude::*;

use crate::text::eq_str;

verus! {

pub type SessionId = String;

pub type CandidateId = String;

pub type ReconcileResult<T> = Result<T, ReconcileError>;

#[derive(Debug, PartialEq, Eq)]
pub enum ReconcileError {
    SessionNotFound(SessionId),
    CandidateNotFound(CandidateId),
    InvalidTransition(String),
    Storage(String),
}

/// The four error classes of the reconciliation service.
#[derive(Debug, Clone, Copy, PartialEq, Eq, Structural)]
pub enum RecErrKind {
    SessionNotFound,
    CandidateNotFound,
    InvalidTransition,
    Storage,
}

/// Holds when `e` is the `k` variant carrying exactly the payload `msg`.
pub open spec fn rec_err_is(e: ReconcileError, k: RecErrKind, msg: Seq<char>) -> bool {
    match e {
        ReconcileError::SessionNotFound(m) => k == RecErrKind::SessionNotFound && m@ == msg,
        ReconcileError::CandidateNotFound(m) => k == RecErrKind::CandidateNotFound && m@ == msg,
        ReconcileError::InvalidTransition(m) => k == RecErrKind::InvalidTransition && m@ == msg,
        ReconcileError::Storage(m) => k == RecErrKind::Storage && m@ == msg,
    }
}

impl ReconcileError {
    pub open spec fn kind(self) -> RecErrKind {
        match self {
            ReconcileError::SessionNotFound(_) => RecErrKind::SessionNotFound,
            ReconcileError::CandidateNotFound(_) => RecErrKind::CandidateNotFound,
            ReconcileError::InvalidTransition(_) => RecErrKind::InvalidTransition,
            ReconcileError::Storage(_) => RecErrKind::Storage,
        }
    }

    /// The payload string carried by any variant.
    pub fn message(&self) -> (r: &String)
        ensures
            rec_err_is(*self, self.kind(), r@),
    {
        match self {
            ReconcileError::SessionNotFound(m) => m,
            ReconcileError::CandidateNotFound(m) => m,
            ReconcileError::InvalidTransition(m) => m,
            ReconcileError::Storage(m) => m,
        }
    }
}

impl Clone for ReconcileError {
    fn clone(&self) -> (r: Self)
        ensures
            r == *self,
    {
        match self {
            ReconcileError::SessionNotFound(m) => ReconcileError::SessionNotFound(m.clone()),
            ReconcileError::CandidateNotFound(m) => ReconcileError::CandidateNotFound(m.clone()),
            ReconcileError::InvalidTransition(m) => ReconcileError::InvalidTransition(m.clone()),
            ReconcileError::Storage(m) => ReconcileError::Storage(m.clone()),
        }
    }
}

#[derive(Debug, Clone, Copy, PartialEq, Eq, Structural)]
pub enum CandidateStatus {
    Pending,
    Accepted,
    PartiallyAccepted,
    Rejected,
    WrittenOff,
}

/// The status name as the service prints it in transition errors.
pub open spec fn candidate_status_name(s: CandidateStatus) -> Seq<char> {
    match s {
        CandidateStatus::Pending => "Pending"@,
        CandidateStatus::Accepted => "Accepted"@,
        CandidateStatus::PartiallyAccepted => "PartiallyAccepted"@,
        CandidateStatus::Rejected => "Rejected"@,
        CandidateStatus::WrittenOff => "WrittenOff"@,
    }
}

#[derive(Debug, Clone, Copy, PartialEq, Eq, Structural)]
pub enum SessionStatus {
    Open,
    PendingPartial,
    Closed,
}

/// A proposed pairing of one bank transaction and one journal entry,
/// with a score in thousandths (zero to one thousand).
#[derive(Debug, PartialEq)]
pub struct MatchCandidate {
    pub id: CandidateId,
    pub transaction_id: String,
    pub journal_entry_id: String,
    pub proposed_at_millis: i64,
    pub score_milli: u32,
    pub status: CandidateStatus,
    pub group_id: Option<String>,
    pub write_off_reason: Option<String>,
}

impl Clone for MatchCandidate {
    fn clone(&self) -> (r: Self)
        ensures
            r == *self,
    {
        MatchCandidate {
            id: self.id.clone(),
            transaction_id: self.transaction_id.clone(),
            journal_entry_id: self.journal_entry_id.clone(),
            proposed_at_millis: self.proposed_at_millis,
            score_milli: self.score_milli,
            status: self.status,
            group_id: self.group_id.clone(),
            write_off_reason: self.write_off_reason.clone(),
        }
    }
}

/// `b` is `a` with only its status and write-off reason possibly changed.
pub open spec fn same_candidate_core(a: MatchCandidate, b: MatchCandidate) -> bool {
    &&& b.id == a.id
    &&& b.transaction_id == a.transaction_id
    &&& b.journal_entry_id == a.journal_entry_id
    &&& b.proposed_at_millis == a.proposed_at_millis
    &&& b.score_milli == a.score_milli
    &&& b.group_id == a.group_id
}

#[derive(Debug, PartialEq)]
pub struct ReconciliationSession {
    pub id: SessionId,
    pub company_id: String,
    pub status: SessionStatus,
    pub opened_at_millis: i64,
    pub candidates: Vec<MatchCandidate>,
}

/// Value equality of sessions; candidates compared element for element.
pub open spec fn session_eqv(a: ReconciliationSession, b: ReconciliationSession) -> bool {
    &&& a.id == b.id
    &&& a.company_id == b.company_id
    &&& a.status == b.status
    &&& a.opened_at_millis == b.opened_at_millis
    &&& a.candidates@ == b.candidates@
}

impl Clone for ReconciliationSession {
    fn clone(&self) -> (r: Self)
        ensures
            session_eqv(r, *self),
    {
        let mut candidates: Vec<MatchCandidate> = Vec::new();
        let mut i: usize = 0;
        while i < self.candidates.len()
            invariant
                i <= self.candidates@.len(),
                candidates@ == self.candidates@.subrange(0, i as int),
            decreases self.candidates@.len() - i,
        {
            candidates.push(self.candidates[i].clone());
            assert(candidates@ =~= self.candidates@.subrange(0, i + 1 as int));
            i = i + 1;
        }
        assert(candidates@ =~= self.candidates@);
        ReconciliationSession {
            id: self.id.clone(),
            company_id: self.company_id.clone(),
            status: self.status,
            opened_at_millis: self.opened_at_millis,
            candidates,
        }
    }
}

/// First index of the candidate with this id, searching from `j`; `-1`
/// if none.
pub open spec fn cand_idx_from(s: Seq<MatchCandidate>, id: Seq<char>, j: int) -> int
    decreases s.len() - j when 0 <= j <= s.len()
{
    if j >= s.len() {
        -1
    } else if s[j].id@ == id {
        j
    } else {
        cand_idx_from(s, id, j + 1)
    }
}

pub open spec fn cand_idx(s: Seq<MatchCandidate>, id: Seq<char>) -> int {
    cand_idx_from(s, id, 0)
}

proof fn lemma_cand_idx(s: Seq<MatchCandidate>, id: Seq<char>, j: int, i: int)
    requires
        0 <= j <= i <= s.len(),
        forall|k: int| j <= k < i ==> s[k].id@ != id,
        i == s.len() || s[i].id@ == id,
    ensures
        cand_idx_from(s, id, j) == if i == s.len() {
            -1int
        } else {
            i
        },
    decreases i - j,
{
    if j < i {
        lemma_cand_idx(s, id, j + 1, i);
    }
}

fn find_candidate(v: &Vec<MatchCandidate>, id: &str) -> (r: Option<usize>)
    ensures
        match r {
            Some(i) => cand_idx(v@, id@) == i && i < v@.len() && v@[i as int].id@ == id@,
            None => cand_idx(v@, id@) == -1 && forall|k: int| 0 <= k < v@.len() ==> v@[k].id@ != id@,
        },
{
    let mut i: usize = 0;
    while i < v.len()
        invariant
            i <= v@.len(),
            forall|k: int| 0 <= k < i ==> v@[k].id@ != id@,
        decreases v@.len() - i,
    {
        if eq_str(v[i].id.as_str(), id) {
            proof {
                lemma_cand_idx(v@, id@, 0, i as int);
            }
            return Some(i);
        }
        i = i + 1;
    }
    proof {
        lemma_cand_idx(v@, id@, 0, v@.len() as int);
    }
    None
}

/// Whether some id in `ids` reads `id`.
pub open spec fn id_in_list(ids: Seq<String>, id: Seq<char>) -> bool {
    exists|k: int| 0 <= k < ids.len() && (#[trigger] ids[k])@ == id
}

/// The candidates whose id stands in `ids`, kept in order.
pub open spec fn selected(cands: Seq<MatchCandidate>, ids: Seq<String>) -> Seq<MatchCandidate>
    decreases cands.len(),
{
    if cands.len() == 0 {
        Seq::empty()
    } else {
        let rest = selected(cands.drop_last(), ids);
        if id_in_list(ids, cands.last().id@) {
            rest.push(cands.last())
        } else {
            rest
        }
    }
}

/// The error a partial acceptance reports while walking the candidates
/// from `j`, if any: a supplied candidate outside the group, or one that
/// is not pending.
pub open spec fn partial_scan_err(
    cands: Seq<MatchCandidate>,
    ids: Seq<String>,
    group: Seq<char>,
    j: int,
) -> Option<(RecErrKind, Seq<char>)>
    decreases cands.len() - j when 0 <= j <= cands.len()
{
    if j >= cands.len() {
        None
    } else if id_in_list(ids, cands[j].id@) {
        if !(cands[j].group_id matches Some(g) && g@ == group) {
            Some(
                (
                    RecErrKind::InvalidTransition,
                    "candidate "@ + cands[j].id@ + " does not belong to group "@ + group,
                ),
            )
        } else if !(cands[j].status is Pending) {
            Some(
                (RecErrKind::InvalidTransition, "candidate "@ + cands[j].id@ + " is not pending"@),
            )
        } else {
            partial_scan_err(cands, ids, group, j + 1)
        }
    } else {
        partial_scan_err(cands, ids, group, j + 1)
    }
}

/// The error a partial acceptance reports for the first supplied id,
/// scanning `ids` from `j`, that names no candidate of the session, if
/// any: every supplied id must exist.
pub open spec fn absent_id_err(
    cands: Seq<MatchCandidate>,
    ids: Seq<String>,
    j: int,
) -> Option<(RecErrKind, Seq<char>)>
    decreases ids.len() - j when 0 <= j <= ids.len()
{
    if j >= ids.len() {
        None
    } else if cand_idx(cands, ids[j]@) == -1 {
        Some(
            (
                RecErrKind::InvalidTransition,
                "candidate "@ + ids[j]@ + " does not exist in the session"@,
            ),
        )
    } else {
        absent_id_err(cands, ids, j + 1)
    }
}

impl ReconciliationSession {
    /// A closed session takes no further candidate transitions.
    pub open spec fn spec_mutable(self) -> bool {
        !(self.status is Closed)
    }

    /// Refuses every mutation of a closed session.
    pub fn ensure_mutable(&self) -> (r: ReconcileResult<()>)
        ensures
            match r {
                Ok(_) => self.spec_mutable(),
                Err(e) => !self.spec_mutable() && rec_err_is(
                    e,
                    RecErrKind::InvalidTransition,
                    "session "@ + self.id@ + " is closed"@,
                ),
            },
    {
        match self.status {
            SessionStatus::Closed => {
                let mut msg = String::from_str("session ");
                msg.append(self.id.as_str());
                msg.append(" is closed");
                Err(ReconcileError::InvalidTransition(msg))
            },
            _ => Ok(()),
        }
    }

    /// Appends a candidate to a session that is not closed.
    pub fn add_candidate(&mut self, candidate: MatchCandidate) -> (r: ReconcileResult<()>)
        ensures
            match r {
                Ok(_) => {
                    &&& old(self).spec_mutable()
                    &&& final(self).candidates@ == old(self).candidates@.push(candidate)
                    &&& final(self).id == old(self).id
                    &&& final(self).company_id == old(self).company_id
                    &&& final(self).status == old(self).status
                    &&& final(self).opened_at_millis == old(self).opened_at_millis
                },
                Err(e) => {
                    &&& !old(self).spec_mutable()
                    &&& rec_err_is(
                        e,
                        RecErrKind::InvalidTransition,
                        "session "@ + old(self).id@ + " is closed"@,
                    )
                    &&& *final(self) == *old(self)
                },
            },
    {
        match self.ensure_mutable() {
            Ok(_) => {},
            Err(e) => {
                return Err(e);
            },
        }
        self.candidates.push(candidate);
        Ok(())
    }

    /// Accepts the given candidate (which must be pending or partially
    /// accepted), auto-rejects every other pending or partially accepted
    /// candidate, and closes the session.
    pub fn accept(&mut self, candidate_id: &str) -> (r: ReconcileResult<MatchCandidate>)
        ensures
            match r {
                Ok(c) => {
                    let ci = cand_idx(old(self).candidates@, candidate_id@);
                    &&& old(self).spec_mutable()
                    &&& ci != -1
                    &&& (old(self).candidates@[ci].status is Pending || old(
                        self,
                    ).candidates@[ci].status is PartiallyAccepted)
                    &&& final(self).status is Closed
                    &&& final(self).id == old(self).id
                    &&& final(self).company_id == old(self).company_id
                    &&& final(self).opened_at_millis == old(self).opened_at_millis
                    &&& final(self).candidates@.len() == old(self).candidates@.len()
                    &&& same_candidate_core(old(self).candidates@[ci], final(self).candidates@[ci])
                    &&& final(self).candidates@[ci].status is Accepted
                    &&& final(self).candidates@[ci].write_off_reason is None
                    &&& forall|k: int|
                        0 <= k < old(self).candidates@.len() && k != ci ==> {
                            let before = old(self).candidates@[k];
                            let after = #[trigger] final(self).candidates@[k];
                            if before.status is Pending || before.status is PartiallyAccepted {
                                same_candidate_core(before, after) && after.status is Rejected
                                    && after.write_off_reason == before.write_off_reason
                            } else {
                                after == before
                            }
                        }
                    &&& c == final(self).candidates@[ci]
                },
                Err(e) => {
                    &&& *final(self) == *old(self)
                    &&& {
                        let ci = cand_idx(old(self).candidates@, candidate_id@);
                        if !old(self).spec_mutable() {
                            rec_err_is(
                                e,
                                RecErrKind::InvalidTransition,
                                "session "@ + old(self).id@ + " is closed"@,
                            )
                        } else if ci == -1 {
                            rec_err_is(e, RecErrKind::CandidateNotFound, candidate_id@)
                        } else {
                            !(old(self).candidates@[ci].status is Pending || old(
                                self,
                            ).candidates@[ci].status is PartiallyAccepted) && rec_err_is(
                                e,
                                RecErrKind::InvalidTransition,
                                "candidate "@ + candidate_id@ + " is not pending"@,
                            )
                        }
                    }
                },
            },
    {
        match self.ensure_mutable() {
            Ok(_) => {},
            Err(e) => {
                return Err(e);
            },
        }
        let ci = match find_candidate(&self.candidates, candidate_id) {
            Some(ci) => ci,
            None => {
                return Err(ReconcileError::CandidateNotFound(candidate_id.to_owned()));
            },
        };
        match self.candidates[ci].status {
            CandidateStatus::Pending | CandidateStatus::PartiallyAccepted => {},
            _ => {
                let mut msg = String::from_str("candidate ");
                msg.append(candidate_id);
                msg.append(" is not pending");
                return Err(ReconcileError::InvalidTransition(msg));
            },
        }
        let mut k: usize = 0;
        while k < self.candidates.len()
            invariant
                0 <= ci < self.candidates@.len(),
                k <= self.candidates@.len(),
                self.candidates@.len() == old(self).candidates@.len(),
                self.id == old(self).id,
                self.company_id == old(self).company_id,
                self.status == old(self).status,
                self.opened_at_millis == old(self).opened_at_millis,
                forall|j: int| k <= j < self.candidates@.len() ==> #[trigger] self.candidates@[j]
                    == old(self).candidates@[j],
                forall|j: int|
                    0 <= j < k && j != ci ==> {
                        let before = old(self).candidates@[j];
                        let after = #[trigger] self.candidates@[j];
                        if before.status is Pending || before.status is PartiallyAccepted {
                            same_candidate_core(before, after) && after.status is Rejected
                                && after.write_off_reason == before.write_off_reason
                        } else {
                            after == before
                        }
                    },
                ci < k ==> {
                    &&& same_candidate_core(
                        old(self).candidates@[ci as int],
                        self.candidates@[ci as int],
                    )
                    &&& self.candidates@[ci as int].status is Accepted
                    &&& self.candidates@[ci as int].write_off_reason is None
                },
            decreases self.candidates@.len() - k,
        {
            if k == ci {
                let mut target = self.candidates[k].clone();
                target.status = CandidateStatus::Accepted;
                target.write_off_reason = None;
                self.candidates.set(k, target);
            } else {
                match self.candidates[k].status {
                    CandidateStatus::Pending | CandidateStatus::PartiallyAccepted => {
                        let mut other = self.candidates[k].clone();
                        other.status = CandidateStatus::Rejected;
                        self.candidates.set(k, other);
                    },
                    _ => {},
                }
            }
            k = k + 1;
        }
        self.status = SessionStatus::Closed;
        Ok(self.candidates[ci].clone())
    }

    /// Rejects one pending candidate; the session stays as it was for
    /// further matching.
    pub fn reject(&mut self, candidate_id: &str) -> (r: ReconcileResult<MatchCandidate>)
        ensures
            match r {
                Ok(c) => {
                    let ci = cand_idx(old(self).candidates@, candidate_id@);
                    &&& old(self).spec_mutable()
                    &&& ci != -1
                    &&& old(self).candidates@[ci].status is Pending
                    &&& final(self).id == old(self).id
                    &&& final(self).company_id == old(self).company_id
                    &&& final(self).status == old(self).status
                    &&& final(self).opened_at_millis == old(self).opened_at_millis
                    &&& final(self).candidates@ == old(self).candidates@.update(
                        ci,
                        final(self).candidates@[ci],
                    )
                    &&& same_candidate_core(old(self).candidates@[ci], final(self).candidates@[ci])
                    &&& final(self).candidates@[ci].status is Rejected
                    &&& final(self).candidates@[ci].write_off_reason == old(
                        self,
                    ).candidates@[ci].write_off_reason
                    &&& c == final(self).candidates@[ci]
                },
                Err(e) => {
                    &&& *final(self) == *old(self)
                    &&& {
                        let ci = cand_idx(old(self).candidates@, candidate_id@);
                        if !old(self).spec_mutable() {
                            rec_err_is(
                                e,
                                RecErrKind::InvalidTransition,
                                "session "@ + old(self).id@ + " is closed"@,
                            )
                        } else if ci == -1 {
                            rec_err_is(e, RecErrKind::CandidateNotFound, candidate_id@)
                        } else {
                            !(old(self).candidates@[ci].status is Pending) && rec_err_is(
                                e,
                                RecErrKind::InvalidTransition,
                                "candidate "@ + candidate_id@ + " is not pending"@,
                            )
                        }
                    }
                },
            },
    {
        match self.ensure_mutable() {
            Ok(_) => {},
            Err(e) => {
                return Err(e);
            },
        }
        let ci = match find_candidate(&self.candidates, candidate_id) {
            Some(ci) => ci,
            None => {
                return Err(ReconcileError::CandidateNotFound(candidate_id.to_owned()));
            },
        };
        match self.candidates[ci].status {
            CandidateStatus::Pending => {},
            _ => {
                let mut msg = String::from_str("candidate ");
                msg.append(candidate_id);
                msg.append(" is not pending");
                return Err(ReconcileError::InvalidTransition(msg));
            },
        }
        let mut target = self.candidates[ci].clone();
        target.status = CandidateStatus::Rejected;
        self.candidates.set(ci, target);
        Ok(self.candidates[ci].clone())
    }

    /// Moves every supplied candidate of the group to partially accepted
    /// and parks the session as pending-partial; fails if any supplied id
    /// names no candidate of the session, sits in another group or is not
    /// pending, or if the id list is empty.
    pub fn partial_accept(&mut self, group_id: &str, candidate_ids: &Vec<CandidateId>) -> (r:
        ReconcileResult<Vec<MatchCandidate>>)
        ensures
            match r {
                Ok(v) => {
                    &&& old(self).spec_mutable()
                    &&& candidate_ids@.len() > 0
                    &&& absent_id_err(old(self).candidates@, candidate_ids@, 0) is None
                    &&& partial_scan_err(old(self).candidates@, candidate_ids@, group_id@, 0)
                        is None
                    &&& exists|j: int|
                        0 <= j < old(self).candidates@.len() && id_in_list(
                            candidate_ids@,
                            (#[trigger] old(self).candidates@[j]).id@,
                        )
                    &&& final(self).status is PendingPartial
                    &&& final(self).id == old(self).id
                    &&& final(self).company_id == old(self).company_id
                    &&& final(self).opened_at_millis == old(self).opened_at_millis
                    &&& final(self).candidates@.len() == old(self).candidates@.len()
                    &&& forall|k: int|
                        0 <= k < old(self).candidates@.len() ==> {
                            let before = old(self).candidates@[k];
                            let after = #[trigger] final(self).candidates@[k];
                            if id_in_list(candidate_ids@, before.id@) {
                                same_candidate_core(before, after)
                                    && after.status is PartiallyAccepted && after.write_off_reason
                                    == before.write_off_reason
                            } else {
                                after == before
                            }
                        }
                    &&& v@ == selected(final(self).candidates@, candidate_ids@)
                },
                Err(e) => {
                    &&& *final(self) == *old(self)
                    &&& if !old(self).spec_mutable() {
                        rec_err_is(
                            e,
                            RecErrKind::InvalidTransition,
                            "session "@ + old(self).id@ + " is closed"@,
                        )
                    } else if candidate_ids@.len() == 0 {
                        rec_err_is(
                            e,
                            RecErrKind::InvalidTransition,
                            "partial accept requires at least one candidate"@,
                        )
                    } else {
                        match absent_id_err(old(self).candidates@, candidate_ids@, 0) {
                            Some((k, m)) => rec_err_is(e, k, m),
                            None => match partial_scan_err(
                                old(self).candidates@,
                                candidate_ids@,
                                group_id@,
                                0,
                            ) {
                                Some((k, m)) => rec_err_is(e, k, m),
                                None => !(exists|j: int|
                                    0 <= j < old(self).candidates@.len() && id_in_list(
                                        candidate_ids@,
                                        (#[trigger] old(self).candidates@[j]).id@,
                                    )) && rec_err_is(
                                    e,
                                    RecErrKind::InvalidTransition,
                                    "no pending candidates were found for group "@ + group_id@,
                                ),
                            },
                        }
                    }
                },
            },
    {
        match self.ensure_mutable() {
            Ok(_) => {},
            Err(e) => {
                return Err(e);
            },
        }
        if candidate_ids.len() == 0 {
            return Err(
                ReconcileError::InvalidTransition(
                    String::from_str("partial accept requires at least one candidate"),
                ),
            );
        }
        let mut j: usize = 0;
        while j < candidate_ids.len()
            invariant
                old(self).spec_mutable(),
                candidate_ids@.len() > 0,
                *self == *old(self),
                j <= candidate_ids@.len(),
                absent_id_err(self.candidates@, candidate_ids@, 0) == absent_id_err(
                    self.candidates@,
                    candidate_ids@,
                    j as int,
                ),
            decreases candidate_ids@.len() - j,
        {
            match find_candidate(&self.candidates, candidate_ids[j].as_str()) {
                Some(_) => {},
                None => {
                    let mut msg = String::from_str("candidate ");
                    msg.append(candidate_ids[j].as_str());
                    msg.append(" does not exist in the session");
                    return Err(ReconcileError::InvalidTransition(msg));
                },
            }
            j = j + 1;
        }
        let mut matched = false;
        let mut k: usize = 0;
        while k < self.candidates.len()
            invariant
                old(self).spec_mutable(),
                candidate_ids@.len() > 0,
                *self == *old(self),
                k <= self.candidates@.len(),
                matched == exists|j: int|
                    0 <= j < k && id_in_list(
                        candidate_ids@,
                        (#[trigger] self.candidates@[j]).id@,
                    ),
                absent_id_err(self.candidates@, candidate_ids@, 0) is None,
                partial_scan_err(self.candidates@, candidate_ids@, group_id@, 0)
                    == partial_scan_err(self.candidates@, candidate_ids@, group_id@, k as int),
            decreases self.candidates@.len() - k,
        {
            let in_list = crate::text::vec_contains_str(candidate_ids, self.candidates[k].id.as_str());
            if in_list {
                let group_ok = match &self.candidates[k].group_id {
                    Some(g) => eq_str(g.as_str(), group_id),
                    None => false,
                };
                if !group_ok {
                    let mut msg = String::from_str("candidate ");
                    msg.append(self.candidates[k].id.as_str());
                    msg.append(" does not belong to group ");
                    msg.append(group_id);
                    return Err(ReconcileError::InvalidTransition(msg));
                }
                match self.candidates[k].status {
                    CandidateStatus::Pending => {},
                    _ => {
                        let mut msg = String::from_str("candidate ");
                        msg.append(self.candidates[k].id.as_str());
                        msg.append(" is not pending");
                        return Err(ReconcileError::InvalidTransition(msg));
                    },
                }
                matched = true;
            }
            k = k + 1;
        }
        if !matched {
            let mut msg = String::from_str("no pending candidates were found for group ");
            msg.append(group_id);
            return Err(ReconcileError::InvalidTransition(msg));
        }
        let mut updated: Vec<MatchCandidate> = Vec::new();
        let mut k2: usize = 0;
        while k2 < self.candidates.len()
            invariant
                old(self).spec_mutable(),
                candidate_ids@.len() > 0,
                partial_scan_err(old(self).candidates@, candidate_ids@, group_id@, 0) is None,
                exists|j: int|
                    0 <= j < old(self).candidates@.len() && id_in_list(
                        candidate_ids@,
                        (#[trigger] old(self).candidates@[j]).id@,
                    ),
                k2 <= self.candidates@.len(),
                self.candidates@.len() == old(self).candidates@.len(),
                self.id == old(self).id,
                self.company_id == old(self).company_id,
                self.status == old(self).status,
                self.opened_at_millis == old(self).opened_at_millis,
                forall|j: int| k2 <= j < self.candidates@.len() ==> #[trigger] self.candidates@[j]
                    == old(self).candidates@[j],
                forall|j: int|
                    0 <= j < k2 ==> {
                        let before = old(self).candidates@[j];
                        let after = #[trigger] self.candidates@[j];
                        if id_in_list(candidate_ids@, before.id@) {
                            same_candidate_core(before, after) && after.status is PartiallyAccepted
                                && after.write_off_reason == before.write_off_reason
                        } else {
                            after == before
                        }
                    },
                updated@ == selected(self.candidates@.subrange(0, k2 as int), candidate_ids@),
            decreases self.candidates@.len() - k2,
        {
            let ghost pre = self.candidates@;
            let in_list = crate::text::vec_contains_str(
                candidate_ids,
                self.candidates[k2].id.as_str(),
            );
            if in_list {
                let mut cand = self.candidates[k2].clone();
                cand.status = CandidateStatus::PartiallyAccepted;
                self.candidates.set(k2, cand);
                updated.push(self.candidates[k2].clone());
            }
            proof {
                assert(self.candidates@.subrange(0, k2 as int) =~= pre.subrange(0, k2 as int));
                assert(self.candidates@.subrange(0, k2 + 1 as int).drop_last()
                    =~= self.candidates@.subrange(0, k2 as int));
                assert(self.candidates@.subrange(0, k2 + 1 as int).last()
                    == self.candidates@[k2 as int]);
                assert(self.candidates@[k2 as int].id@ == pre[k2 as int].id@);
                assert(id_in_list(candidate_ids@, self.candidates@[k2 as int].id@) == in_list);
            }
            k2 = k2 + 1;
        }
        proof {
            assert(self.candidates@.subrange(0, self.candidates@.len() as int)
                =~= self.candidates@);
        }
        self.status = SessionStatus::PendingPartial;
        Ok(updated)
    }

    /// Writes off a pending, partially accepted or rejected candidate
    /// with the given reason and parks the session as pending-partial.
    pub fn write_off(&mut self, candidate_id: &str, reason: String) -> (r: ReconcileResult<
        MatchCandidate,
    >)
        ensures
            match r {
                Ok(c) => {
                    let ci = cand_idx(old(self).candidates@, candidate_id@);
                    &&& old(self).spec_mutable()
                    &&& ci != -1
                    &&& (old(self).candidates@[ci].status is Pending || old(
                        self,
                    ).candidates@[ci].status is PartiallyAccepted || old(
                        self,
                    ).candidates@[ci].status is Rejected)
                    &&& final(self).status is PendingPartial
                    &&& final(self).id == old(self).id
                    &&& final(self).company_id == old(self).company_id
                    &&& final(self).opened_at_millis == old(self).opened_at_millis
                    &&& final(self).candidates@ == old(self).candidates@.update(
                        ci,
                        final(self).candidates@[ci],
                    )
                    &&& same_candidate_core(old(self).candidates@[ci], final(self).candidates@[ci])
                    &&& final(self).candidates@[ci].status is WrittenOff
                    &&& final(self).candidates@[ci].write_off_reason matches Some(x) && x@
                        == reason@
                    &&& c == final(self).candidates@[ci]
                },
                Err(e) => {
                    &&& *final(self) == *old(self)
                    &&& {
                        let ci = cand_idx(old(self).candidates@, candidate_id@);
                        if !old(self).spec_mutable() {
                            rec_err_is(
                                e,
                                RecErrKind::InvalidTransition,
                                "session "@ + old(self).id@ + " is closed"@,
                            )
                        } else if ci == -1 {
                            rec_err_is(e, RecErrKind::CandidateNotFound, candidate_id@)
                        } else {
                            !(old(self).candidates@[ci].status is Pending || old(
                                self,
                            ).candidates@[ci].status is PartiallyAccepted || old(
                                self,
                            ).candidates@[ci].status is Rejected) && rec_err_is(
                                e,
                                RecErrKind::InvalidTransition,
                                "candidate "@ + candidate_id@ + " cannot be written off from status "@
                                    + candidate_status_name(old(self).candidates@[ci].status),
                            )
                        }
                    }
                },
            },
    {
        match self.ensure_mutable() {
            Ok(_) => {},
            Err(e) => {
                return Err(e);
            },
        }
        let ci = match find_candidate(&self.candidates, candidate_id) {
            Some(ci) => ci,
            None => {
                return Err(ReconcileError::CandidateNotFound(candidate_id.to_owned()));
            },
        };
        match self.candidates[ci].status {
            CandidateStatus::Pending
            | CandidateStatus::PartiallyAccepted
            | CandidateStatus::Rejected => {},
            _ => {
                let mut msg = String::from_str("candidate ");
                msg.append(candidate_id);
                msg.append(" cannot be written off from status ");
                match self.candidates[ci].status {
                    CandidateStatus::Pending => msg.append("Pending"),
                    CandidateStatus::Accepted => msg.append("Accepted"),
                    CandidateStatus::PartiallyAccepted => msg.append("PartiallyAccepted"),
                    CandidateStatus::Rejected => msg.append("Rejected"),
                    CandidateStatus::WrittenOff => msg.append("WrittenOff"),
                }
                return Err(ReconcileError::InvalidTransition(msg));
            },
        }
        let mut cand = self.candidates[ci].clone();
        cand.status = CandidateStatus::WrittenOff;
        cand.write_off_reason = Some(reason);
        self.candidates.set(ci, cand);
        self.status = SessionStatus::PendingPartial;
        Ok(self.candidates[ci].clone())
    }

    /// Resets every candidate to pending, clears write-off reasons, and
    /// opens the session; reopening an open session is an accepted no-op.
    pub fn reopen(&mut self) -> (r: ReconcileResult<()>)
        ensures
            r is Ok,
            old(self).status is Open ==> *final(self) == *old(self),
            !(old(self).status is Open) ==> {
                &&& final(self).id == old(self).id
                &&& final(self).company_id == old(self).company_id
                &&& final(self).status is Open
                &&& final(self).opened_at_millis == old(self).opened_at_millis
                &&& final(self).candidates@.len() == old(self).candidates@.len()
                &&& forall|k: int|
                    0 <= k < old(self).candidates@.len() ==> {
                        let before = old(self).candidates@[k];
                        let after = #[trigger] final(self).candidates@[k];
                        &&& same_candidate_core(before, after)
                        &&& after.status is Pending
                        &&& after.write_off_reason is None
                    }
            },
    {
        match self.status {
            SessionStatus::Open => {
                return Ok(());
            },
            _ => {},
        }
        let mut k: usize = 0;
        while k < self.candidates.len()
            invariant
                k <= self.candidates@.len(),
                self.candidates@.len() == old(self).candidates@.len(),
                self.id == old(self).id,
                self.company_id == old(self).company_id,
                self.status == old(self).status,
                self.opened_at_millis == old(self).opened_at_millis,
                forall|j: int| k <= j < self.candidates@.len() ==> #[trigger] self.candidates@[j]
                    == old(self).candidates@[j],
                forall|j: int|
                    0 <= j < k ==> {
                        let before = old(self).candidates@[j];
                        let after = #[trigger] self.candidates@[j];
                        &&& same_candidate_core(before, after)
                        &&& after.status is Pending
                        &&& after.write_off_reason is None
                    },
            decreases self.candidates@.len() - k,
        {
            let mut cand = self.candidates[k].clone();
            cand.status = CandidateStatus::Pending;
            cand.write_off_reason = None;
            self.candidates.set(k, cand);
            k = k + 1;
        }
        self.status = SessionStatus::Open;
        Ok(())
    }
}

// --- scoring --------------------------------------------------------------

/// A proposed transaction-entry pairing handed to a scoring strategy.
#[derive(Debug, PartialEq)]
pub struct MatchProposal {
    pub transaction_id: String,
    pub journal_entry_id: String,
    pub amount_delta_minor: i64,
    pub date_delta_days: i64,
    pub transaction_description: String,
    pub journal_description: String,
    pub group_id: Option<String>,
}

impl Clone for MatchProposal {
    fn clone(&self) -> (r: Self)
        ensures
            r == *self,
    {
        MatchProposal {
            transaction_id: self.transaction_id.clone(),
            journal_entry_id: self.journal_entry_id.clone(),
            amount_delta_minor: self.amount_delta_minor,
            date_delta_days: self.date_delta_days,
            transaction_description: self.transaction_description.clone(),
            journal_description: self.journal_description.clone(),
            group_id: self.group_id.clone(),
        }
    }
}

/// Closeness of a delta to zero under a tolerance, in thousandths: one
/// thousand at zero, falling linearly to zero at the tolerance.
pub open spec fn spec_component(delta: int, tolerance: int) -> int {
    let m = vstd::math::abs(delta) as int;
    if m >= tolerance {
        0
    } else {
        1000 - (m * 1000) / tolerance
    }
}

/// Computes [`spec_component`]; total for every tolerance.
pub fn component(delta: i64, tolerance: i64) -> (r: u32)
    ensures
        r as int == spec_component(delta as int, tolerance as int),
        r <= 1000,
{
    if tolerance <= 0 {
        return 0;
    }
    let m: u128 = if delta >= 0 {
        delta as u128
    } else {
        (-(delta as i128)) as u128
    };
    let t: u128 = tolerance as u128;
    if m >= t {
        0
    } else {
        let q: u128 = (m * 1000) / t;
        proof {
            vstd::arithmetic::div_mod::lemma_multiply_divide_lt(
                m as int * 1000,
                t as int,
                1000,
            );
        }
        (1000 - q) as u32
    }
}

// --- description tokens ---------------------------------------------------

/// The views of a list of strings.
pub open spec fn views_of(v: Seq<String>) -> Seq<Seq<char>> {
    v.map_values(|x: String| x@)
}

/// The lower-cased whitespace-separated words of `s` from index `i` on,
/// with `cur` the word under construction.
pub open spec fn tokens_acc(s: Seq<char>, i: int, cur: Seq<char>) -> Seq<Seq<char>>
    decreases s.len() - i when 0 <= i <= s.len()
{
    if i >= s.len() {
        if cur.len() > 0 {
            seq![cur]
        } else {
            Seq::empty()
        }
    } else if crate::text::is_space_char(s[i]) {
        (if cur.len() > 0 {
            seq![cur]
        } else {
            Seq::empty()
        }) + tokens_acc(s, i + 1, Seq::empty())
    } else {
        tokens_acc(s, i + 1, cur.push(crate::text::lower_char(s[i])))
    }
}

/// The lower-cased whitespace-separated words of `s`, in order.
pub open spec fn spec_tokens(s: Seq<char>) -> Seq<Seq<char>> {
    tokens_acc(s, 0, Seq::empty())
}

/// Splits into lower-cased words on ASCII whitespace.
pub fn tokenize(s: &str) -> (out: Vec<String>)
    ensures
        views_of(out@) == spec_tokens(s@),
{
    let len = s.unicode_len();
    let mut out: Vec<String> = Vec::new();
    let mut cur = String::new();
    let mut i: usize = 0;
    while i < len
        invariant
            len == s@.len(),
            i <= len,
            spec_tokens(s@) == views_of(out@) + tokens_acc(s@, i as int, cur@),
        decreases len - i,
    {
        let c = s.get_char(i);
        if crate::text::space_char(c) {
            if !cur.as_str().is_empty() {
                let ghost prev_out = out@;
                let ghost prev_cur = cur@;
                out.push(cur);
                cur = String::new();
                proof {
                    assert(views_of(out@) =~= views_of(prev_out).push(prev_cur));
                    assert(views_of(prev_out) + tokens_acc(s@, i as int, prev_cur)
                        =~= views_of(out@) + tokens_acc(s@, i + 1 as int, Seq::empty()));
                }
            } else {
                proof {
                    assert(cur@ =~= Seq::<char>::empty());
                    assert(views_of(out@) + tokens_acc(s@, i as int, cur@) =~= views_of(out@)
                        + tokens_acc(s@, i + 1 as int, Seq::empty()));
                }
            }
        } else {
            let ghost prev_cur = cur@;
            cur.push(crate::text::lower_char_exec(c));
            proof {
                assert(tokens_acc(s@, i as int, prev_cur) == tokens_acc(s@, i + 1 as int, cur@));
            }
        }
        i = i + 1;
    }
    if !cur.as_str().is_empty() {
        let ghost prev_out = out@;
        let ghost prev_cur = cur@;
        out.push(cur);
        proof {
            assert(views_of(out@) =~= views_of(prev_out).push(prev_cur));
            assert(views_of(prev_out) + tokens_acc(s@, len as int, prev_cur) =~= views_of(out@));
        }
    } else {
        proof {
            assert(views_of(out@) + tokens_acc(s@, len as int, cur@) =~= views_of(out@));
        }
    }
    out
}

/// `ts` with later repetitions of a word dropped.
pub open spec fn spec_dedup(ts: Seq<Seq<char>>) -> Seq<Seq<char>>
    decreases ts.len(),
{
    if ts.len() == 0 {
        Seq::empty()
    } else {
        let rest = spec_dedup(ts.drop_last());
        if rest.contains(ts.last()) {
            rest
        } else {
            rest.push(ts.last())
        }
    }
}

/// Drops repeated words, keeping first occurrences in order.
pub fn dedup_tokens(v: &Vec<String>) -> (out: Vec<String>)
    ensures
        views_of(out@) == spec_dedup(views_of(v@)),
{
    let mut out: Vec<String> = Vec::new();
    let mut i: usize = 0;
    while i < v.len()
        invariant
            i <= v@.len(),
            views_of(out@) == spec_dedup(views_of(v@.subrange(0, i as int))),
        decreases v@.len() - i,
    {
        proof {
            assert(views_of(v@.subrange(0, i + 1 as int)).drop_last() =~= views_of(
                v@.subrange(0, i as int),
            ));
            assert(views_of(v@.subrange(0, i + 1 as int)).last() == v@[i as int]@);
        }
        let present = crate::text::vec_contains_str(&out, v[i].as_str());
        proof {
            if present {
                let k = choose|k: int| 0 <= k < out@.len() && out@[k]@ == v@[i as int]@;
                assert(views_of(out@)[k] == v@[i as int]@);
                assert(views_of(out@).contains(v@[i as int]@));
            } else {
                assert forall|k: int| 0 <= k < views_of(out@).len() implies views_of(out@)[k]
                    != v@[i as int]@ by {
                    assert(views_of(out@)[k] == out@[k]@);
                }
                assert(!views_of(out@).contains(v@[i as int]@));
            }
        }
        if !present {
            let ghost prev_out = out@;
            out.push(v[i].clone());
            proof {
                assert(views_of(out@) =~= views_of(prev_out).push(v@[i as int]@));
            }
        }
        i = i + 1;
    }
    proof {
        assert(v@.subrange(0, v@.len() as int) =~= v@);
    }
    out
}

/// How many words of `a` also stand in `b`.
pub open spec fn inter_count(a: Seq<Seq<char>>, b: Seq<Seq<char>>) -> int
    decreases a.len(),
{
    if a.len() == 0 {
        0
    } else {
        inter_count(a.drop_last(), b) + if b.contains(a.last()) {
            1int
        } else {
            0int
        }
    }
}

proof fn lemma_inter_count_bounds(a: Seq<Seq<char>>, b: Seq<Seq<char>>)
    ensures
        0 <= inter_count(a, b) <= a.len(),
    decreases a.len(),
{
    if a.len() > 0 {
        lemma_inter_count_bounds(a.drop_last(), b);
    }
}

fn count_shared(a: &Vec<String>, b: &Vec<String>) -> (r: usize)
    ensures
        r as int == inter_count(views_of(a@), views_of(b@)),
        r <= a@.len(),
{
    let mut count: usize = 0;
    let mut i: usize = 0;
    while i < a.len()
        invariant
            i <= a@.len(),
            count <= i,
            count as int == inter_count(views_of(a@.subrange(0, i as int)), views_of(b@)),
        decreases a@.len() - i,
    {
        proof {
            assert(views_of(a@.subrange(0, i + 1 as int)).drop_last() =~= views_of(
                a@.subrange(0, i as int),
            ));
            assert(views_of(a@.subrange(0, i + 1 as int)).last() == a@[i as int]@);
        }
        let present = crate::text::vec_contains_str(b, a[i].as_str());
        proof {
            if present {
                let k = choose|k: int| 0 <= k < b@.len() && b@[k]@ == a@[i as int]@;
                assert(views_of(b@)[k] == a@[i as int]@);
                assert(views_of(b@).contains(a@[i as int]@));
            } else {
                assert forall|k: int| 0 <= k < views_of(b@).len() implies views_of(b@)[k]
                    != a@[i as int]@ by {
                    assert(views_of(b@)[k] == b@[k]@);
                }
                assert(!views_of(b@).contains(a@[i as int]@));
            }
        }
        if present {
            count = count + 1;
        }
        i = i + 1;
    }
    proof {
        assert(a@.subrange(0, a@.len() as int) =~= a@);
    }
    count
}

/// Jaccard overlap, in thousandths, of the distinct case-folded words of
/// two descriptions: shared words over all words, zero when either side
/// has no words.
pub open spec fn sim_milli(a: Seq<char>, b: Seq<char>) -> int {
    let ta = spec_dedup(spec_tokens(a));
    let tb = spec_dedup(spec_tokens(b));
    if ta.len() == 0 || tb.len() == 0 {
        0
    } else {
        let shared = inter_count(ta, tb);
        let union_count = ta.len() + tb.len() - shared;
        let q = (1000 * shared) / union_count;
        if q > 1000 {
            1000
        } else {
            q
        }
    }
}

/// Computes [`sim_milli`] over the two descriptions.
pub fn description_similarity(left: &str, right: &str) -> (r: u32)
    ensures
        r as int == sim_milli(left@, right@),
        r <= 1000,
{
    let la = tokenize(left);
    let ta = dedup_tokens(&la);
    let lb = tokenize(right);
    let tb = dedup_tokens(&lb);
    if ta.len() == 0 || tb.len() == 0 {
        return 0;
    }
    let shared = count_shared(&ta, &tb);
    proof {
        lemma_inter_count_bounds(views_of(ta@), views_of(tb@));
    }
    let combined: u128 = ta.len() as u128 + tb.len() as u128 - shared as u128;
    let q: u128 = (1000 * shared as u128) / combined;
    if q > 1000 {
        1000
    } else {
        q as u32
    }
}

/// Scores a proposed pairing in thousandths of full confidence.
pub trait ScoringStrategy: Sized {
    /// The score this strategy assigns, as a function of the proposal.
    spec fn score_spec(&self, proposal: &MatchProposal) -> int;

    fn score(&self, proposal: &MatchProposal) -> (s: u32)
        ensures
            s as int == self.score_spec(proposal),
            s <= 1000,
    ;
}

/// Weighted blend of amount closeness, date closeness and description
/// similarity; weights are in thousandths.
#[derive(Debug, PartialEq, Eq)]
pub struct WeightedScoringStrategy {
    pub amount_weight: u32,
    pub date_weight: u32,
    pub description_weight: u32,
    pub amount_tolerance_minor: i64,
    pub date_tolerance_days: i64,
}

/// The weighted average of the three components, in thousandths; zero
/// when every weight is zero.
pub open spec fn spec_weighted_score(w: WeightedScoringStrategy, p: MatchProposal) -> int {
    let total = w.amount_weight + w.date_weight + w.description_weight;
    if total == 0 {
        0
    } else {
        (spec_component(p.amount_delta_minor as int, w.amount_tolerance_minor as int)
            * w.amount_weight + spec_component(
            p.date_delta_days as int,
            w.date_tolerance_days as int,
        ) * w.date_weight + sim_milli(p.transaction_description@, p.journal_description@)
            * w.description_weight) / total
    }
}

impl WeightedScoringStrategy {
    /// Builds a strategy, raising non-positive tolerances to one.
    pub fn new(
        amount_weight: u32,
        date_weight: u32,
        description_weight: u32,
        amount_tolerance_minor: i64,
        date_tolerance_days: i64,
    ) -> (r: Self)
        ensures
            r.amount_weight == amount_weight,
            r.date_weight == date_weight,
            r.description_weight == description_weight,
            r.amount_tolerance_minor as int == if amount_tolerance_minor >= 1 {
                amount_tolerance_minor as int
            } else {
                1int
            },
            r.date_tolerance_days as int == if date_tolerance_days >= 1 {
                date_tolerance_days as int
            } else {
                1int
            },
    {
        WeightedScoringStrategy {
            amount_weight,
            date_weight,
            description_weight,
            amount_tolerance_minor: if amount_tolerance_minor >= 1 {
                amount_tolerance_minor
            } else {
                1
            },
            date_tolerance_days: if date_tolerance_days >= 1 {
                date_tolerance_days
            } else {
                1
            },
        }
    }
}

impl Clone for WeightedScoringStrategy {
    fn clone(&self) -> (r: Self)
        ensures
            r == *self,
    {
        WeightedScoringStrategy {
            amount_weight: self.amount_weight,
            date_weight: self.date_weight,
            description_weight: self.description_weight,
            amount_tolerance_minor: self.amount_tolerance_minor,
            date_tolerance_days: self.date_tolerance_days,
        }
    }
}

impl Default for WeightedScoringStrategy {
    /// The reference weights (0.45 / 0.35 / 0.20 in thousandths) with a
    /// five-thousand minor-unit and seven-day tolerance.
    fn default() -> (r: Self)
        ensures
            r.amount_weight == 450,
            r.date_weight == 350,
            r.description_weight == 200,
            r.amount_tolerance_minor == 5000,
            r.date_tolerance_days == 7,
    {
        WeightedScoringStrategy::new(450, 350, 200, 5_000, 7)
    }
}

impl ScoringStrategy for WeightedScoringStrategy {
    open spec fn score_spec(&self, proposal: &MatchProposal) -> int {
        spec_weighted_score(*self, *proposal)
    }

    fn score(&self, proposal: &MatchProposal) -> (s: u32) {
        let total: u64 = self.amount_weight as u64 + self.date_weight as u64
            + self.description_weight as u64;
        if total == 0 {
            return 0;
        }
        let amount_component = component(proposal.amount_delta_minor, self.amount_tolerance_minor);
        let date_component = component(proposal.date_delta_days, self.date_tolerance_days);
        let description_component = description_similarity(
            proposal.transaction_description.as_str(),
            proposal.journal_description.as_str(),
        );
        proof {
            assert(amount_component as int * self.amount_weight as int
                <= 1000 * 0xFFFF_FFFF && date_component as int * self.date_weight as int
                <= 1000 * 0xFFFF_FFFF && description_component as int
                * self.description_weight as int <= 1000 * 0xFFFF_FFFF) by (nonlinear_arith)
                requires
                    0 <= amount_component as int <= 1000,
                    0 <= date_component as int <= 1000,
                    0 <= description_component as int <= 1000,
                    0 <= self.amount_weight as int <= 0xFFFF_FFFF,
                    0 <= self.date_weight as int <= 0xFFFF_FFFF,
                    0 <= self.description_weight as int <= 0xFFFF_FFFF,
            ;
        }
        let weighted: u128 = amount_component as u128 * self.amount_weight as u128
            + date_component as u128 * self.date_weight as u128 + description_component as u128
            * self.description_weight as u128;
        let q: u128 = weighted / (total as u128);
        proof {
            let a = amount_component as int;
            let d = date_component as int;
            let ds = description_component as int;
            let aw = self.amount_weight as int;
            let dw = self.date_weight as int;
            let sw = self.description_weight as int;
            let t = total as int;
            assert(a * aw + d * dw + ds * sw <= 1000 * t) by (nonlinear_arith)
                requires
                    0 <= a <= 1000,
                    0 <= d <= 1000,
                    0 <= ds <= 1000,
                    0 <= aw,
                    0 <= dw,
                    0 <= sw,
                    t == aw + dw + sw,
            ;
            vstd::arithmetic::div_mod::lemma_div_is_ordered(
                a * aw + d * dw + ds * sw,
                1000 * t,
                t,
            );
            vstd::arithmetic::div_mod::lemma_div_multiples_vanish(1000, t);
            assert(t * 1000 == 1000 * t) by (nonlinear_arith);
            vstd::arithmetic::div_mod::lemma_div_pos_is_pos(a * aw + d * dw + ds * sw, t);
            assert(a * aw + d * dw + ds * sw >= 0) by (nonlinear_arith)
                requires
                    0 <= a && 0 <= d && 0 <= ds && 0 <= aw && 0 <= dw && 0 <= sw,
            ;
        }
        q as u32
    }
}

/// A plain linear blend: the reference weighted strategy under its
/// default weights.
#[derive(Debug, PartialEq, Eq)]
pub struct LinearScoringStrategy {
    pub inner: WeightedScoringStrategy,
}

impl LinearScoringStrategy {
    pub fn new() -> (r: Self)
        ensures
            r.inner.amount_weight == 450,
            r.inner.date_weight == 350,
            r.inner.description_weight == 200,
            r.inner.amount_tolerance_minor == 5000,
            r.inner.date_tolerance_days == 7,
    {
        LinearScoringStrategy { inner: Default::default() }
    }
}

impl Default for LinearScoringStrategy {
    fn default() -> (r: Self)
        ensures
            r.inner.amount_weight == 450,
            r.inner.date_weight == 350,
            r.inner.description_weight == 200,
            r.inner.amount_tolerance_minor == 5000,
            r.inner.date_tolerance_days == 7,
    {
        LinearScoringStrategy::new()
    }
}

impl ScoringStrategy for LinearScoringStrategy {
    open spec fn score_spec(&self, proposal: &MatchProposal) -> int {
        spec_weighted_score(self.inner, *proposal)
    }

    fn score(&self, proposal: &MatchProposal) -> (s: u32) {
        self.inner.score(proposal)
    }
}

// --- audit hooks -----------------------------------------------------------

#[derive(Debug, Clone, Copy, PartialEq, Eq, Structural)]
pub enum ReconciliationAuditAction {
    SessionCreated,
    CandidateAdded,
    CandidateAccepted,
    CandidateRejected,
    CandidatePartiallyAccepted,
    CandidateWrittenOff,
    SessionReopened,
}

#[derive(Debug, PartialEq)]
pub struct ReconciliationAuditEvent {
    pub session_id: SessionId,
    pub candidate_id: Option<CandidateId>,
    pub action: ReconciliationAuditAction,
    pub note: Option<String>,
}

impl Clone for ReconciliationAuditEvent {
    fn clone(&self) -> (r: Self)
        ensures
            r == *self,
    {
        ReconciliationAuditEvent {
            session_id: self.session_id.clone(),
            candidate_id: self.candidate_id.clone(),
            action: self.action,
            note: self.note.clone(),
        }
    }
}

/// Receives one audit event per service mutation; implementations are
/// supplied by users of the library.
pub trait ReconciliationAuditHook {
    fn record(&self, event: &ReconciliationAuditEvent);
}

/// A hook that discards every event.
#[derive(Debug, PartialEq, Eq)]
pub struct NoopReconciliationAuditHook;

impl ReconciliationAuditHook for NoopReconciliationAuditHook {
    fn record(&self, event: &ReconciliationAuditEvent) {
        let _ = event;
    }
}

impl Default for NoopReconciliationAuditHook {
    fn default() -> (r: Self)
        ensures
            r == NoopReconciliationAuditHook,
    {
        NoopReconciliationAuditHook
    }
}

// --- session store ----------------------------------------------------------

/// First index of the session with this id, searching from `j`; `-1` if
/// none.
pub open spec fn sess_idx_from(s: Seq<ReconciliationSession>, id: Seq<char>, j: int) -> int
    decreases s.len() - j when 0 <= j <= s.len()
{
    if j >= s.len() {
        -1
    } else if s[j].id@ == id {
        j
    } else {
        sess_idx_from(s, id, j + 1)
    }
}

pub open spec fn sess_idx(s: Seq<ReconciliationSession>, id: Seq<char>) -> int {
    sess_idx_from(s, id, 0)
}

proof fn lemma_sess_idx(s: Seq<ReconciliationSession>, id: Seq<char>, j: int, i: int)
    requires
        0 <= j <= i <= s.len(),
        forall|k: int| j <= k < i ==> s[k].id@ != id,
        i == s.len() || s[i].id@ == id,
    ensures
        sess_idx_from(s, id, j) == if i == s.len() {
            -1int
        } else {
            i
        },
    decreases i - j,
{
    if j < i {
        lemma_sess_idx(s, id, j + 1, i);
    }
}

fn find_session(v: &Vec<ReconciliationSession>, id: &str) -> (r: Option<usize>)
    ensures
        match r {
            Some(i) => sess_idx(v@, id@) == i && i < v@.len() && v@[i as int].id@ == id@,
            None => sess_idx(v@, id@) == -1,
        },
{
    let mut i: usize = 0;
    while i < v.len()
        invariant
            i <= v@.len(),
            forall|k: int| 0 <= k < i ==> v@[k].id@ != id@,
        decreases v@.len() - i,
    {
        if eq_str(v[i].id.as_str(), id) {
            proof {
                lemma_sess_idx(v@, id@, 0, i as int);
            }
            return Some(i);
        }
        i = i + 1;
    }
    proof {
        lemma_sess_idx(v@, id@, 0, v@.len() as int);
    }
    None
}

/// Owns every reconciliation session, keyed by session id.
#[derive(Debug)]
pub struct InMemoryReconciliationStore {
    pub sessions: Vec<ReconciliationSession>,
}

impl InMemoryReconciliationStore {
    pub fn new() -> (r: Self)
        ensures
            r.sessions@.len() == 0,
    {
        InMemoryReconciliationStore { sessions: Vec::new() }
    }

    /// Stores the session under its id, replacing any session already
    /// held under it, and hands it back.
    pub fn create_session(&mut self, session: ReconciliationSession) -> (r: ReconcileResult<
        ReconciliationSession,
    >)
        ensures
            r matches Ok(s) && session_eqv(s, session),
            ({
                let si = sess_idx(old(self).sessions@, session.id@);
                if si == -1 {
                    final(self).sessions@.len() == old(self).sessions@.len() + 1
                        && final(self).sessions@.subrange(0, old(self).sessions@.len() as int)
                        == old(self).sessions@ && session_eqv(final(self).sessions@.last(), session)
                } else {
                    final(self).sessions@.len() == old(self).sessions@.len() && session_eqv(
                        final(self).sessions@[si],
                        session,
                    ) && forall|k: int|
                        0 <= k < old(self).sessions@.len() && k != si ==> final(self).sessions@[k]
                            == old(self).sessions@[k]
                }
            }),
    {
        let stored = session.clone();
        match find_session(&self.sessions, session.id.as_str()) {
            Some(si) => {
                self.sessions.set(si, session);
            },
            None => {
                self.sessions.push(session);
                proof {
                    assert(final(self).sessions@.subrange(0, old(self).sessions@.len() as int)
                        =~= old(self).sessions@);
                }
            },
        }
        Ok(stored)
    }

    /// Replaces a stored session; the session must already exist.
    pub fn save_session(&mut self, session: &ReconciliationSession) -> (r: ReconcileResult<()>)
        ensures
            ({
                let si = sess_idx(old(self).sessions@, session.id@);
                match r {
                    Ok(_) => si != -1 && final(self).sessions@.len() == old(self).sessions@.len()
                        && session_eqv(final(self).sessions@[si], *session) && forall|k: int|
                        0 <= k < old(self).sessions@.len() && k != si ==> final(self).sessions@[k]
                            == old(self).sessions@[k],
                    Err(e) => si == -1 && rec_err_is(e, RecErrKind::SessionNotFound, session.id@)
                        && *final(self) == *old(self),
                }
            }),
    {
        match find_session(&self.sessions, session.id.as_str()) {
            Some(si) => {
                self.sessions.set(si, session.clone());
                Ok(())
            },
            None => Err(ReconcileError::SessionNotFound(session.id.clone())),
        }
    }

    /// Returns a copy of the stored session.
    pub fn get_session(&self, session_id: &str) -> (r: ReconcileResult<ReconciliationSession>)
        ensures
            ({
                let si = sess_idx(self.sessions@, session_id@);
                match r {
                    Ok(s) => si != -1 && session_eqv(s, self.sessions@[si]),
                    Err(e) => si == -1 && rec_err_is(e, RecErrKind::SessionNotFound, session_id@),
                }
            }),
    {
        match find_session(&self.sessions, session_id) {
            Some(si) => Ok(self.sessions[si].clone()),
            None => Err(ReconcileError::SessionNotFound(session_id.to_owned())),
        }
    }
}

/// Connection settings of a database-backed session store; the queries
/// themselves live outside this core.
#[derive(Debug, PartialEq, Eq)]
pub struct PostgresReconciliationStore {
    pub connection_string: String,
}

impl PostgresReconciliationStore {
    #[must_use]
    pub fn new(connection_string: String) -> (r: Self)
        ensures
            r.connection_string == connection_string,
    {
        PostgresReconciliationStore { connection_string }
    }
}

// --- the reconciliation service --------------------------------------------

/// `after` is `before` with the candidate `cid` accepted: the target is
/// accepted with its reason cleared, every other pending or partially
/// accepted candidate is auto-rejected, and the session is closed.
pub open spec fn accepted_session(
    before: ReconciliationSession,
    after: ReconciliationSession,
    cid: Seq<char>,
    c: MatchCandidate,
) -> bool {
    let ci = cand_idx(before.candidates@, cid);
    &&& before.spec_mutable()
    &&& ci != -1
    &&& (before.candidates@[ci].status is Pending || before.candidates@[ci].status
        is PartiallyAccepted)
    &&& after.status is Closed
    &&& after.id == before.id
    &&& after.company_id == before.company_id
    &&& after.opened_at_millis == before.opened_at_millis
    &&& after.candidates@.len() == before.candidates@.len()
    &&& same_candidate_core(before.candidates@[ci], after.candidates@[ci])
    &&& after.candidates@[ci].status is Accepted
    &&& after.candidates@[ci].write_off_reason is None
    &&& forall|k: int|
        0 <= k < before.candidates@.len() && k != ci ==> {
            let b = before.candidates@[k];
            let a = #[trigger] after.candidates@[k];
            if b.status is Pending || b.status is PartiallyAccepted {
                same_candidate_core(b, a) && a.status is Rejected && a.write_off_reason
                    == b.write_off_reason
            } else {
                a == b
            }
        }
    &&& c == after.candidates@[ci]
}

/// The error `accept` reports on this session, if any.
pub open spec fn accept_err(s: ReconciliationSession, cid: Seq<char>) -> Option<
    (RecErrKind, Seq<char>),
> {
    if !s.spec_mutable() {
        Some((RecErrKind::InvalidTransition, "session "@ + s.id@ + " is closed"@))
    } else {
        let ci = cand_idx(s.candidates@, cid);
        if ci == -1 {
            Some((RecErrKind::CandidateNotFound, cid))
        } else if !(s.candidates@[ci].status is Pending || s.candidates@[ci].status
            is PartiallyAccepted) {
            Some((RecErrKind::InvalidTransition, "candidate "@ + cid + " is not pending"@))
        } else {
            None
        }
    }
}

/// `after` is `before` with the candidate `cid` rejected and everything
/// else unchanged.
pub open spec fn rejected_session(
    before: ReconciliationSession,
    after: ReconciliationSession,
    cid: Seq<char>,
    c: MatchCandidate,
) -> bool {
    let ci = cand_idx(before.candidates@, cid);
    &&& before.spec_mutable()
    &&& ci != -1
    &&& before.candidates@[ci].status is Pending
    &&& after.status == before.status
    &&& after.id == before.id
    &&& after.company_id == before.company_id
    &&& after.opened_at_millis == before.opened_at_millis
    &&& after.candidates@ == before.candidates@.update(ci, after.candidates@[ci])
    &&& same_candidate_core(before.candidates@[ci], after.candidates@[ci])
    &&& after.candidates@[ci].status is Rejected
    &&& after.candidates@[ci].write_off_reason == before.candidates@[ci].write_off_reason
    &&& c == after.candidates@[ci]
}

/// The error `reject` reports on this session, if any.
pub open spec fn reject_err(s: ReconciliationSession, cid: Seq<char>) -> Option<
    (RecErrKind, Seq<char>),
> {
    if !s.spec_mutable() {
        Some((RecErrKind::InvalidTransition, "session "@ + s.id@ + " is closed"@))
    } else {
        let ci = cand_idx(s.candidates@, cid);
        if ci == -1 {
            Some((RecErrKind::CandidateNotFound, cid))
        } else if !(s.candidates@[ci].status is Pending) {
            Some((RecErrKind::InvalidTransition, "candidate "@ + cid + " is not pending"@))
        } else {
            None
        }
    }
}

/// `after` is `before` with every candidate of the id list moved to
/// partially accepted and the session parked pending-partial; `v` lists
/// the moved candidates in order.
pub open spec fn partially_accepted_session(
    before: ReconciliationSession,
    after: ReconciliationSession,
    ids: Seq<String>,
    v: Seq<MatchCandidate>,
) -> bool {
    &&& before.spec_mutable()
    &&& ids.len() > 0
    &&& exists|j: int|
        0 <= j < before.candidates@.len() && id_in_list(
            ids,
            (#[trigger] before.candidates@[j]).id@,
        )
    &&& after.status is PendingPartial
    &&& after.id == before.id
    &&& after.company_id == before.company_id
    &&& after.opened_at_millis == before.opened_at_millis
    &&& after.candidates@.len() == before.candidates@.len()
    &&& forall|k: int|
        0 <= k < before.candidates@.len() ==> {
            let b = before.candidates@[k];
            let a = #[trigger] after.candidates@[k];
            if id_in_list(ids, b.id@) {
                same_candidate_core(b, a) && a.status is PartiallyAccepted && a.write_off_reason
                    == b.write_off_reason
            } else {
                a == b
            }
        }
    &&& v == selected(after.candidates@, ids)
}

/// The error a partial acceptance reports on this session, if any.
pub open spec fn partial_err(s: ReconciliationSession, ids: Seq<String>, group: Seq<char>) -> Option<
    (RecErrKind, Seq<char>),
> {
    if !s.spec_mutable() {
        Some((RecErrKind::InvalidTransition, "session "@ + s.id@ + " is closed"@))
    } else if ids.len() == 0 {
        Some((RecErrKind::InvalidTransition, "partial accept requires at least one candidate"@))
    } else {
        match absent_id_err(s.candidates@, ids, 0) {
            Some(e) => Some(e),
            None => match partial_scan_err(s.candidates@, ids, group, 0) {
                Some(e) => Some(e),
                None => {
                    if !(exists|j: int|
                        0 <= j < s.candidates@.len() && id_in_list(
                            ids,
                            (#[trigger] s.candidates@[j]).id@,
                        )) {
                        Some(
                            (
                                RecErrKind::InvalidTransition,
                                "no pending candidates were found for group "@ + group,
                            ),
                        )
                    } else {
                        None
                    }
                },
            },
        }
    }
}

/// `after` is `before` with the candidate `cid` written off under
/// `reason` and the session parked pending-partial.
pub open spec fn written_off_session(
    before: ReconciliationSession,
    after: ReconciliationSession,
    cid: Seq<char>,
    reason: Seq<char>,
    c: MatchCandidate,
) -> bool {
    let ci = cand_idx(before.candidates@, cid);
    &&& before.spec_mutable()
    &&& ci != -1
    &&& (before.candidates@[ci].status is Pending || before.candidates@[ci].status
        is PartiallyAccepted || before.candidates@[ci].status is Rejected)
    &&& after.status is PendingPartial
    &&& after.id == before.id
    &&& after.company_id == before.company_id
    &&& after.opened_at_millis == before.opened_at_millis
    &&& after.candidates@ == before.candidates@.update(ci, after.candidates@[ci])
    &&& same_candidate_core(before.candidates@[ci], after.candidates@[ci])
    &&& after.candidates@[ci].status is WrittenOff
    &&& after.candidates@[ci].write_off_reason matches Some(x) && x@ == reason
    &&& c == after.candidates@[ci]
}

/// The error `write_off` reports on this session, if any.
pub open spec fn write_off_err(s: ReconciliationSession, cid: Seq<char>) -> Option<
    (RecErrKind, Seq<char>),
> {
    if !s.spec_mutable() {
        Some((RecErrKind::InvalidTransition, "session "@ + s.id@ + " is closed"@))
    } else {
        let ci = cand_idx(s.candidates@, cid);
        if ci == -1 {
            Some((RecErrKind::CandidateNotFound, cid))
        } else if !(s.candidates@[ci].status is Pending || s.candidates@[ci].status
            is PartiallyAccepted || s.candidates@[ci].status is Rejected) {
            Some(
                (
                    RecErrKind::InvalidTransition,
                    "candidate "@ + cid + " cannot be written off from status "@
                        + candidate_status_name(s.candidates@[ci].status),
                ),
            )
        } else {
            None
        }
    }
}

/// `after` is `before` reopened: every candidate pending with no
/// write-off reason, and the session open.
pub open spec fn reopened_session(
    before: ReconciliationSession,
    after: ReconciliationSession,
) -> bool {
    if before.status is Open {
        session_eqv(after, before)
    } else {
        &&& after.status is Open
        &&& after.id == before.id
        &&& after.company_id == before.company_id
        &&& after.opened_at_millis == before.opened_at_millis
        &&& after.candidates@.len() == before.candidates@.len()
        &&& forall|k: int|
            0 <= k < before.candidates@.len() ==> {
                let b = before.candidates@[k];
                let a = #[trigger] after.candidates@[k];
                &&& same_candidate_core(b, a)
                &&& a.status is Pending
                &&& a.write_off_reason is None
            }
    }
}

/// `news` is `olds` with one reconciliation audit event appended.
pub open spec fn rec_audit_pushed(
    olds: Seq<ReconciliationAuditEvent>,
    news: Seq<ReconciliationAuditEvent>,
    session_id: Seq<char>,
    candidate_id: Option<Seq<char>>,
    action: ReconciliationAuditAction,
    note: Option<Seq<char>>,
) -> bool {
    &&& news.len() == olds.len() + 1
    &&& news.subrange(0, olds.len() as int) == olds
    &&& news.last().session_id@ == session_id
    &&& match candidate_id {
        Some(c) => news.last().candidate_id matches Some(x) && x@ == c,
        None => news.last().candidate_id is None,
    }
    &&& news.last().action == action
    &&& match note {
        Some(n) => news.last().note matches Some(x) && x@ == n,
        None => news.last().note is None,
    }
}

/// Orchestrates session creation and the candidate lifecycle over one
/// store, recording one audit event per mutation.
#[derive(Debug)]
pub struct InMemoryReconciliationService<S: ScoringStrategy> {
    pub scoring: S,
    pub store: InMemoryReconciliationStore,
    pub audit_log: Vec<ReconciliationAuditEvent>,
}

impl<S: ScoringStrategy> InMemoryReconciliationService<S> {
    /// A service over a fresh, empty store.
    pub fn new(scoring: S) -> (r: Self)
        ensures
            r.scoring == scoring,
            r.store.sessions@.len() == 0,
            r.audit_log@.len() == 0,
    {
        InMemoryReconciliationService {
            scoring,
            store: InMemoryReconciliationStore::new(),
            audit_log: Vec::new(),
        }
    }

    /// A service over an existing store.
    pub fn with_store(scoring: S, store: InMemoryReconciliationStore) -> (r: Self)
        ensures
            r.scoring == scoring,
            r.store == store,
            r.audit_log@.len() == 0,
    {
        InMemoryReconciliationService { scoring, store, audit_log: Vec::new() }
    }

    /// The recorded audit events, oldest first.
    pub fn audit_log(&self) -> (r: &Vec<ReconciliationAuditEvent>)
        ensures
            r@ == self.audit_log@,
    {
        &self.audit_log
    }

    /// Opens a fresh empty session for a company under a new random id.
    pub fn create_session(&mut self, company_id: &str) -> (r: ReconcileResult<
        ReconciliationSession,
    >)
        ensures
            r matches Ok(s) && {
                &&& s.id@.len() == 36
                &&& s.company_id@ == company_id@
                &&& s.status is Open
                &&& s.candidates@.len() == 0
                &&& final(self).scoring == old(self).scoring
                &&& ({
                    let si = sess_idx(old(self).store.sessions@, s.id@);
                    if si == -1 {
                        final(self).store.sessions@.len() == old(self).store.sessions@.len() + 1
                            && final(self).store.sessions@.subrange(
                            0,
                            old(self).store.sessions@.len() as int,
                        ) == old(self).store.sessions@ && session_eqv(
                            final(self).store.sessions@.last(),
                            s,
                        )
                    } else {
                        final(self).store.sessions@.len() == old(self).store.sessions@.len()
                            && session_eqv(final(self).store.sessions@[si], s) && forall|k: int|
                            0 <= k < old(self).store.sessions@.len() && k != si
                                ==> final(self).store.sessions@[k] == old(self).store.sessions@[k]
                    }
                })
                &&& rec_audit_pushed(
                    old(self).audit_log@,
                    final(self).audit_log@,
                    s.id@,
                    None,
                    ReconciliationAuditAction::SessionCreated,
                    None,
                )
            },
    {
        let session = ReconciliationSession {
            id: crate::support::fresh_uuid(),
            company_id: company_id.to_owned(),
            status: SessionStatus::Open,
            opened_at_millis: crate::support::now_millis(),
            candidates: Vec::new(),
        };
        let stored = match self.store.create_session(session) {
            Ok(stored) => stored,
            Err(e) => {
                return Err(e);
            },
        };
        self.audit_log.push(
            ReconciliationAuditEvent {
                session_id: stored.id.clone(),
                candidate_id: None,
                action: ReconciliationAuditAction::SessionCreated,
                note: None,
            },
        );
        proof {
            assert(final(self).audit_log@.subrange(0, old(self).audit_log@.len() as int) =~= old(
                self,
            ).audit_log@);
        }
        Ok(stored)
    }

    /// A copy of the stored session.
    pub fn session(&self, session_id: &str) -> (r: ReconcileResult<ReconciliationSession>)
        ensures
            ({
                let si = sess_idx(self.store.sessions@, session_id@);
                match r {
                    Ok(s) => si != -1 && session_eqv(s, self.store.sessions@[si]),
                    Err(e) => si == -1 && rec_err_is(e, RecErrKind::SessionNotFound, session_id@),
                }
            }),
    {
        self.store.get_session(session_id)
    }

    /// Scores a proposal, wraps it as a pending candidate under a fresh
    /// random id, and appends it to the session.
    pub fn add_candidate(&mut self, session_id: &str, proposal: MatchProposal) -> (r:
        ReconcileResult<MatchCandidate>)
        ensures
            ({
                let si = sess_idx(old(self).store.sessions@, session_id@);
                match r {
                    Ok(c) => {
                        &&& si != -1
                        &&& old(self).store.sessions@[si].spec_mutable()
                        &&& c.id@.len() == 36
                        &&& c.transaction_id == proposal.transaction_id
                        &&& c.journal_entry_id == proposal.journal_entry_id
                        &&& c.score_milli as int == old(self).scoring.score_spec(&proposal)
                        &&& c.status is Pending
                        &&& c.group_id == proposal.group_id
                        &&& c.write_off_reason is None
                        &&& final(self).scoring == old(self).scoring
                        &&& final(self).store.sessions@.len() == old(self).store.sessions@.len()
                        &&& forall|k: int|
                            0 <= k < old(self).store.sessions@.len() && k != si
                                ==> final(self).store.sessions@[k] == old(self).store.sessions@[k]
                        &&& {
                            let b = old(self).store.sessions@[si];
                            let a = final(self).store.sessions@[si];
                            &&& a.id == b.id
                            &&& a.company_id == b.company_id
                            &&& a.status == b.status
                            &&& a.opened_at_millis == b.opened_at_millis
                            &&& a.candidates@ == b.candidates@.push(c)
                        }
                        &&& rec_audit_pushed(
                            old(self).audit_log@,
                            final(self).audit_log@,
                            session_id@,
                            Some(c.id@),
                            ReconciliationAuditAction::CandidateAdded,
                            None,
                        )
                    },
                    Err(e) => {
                        &&& *final(self) == *old(self)
                        &&& if si == -1 {
                            rec_err_is(e, RecErrKind::SessionNotFound, session_id@)
                        } else {
                            !old(self).store.sessions@[si].spec_mutable() && rec_err_is(
                                e,
                                RecErrKind::InvalidTransition,
                                "session "@ + old(self).store.sessions@[si].id@ + " is closed"@,
                            )
                        }
                    },
                }
            }),
    {
        let score_milli = self.scoring.score(&proposal);
        let candidate = MatchCandidate {
            id: crate::support::fresh_uuid(),
            transaction_id: proposal.transaction_id,
            journal_entry_id: proposal.journal_entry_id,
            proposed_at_millis: crate::support::now_millis(),
            score_milli,
            status: CandidateStatus::Pending,
            group_id: proposal.group_id,
            write_off_reason: None,
        };
        let si = match find_session(&self.store.sessions, session_id) {
            Some(si) => si,
            None => {
                return Err(ReconcileError::SessionNotFound(session_id.to_owned()));
            },
        };
        let mut session = self.store.sessions[si].clone();
        match session.add_candidate(candidate.clone()) {
            Ok(_) => {},
            Err(e) => {
                return Err(e);
            },
        }
        self.store.sessions.set(si, session);
        self.audit_log.push(
            ReconciliationAuditEvent {
                session_id: session_id.to_owned(),
                candidate_id: Some(candidate.id.clone()),
                action: ReconciliationAuditAction::CandidateAdded,
                note: None,
            },
        );
        proof {
            assert(final(self).audit_log@.subrange(0, old(self).audit_log@.len() as int) =~= old(
                self,
            ).audit_log@);
        }
        Ok(candidate)
    }

    /// Accepts one candidate, auto-rejecting the rest and closing the
    /// session.
    pub fn accept(&mut self, session_id: &str, candidate_id: &str) -> (r: ReconcileResult<
        MatchCandidate,
    >)
        ensures
            ({
                let si = sess_idx(old(self).store.sessions@, session_id@);
                match r {
                    Ok(c) => {
                        &&& si != -1
                        &&& accepted_session(
                            old(self).store.sessions@[si],
                            final(self).store.sessions@[si],
                            candidate_id@,
                            c,
                        )
                        &&& final(self).scoring == old(self).scoring
                        &&& final(self).store.sessions@.len() == old(self).store.sessions@.len()
                        &&& forall|k: int|
                            0 <= k < old(self).store.sessions@.len() && k != si
                                ==> final(self).store.sessions@[k] == old(self).store.sessions@[k]
                        &&& rec_audit_pushed(
                            old(self).audit_log@,
                            final(self).audit_log@,
                            session_id@,
                            Some(candidate_id@),
                            ReconciliationAuditAction::CandidateAccepted,
                            None,
                        )
                    },
                    Err(e) => {
                        &&& *final(self) == *old(self)
                        &&& if si == -1 {
                            rec_err_is(e, RecErrKind::SessionNotFound, session_id@)
                        } else {
                            accept_err(old(self).store.sessions@[si], candidate_id@)
                                matches Some((k, m)) && rec_err_is(e, k, m)
                        }
                    },
                }
            }),
    {
        let si = match find_session(&self.store.sessions, session_id) {
            Some(si) => si,
            None => {
                return Err(ReconcileError::SessionNotFound(session_id.to_owned()));
            },
        };
        let mut session = self.store.sessions[si].clone();
        let accepted = match session.accept(candidate_id) {
            Ok(accepted) => accepted,
            Err(e) => {
                return Err(e);
            },
        };
        self.store.sessions.set(si, session);
        self.audit_log.push(
            ReconciliationAuditEvent {
                session_id: session_id.to_owned(),
                candidate_id: Some(candidate_id.to_owned()),
                action: ReconciliationAuditAction::CandidateAccepted,
                note: None,
            },
        );
        proof {
            assert(final(self).audit_log@.subrange(0, old(self).audit_log@.len() as int) =~= old(
                self,
            ).audit_log@);
        }
        Ok(accepted)
    }

    /// Rejects one pending candidate; the session stays open for further
    /// matching.
    pub fn reject(&mut self, session_id: &str, candidate_id: &str) -> (r: ReconcileResult<
        MatchCandidate,
    >)
        ensures
            ({
                let si = sess_idx(old(self).store.sessions@, session_id@);
                match r {
                    Ok(c) => {
                        &&& si != -1
                        &&& rejected_session(
                            old(self).store.sessions@[si],
                            final(self).store.sessions@[si],
                            candidate_id@,
                            c,
                        )
                        &&& final(self).scoring == old(self).scoring
                        &&& final(self).store.sessions@.len() == old(self).store.sessions@.len()
                        &&& forall|k: int|
                            0 <= k < old(self).store.sessions@.len() && k != si
                                ==> final(self).store.sessions@[k] == old(self).store.sessions@[k]
                        &&& rec_audit_pushed(
                            old(self).audit_log@,
                            final(self).audit_log@,
                            session_id@,
                            Some(candidate_id@),
                            ReconciliationAuditAction::CandidateRejected,
                            None,
                        )
                    },
                    Err(e) => {
                        &&& *final(self) == *old(self)
                        &&& if si == -1 {
                            rec_err_is(e, RecErrKind::SessionNotFound, session_id@)
                        } else {
                            reject_err(old(self).store.sessions@[si], candidate_id@)
                                matches Some((k, m)) && rec_err_is(e, k, m)
                        }
                    },
                }
            }),
    {
        let si = match find_session(&self.store.sessions, session_id) {
            Some(si) => si,
            None => {
                return Err(ReconcileError::SessionNotFound(session_id.to_owned()));
            },
        };
        let mut session = self.store.sessions[si].clone();
        let rejected = match session.reject(candidate_id) {
            Ok(rejected) => rejected,
            Err(e) => {
                return Err(e);
            },
        };
        self.store.sessions.set(si, session);
        self.audit_log.push(
            ReconciliationAuditEvent {
                session_id: session_id.to_owned(),
                candidate_id: Some(candidate_id.to_owned()),
                action: ReconciliationAuditAction::CandidateRejected,
                note: None,
            },
        );
        proof {
            assert(final(self).audit_log@.subrange(0, old(self).audit_log@.len() as int) =~= old(
                self,
            ).audit_log@);
        }
        Ok(rejected)
    }

    /// Partially accepts a group of candidates; the audit note names the
    /// group.
    pub fn accept_partial(
        &mut self,
        session_id: &str,
        group_id: &str,
        candidate_ids: Vec<CandidateId>,
    ) -> (r: ReconcileResult<Vec<MatchCandidate>>)
        ensures
            ({
                let si = sess_idx(old(self).store.sessions@, session_id@);
                match r {
                    Ok(v) => {
                        &&& si != -1
                        &&& absent_id_err(
                            old(self).store.sessions@[si].candidates@,
                            candidate_ids@,
                            0,
                        ) is None
                        &&& partial_scan_err(
                            old(self).store.sessions@[si].candidates@,
                            candidate_ids@,
                            group_id@,
                            0,
                        ) is None
                        &&& partially_accepted_session(
                            old(self).store.sessions@[si],
                            final(self).store.sessions@[si],
                            candidate_ids@,
                            v@,
                        )
                        &&& final(self).scoring == old(self).scoring
                        &&& final(self).store.sessions@.len() == old(self).store.sessions@.len()
                        &&& forall|k: int|
                            0 <= k < old(self).store.sessions@.len() && k != si
                                ==> final(self).store.sessions@[k] == old(self).store.sessions@[k]
                        &&& rec_audit_pushed(
                            old(self).audit_log@,
                            final(self).audit_log@,
                            session_id@,
                            if candidate_ids@.len() > 0 {
                                Some(candidate_ids@[0]@)
                            } else {
                                None
                            },
                            ReconciliationAuditAction::CandidatePartiallyAccepted,
                            Some("group "@ + group_id@),
                        )
                    },
                    Err(e) => {
                        &&& *final(self) == *old(self)
                        &&& if si == -1 {
                            rec_err_is(e, RecErrKind::SessionNotFound, session_id@)
                        } else {
                            partial_err(old(self).store.sessions@[si], candidate_ids@, group_id@)
                                matches Some((k, m)) && rec_err_is(e, k, m)
                        }
                    },
                }
            }),
    {
        let si = match find_session(&self.store.sessions, session_id) {
            Some(si) => si,
            None => {
                return Err(ReconcileError::SessionNotFound(session_id.to_owned()));
            },
        };
        let mut session = self.store.sessions[si].clone();
        let updated = match session.partial_accept(group_id, &candidate_ids) {
            Ok(updated) => updated,
            Err(e) => {
                return Err(e);
            },
        };
        self.store.sessions.set(si, session);
        let mut note = String::from_str("group ");
        note.append(group_id);
        let first_id: Option<String> = if candidate_ids.len() > 0 {
            Some(candidate_ids[0].clone())
        } else {
            None
        };
        self.audit_log.push(
            ReconciliationAuditEvent {
                session_id: session_id.to_owned(),
                candidate_id: first_id,
                action: ReconciliationAuditAction::CandidatePartiallyAccepted,
                note: Some(note),
            },
        );
        proof {
            assert(final(self).audit_log@.subrange(0, old(self).audit_log@.len() as int) =~= old(
                self,
            ).audit_log@);
        }
        Ok(updated)
    }

    /// Writes off one candidate; the audit note carries the reason.
    pub fn write_off(&mut self, session_id: &str, candidate_id: &str, reason: String) -> (r:
        ReconcileResult<MatchCandidate>)
        ensures
            ({
                let si = sess_idx(old(self).store.sessions@, session_id@);
                match r {
                    Ok(c) => {
                        &&& si != -1
                        &&& written_off_session(
                            old(self).store.sessions@[si],
                            final(self).store.sessions@[si],
                            candidate_id@,
                            reason@,
                            c,
                        )
                        &&& final(self).scoring == old(self).scoring
                        &&& final(self).store.sessions@.len() == old(self).store.sessions@.len()
                        &&& forall|k: int|
                            0 <= k < old(self).store.sessions@.len() && k != si
                                ==> final(self).store.sessions@[k] == old(self).store.sessions@[k]
                        &&& rec_audit_pushed(
                            old(self).audit_log@,
                            final(self).audit_log@,
                            session_id@,
                            Some(candidate_id@),
                            ReconciliationAuditAction::CandidateWrittenOff,
                            Some(reason@),
                        )
                    },
                    Err(e) => {
                        &&& *final(self) == *old(self)
                        &&& if si == -1 {
                            rec_err_is(e, RecErrKind::SessionNotFound, session_id@)
                        } else {
                            write_off_err(old(self).store.sessions@[si], candidate_id@)
                                matches Some((k, m)) && rec_err_is(e, k, m)
                        }
                    },
                }
            }),
    {
        let si = match find_session(&self.store.sessions, session_id) {
            Some(si) => si,
            None => {
                return Err(ReconcileError::SessionNotFound(session_id.to_owned()));
            },
        };
        let mut session = self.store.sessions[si].clone();
        let written_off = match session.write_off(candidate_id, reason.clone()) {
            Ok(written_off) => written_off,
            Err(e) => {
                return Err(e);
            },
        };
        self.store.sessions.set(si, session);
        self.audit_log.push(
            ReconciliationAuditEvent {
                session_id: session_id.to_owned(),
                candidate_id: Some(candidate_id.to_owned()),
                action: ReconciliationAuditAction::CandidateWrittenOff,
                note: Some(reason),
            },
        );
        proof {
            assert(final(self).audit_log@.subrange(0, old(self).audit_log@.len() as int) =~= old(
                self,
            ).audit_log@);
        }
        Ok(written_off)
    }

    /// Reopens a session, resetting every candidate to pending.
    pub fn reopen(&mut self, session_id: &str) -> (r: ReconcileResult<ReconciliationSession>)
        ensures
            ({
                let si = sess_idx(old(self).store.sessions@, session_id@);
                match r {
                    Ok(s) => {
                        &&& si != -1
                        &&& reopened_session(
                            old(self).store.sessions@[si],
                            final(self).store.sessions@[si],
                        )
                        &&& session_eqv(s, final(self).store.sessions@[si])
                        &&& final(self).scoring == old(self).scoring
                        &&& final(self).store.sessions@.len() == old(self).store.sessions@.len()
                        &&& forall|k: int|
                            0 <= k < old(self).store.sessions@.len() && k != si
                                ==> final(self).store.sessions@[k] == old(self).store.sessions@[k]
                        &&& rec_audit_pushed(
                            old(self).audit_log@,
                            final(self).audit_log@,
                            session_id@,
                            None,
                            ReconciliationAuditAction::SessionReopened,
                            None,
                        )
                    },
                    Err(e) => {
                        &&& *final(self) == *old(self)
                        &&& si == -1
                        &&& rec_err_is(e, RecErrKind::SessionNotFound, session_id@)
                    },
                }
            }),
    {
        let si = match find_session(&self.store.sessions, session_id) {
            Some(si) => si,
            None => {
                return Err(ReconcileError::SessionNotFound(session_id.to_owned()));
            },
        };
        let mut session = self.store.sessions[si].clone();
        match session.reopen() {
            Ok(_) => {},
            Err(e) => {
                return Err(e);
            },
        }
        let result = session.clone();
        self.store.sessions.set(si, session);
        self.audit_log.push(
            ReconciliationAuditEvent {
                session_id: session_id.to_owned(),
                candidate_id: None,
                action: ReconciliationAuditAction::SessionReopened,
                note: None,
            },
        );
        proof {
            assert(final(self).audit_log@.subrange(0, old(self).audit_log@.len() as int) =~= old(
                self,
            ).audit_log@);
        }
        Ok(result)
    }
}

// --- scoring laws ----------------------------------------------------------

proof fn lemma_component_monotone(d1: int, d2: int, tolerance: int)
    requires
        vstd::math::abs(d1) <= vstd::math::abs(d2),
    ensures
        spec_component(d1, tolerance) >= spec_component(d2, tolerance),
        0 <= spec_component(d1, tolerance) <= 1000,
        0 <= spec_component(d2, tolerance) <= 1000,
{
    let m1 = vstd::math::abs(d1) as int;
    let m2 = vstd::math::abs(d2) as int;
    if m1 < tolerance {
        vstd::arithmetic::div_mod::lemma_multiply_divide_lt(m1 * 1000, tolerance, 1000);
        vstd::arithmetic::div_mod::lemma_div_pos_is_pos(m1 * 1000, tolerance);
        assert(m1 * 1000 <= m2 * 1000) by (nonlinear_arith)
            requires
                m1 <= m2,
        ;
        if m2 < tolerance {
            vstd::arithmetic::div_mod::lemma_multiply_divide_lt(m2 * 1000, tolerance, 1000);
            vstd::arithmetic::div_mod::lemma_div_pos_is_pos(m2 * 1000, tolerance);
            vstd::arithmetic::div_mod::lemma_div_is_ordered(m1 * 1000, m2 * 1000, tolerance);
        }
    }
}

/// Scoring monotonicity law: with the descriptions held fixed, a proposal
/// whose amount and date deltas are no larger in magnitude never scores
/// lower.
pub proof fn lemma_score_monotonic(
    w: WeightedScoringStrategy,
    p1: MatchProposal,
    p2: MatchProposal,
)
    requires
        p1.transaction_description@ == p2.transaction_description@,
        p1.journal_description@ == p2.journal_description@,
        vstd::math::abs(p1.amount_delta_minor as int) <= vstd::math::abs(
            p2.amount_delta_minor as int,
        ),
        vstd::math::abs(p1.date_delta_days as int) <= vstd::math::abs(p2.date_delta_days as int),
    ensures
        spec_weighted_score(w, p1) >= spec_weighted_score(w, p2),
{
    let total = w.amount_weight + w.date_weight + w.description_weight;
    if total != 0 {
        lemma_component_monotone(
            p1.amount_delta_minor as int,
            p2.amount_delta_minor as int,
            w.amount_tolerance_minor as int,
        );
        lemma_component_monotone(
            p1.date_delta_days as int,
            p2.date_delta_days as int,
            w.date_tolerance_days as int,
        );
        let a1 = spec_component(p1.amount_delta_minor as int, w.amount_tolerance_minor as int);
        let a2 = spec_component(p2.amount_delta_minor as int, w.amount_tolerance_minor as int);
        let d1 = spec_component(p1.date_delta_days as int, w.date_tolerance_days as int);
        let d2 = spec_component(p2.date_delta_days as int, w.date_tolerance_days as int);
        let ds = sim_milli(p1.transaction_description@, p1.journal_description@);
        let aw = w.amount_weight as int;
        let dw = w.date_weight as int;
        let sw = w.description_weight as int;
        assert(a1 * aw + d1 * dw + ds * sw >= a2 * aw + d2 * dw + ds * sw) by (nonlinear_arith)
            requires
                a1 >= a2,
                d1 >= d2,
                aw >= 0,
                dw >= 0,
        ;
        vstd::arithmetic::div_mod::lemma_div_is_ordered(
            a2 * aw + d2 * dw + ds * sw,
            a1 * aw + d1 * dw + ds * sw,
            total as int,
        );
    }
}

} // verus!
