use accounting_core::reconcile::CandidateStatus;
use accounting_core::reconcile::InMemoryReconciliationService;
use accounting_core::reconcile::LinearScoringStrategy;
use accounting_core::reconcile::MatchProposal;
use accounting_core::reconcile::ReconcileError;
use accounting_core::reconcile::ReconciliationAuditAction;
use accounting_core::reconcile::SessionStatus;

fn service() -> InMemoryReconciliationService<LinearScoringStrategy> {
    InMemoryReconciliationService::new(LinearScoringStrategy::new())
}

fn proposal(
    group_id: Option<&str>,
    amount_delta_minor: i64,
    date_delta_days: i64,
    transaction_description: &str,
    journal_description: &str,
) -> MatchProposal {
    MatchProposal {
        transaction_id: "txn-1".into(),
        journal_entry_id: "je-1".into(),
        amount_delta_minor,
        date_delta_days,
        transaction_description: transaction_description.into(),
        journal_description: journal_description.into(),
        group_id: group_id.map(|g| g.to_string()),
    }
}

#[test]
fn create_session_initializes_state() {
    let mut service = service();
    let session = service.create_session("comp-1").expect("session should be created");
    assert_eq!(session.company_id, "comp-1");
    assert_eq!(session.status, SessionStatus::Open);
    assert!(session.candidates.is_empty());
}

#[test]
fn add_candidate_scores_and_tracks() {
    let mut service = service();
    let session = service.create_session("comp-1").expect("session created");
    let candidate = service
        .add_candidate(&session.id, proposal(Some("grp-1"), 0, 0, "Coffee", "Coffee"))
        .expect("candidate added");
    assert_eq!(candidate.transaction_id, "txn-1");
    assert_eq!(candidate.status, CandidateStatus::Pending);
    assert_eq!(candidate.group_id.as_deref(), Some("grp-1"));
    let fetched = service.session(&session.id).expect("session fetch");
    assert_eq!(fetched.candidates.len(), 1);
}

#[test]
fn accept_candidate_closes_session() {
    let mut service = service();
    let session = service.create_session("comp-1").expect("session created");
    let candidate = service
        .add_candidate(&session.id, proposal(None, 0, 0, "Invoice #1", "Invoice #1"))
        .expect("candidate added");
    let accepted = service.accept(&session.id, &candidate.id).expect("candidate accepted");
    assert_eq!(accepted.status, CandidateStatus::Accepted);
    let updated = service.session(&session.id).expect("session fetch");
    assert_eq!(updated.status, SessionStatus::Closed);
}

#[test]
fn reject_candidate_keeps_session_open() {
    let mut service = service();
    let session = service.create_session("comp-1").expect("session created");
    let candidate = service
        .add_candidate(&session.id, proposal(None, 0, 0, "Invoice #2", "Invoice #3"))
        .expect("candidate added");
    let rejected = service.reject(&session.id, &candidate.id).expect("candidate rejected");
    assert_eq!(rejected.status, CandidateStatus::Rejected);
    let updated = service.session(&session.id).expect("session fetch");
    assert_eq!(updated.status, SessionStatus::Open);
}

#[test]
fn partial_accept_transitions_session() {
    let mut service = service();
    let session = service.create_session("comp-1").expect("session created");
    let first = service
        .add_candidate(&session.id, proposal(Some("grp-1"), 50, 1, "Lunch", "Team lunch"))
        .expect("candidate added");
    let second = service
        .add_candidate(&session.id, proposal(Some("grp-1"), 100, 1, "Lunch receipt", "Team lunch"))
        .expect("candidate added");
    let updated = service
        .accept_partial(&session.id, "grp-1", vec![first.id, second.id])
        .expect("partial accept");
    assert_eq!(updated.len(), 2);
    let session = service.session(&session.id).expect("session fetch");
    assert_eq!(session.status, SessionStatus::PendingPartial);
    assert!(
        session.candidates.iter().all(|candidate| candidate.status
            == CandidateStatus::PartiallyAccepted)
    );
}

#[test]
fn write_off_marks_candidate() {
    let mut service = service();
    let session = service.create_session("comp-1").expect("session created");
    let candidate = service
        .add_candidate(&session.id, proposal(Some("grp-2"), 10, 0, "Bank fee", "Monthly fee"))
        .expect("candidate added");
    let written_off = service
        .write_off(&session.id, &candidate.id, "Immateral difference".into())
        .expect("write off");
    assert_eq!(written_off.status, CandidateStatus::WrittenOff);
    assert_eq!(written_off.write_off_reason.as_deref(), Some("Immateral difference"));
}

#[test]
fn reopen_resets_candidate_statuses() {
    let mut service = service();
    let session = service.create_session("comp-1").expect("session created");
    let candidate = service
        .add_candidate(&session.id, proposal(None, 0, 0, "Rent", "Rent"))
        .expect("candidate added");
    service.accept(&session.id, &candidate.id).expect("candidate accepted");
    let reopened = service.reopen(&session.id).expect("session reopened");
    assert_eq!(reopened.status, SessionStatus::Open);
    assert!(
        reopened.candidates.iter().all(|candidate| candidate.status == CandidateStatus::Pending)
    );
    assert!(reopened.candidates.iter().all(|candidate| candidate.write_off_reason.is_none()));
}

#[test]
fn audit_hook_captures_events() {
    let mut service = service();
    let session = service.create_session("comp-2").expect("session created");
    let candidate = service
        .add_candidate(&session.id, proposal(None, 0, 0, "Audit", "Audit"))
        .expect("candidate added");
    service.reject(&session.id, &candidate.id).expect("candidate rejected");
    let events: Vec<ReconciliationAuditAction> =
        service.audit_log().iter().map(|event| event.action).collect();
    assert!(events.contains(&ReconciliationAuditAction::SessionCreated));
    assert!(events.contains(&ReconciliationAuditAction::CandidateAdded));
    assert!(events.contains(&ReconciliationAuditAction::CandidateRejected));
}

#[test]
fn accept_rejects_every_other_live_candidate() {
    let mut service = service();
    let session = service.create_session("comp-1").expect("session created");
    let first = service
        .add_candidate(&session.id, proposal(None, 0, 0, "Rent", "Rent"))
        .expect("first added");
    let second = service
        .add_candidate(&session.id, proposal(None, 10, 0, "Rent", "Rent payment"))
        .expect("second added");
    let third = service
        .add_candidate(&session.id, proposal(None, 20, 0, "Rent", "Other"))
        .expect("third added");
    service.reject(&session.id, &third.id).expect("third rejected up front");

    service.accept(&session.id, &first.id).expect("accept first");
    let updated = service.session(&session.id).expect("session fetch");
    assert_eq!(updated.status, SessionStatus::Closed);
    let statuses: Vec<(String, CandidateStatus)> =
        updated.candidates.iter().map(|c| (c.id.clone(), c.status)).collect();
    for (id, status) in statuses {
        if id == first.id {
            assert_eq!(status, CandidateStatus::Accepted);
        } else if id == second.id {
            assert_eq!(status, CandidateStatus::Rejected);
        } else {
            assert_eq!(status, CandidateStatus::Rejected);
        }
    }
}

#[test]
fn accept_partial_rejects_wrong_group_and_empty_list() {
    let mut service = service();
    let session = service.create_session("comp-1").expect("session created");
    let c1 = service
        .add_candidate(&session.id, proposal(Some("g1"), 0, 0, "A", "A"))
        .expect("c1 added");
    let c2 = service
        .add_candidate(&session.id, proposal(Some("g2"), 0, 0, "B", "B"))
        .expect("c2 added");

    let empty_err = service
        .accept_partial(&session.id, "g1", Vec::new())
        .expect_err("empty id lists are refused");
    assert!(matches!(
        empty_err,
        ReconcileError::InvalidTransition(ref m) if m.contains("at least one")
    ));

    let group_err = service
        .accept_partial(&session.id, "g1", vec![c1.id.clone(), c2.id.clone()])
        .expect_err("an id outside the group is refused");
    assert!(matches!(
        group_err,
        ReconcileError::InvalidTransition(ref m) if m.contains("does not belong to group g1")
    ));

    let still_open = service.session(&session.id).expect("session fetch");
    assert_eq!(still_open.status, SessionStatus::Open);
    assert!(still_open.candidates.iter().all(|c| c.status == CandidateStatus::Pending));
}

#[test]
fn accept_partial_rejects_unknown_candidate_id() {
    let mut service = service();
    let session = service.create_session("comp-1").expect("session created");
    let c1 = service
        .add_candidate(&session.id, proposal(Some("g1"), 0, 0, "A", "A"))
        .expect("c1 added");

    let absent_err = service
        .accept_partial(&session.id, "g1", vec![c1.id.clone(), "c-absent".into()])
        .expect_err("an id naming no candidate of the session is refused");
    assert!(matches!(
        absent_err,
        ReconcileError::InvalidTransition(ref m) if m.contains("does not exist")
    ));

    let untouched = service.session(&session.id).expect("session fetch");
    assert_eq!(untouched.status, SessionStatus::Open);
    assert!(untouched.candidates.iter().all(|c| c.status == CandidateStatus::Pending));
}

#[test]
fn partial_accept_scenario_g1() {
    let mut service = service();
    let session = service.create_session("comp-1").expect("session created");
    let mut p1 = proposal(Some("g1"), 0, 0, "A", "A");
    p1.transaction_id = "c1-txn".into();
    let c1 = service.add_candidate(&session.id, p1).expect("c1 added");
    let mut p2 = proposal(Some("g1"), 0, 0, "B", "B");
    p2.transaction_id = "c2-txn".into();
    let c2 = service.add_candidate(&session.id, p2).expect("c2 added");

    let updated = service
        .accept_partial(&session.id, "g1", vec![c1.id.clone(), c2.id.clone()])
        .expect("partial accept of the whole group");
    assert_eq!(updated.len(), 2);
    assert!(updated.iter().all(|c| c.status == CandidateStatus::PartiallyAccepted));
    let fetched = service.session(&session.id).expect("session fetch");
    assert_eq!(fetched.status, SessionStatus::PendingPartial);
}

#[test]
fn closed_sessions_refuse_mutation() {
    let mut service = service();
    let session = service.create_session("comp-1").expect("session created");
    let candidate = service
        .add_candidate(&session.id, proposal(None, 0, 0, "Rent", "Rent"))
        .expect("candidate added");
    service.accept(&session.id, &candidate.id).expect("accept closes the session");

    let err = service
        .add_candidate(&session.id, proposal(None, 0, 0, "More", "More"))
        .expect_err("closed sessions take no candidates");
    assert!(matches!(
        err,
        ReconcileError::InvalidTransition(ref m) if m.contains("is closed")
    ));
}

#[test]
fn missing_session_and_candidate_are_reported() {
    let mut service = service();
    let missing_session = service.accept("no-such-session", "c1").expect_err("no session");
    assert!(matches!(missing_session, ReconcileError::SessionNotFound(ref m) if m == "no-such-session"));

    let session = service.create_session("comp-1").expect("session created");
    let missing_candidate =
        service.accept(&session.id, "no-such-candidate").expect_err("no candidate");
    assert!(matches!(
        missing_candidate,
        ReconcileError::CandidateNotFound(ref m) if m == "no-such-candidate"
    ));
}

#[test]
fn write_off_from_accepted_is_refused() {
    let mut service = service();
    let session = service.create_session("comp-1").expect("session created");
    let candidate = service
        .add_candidate(&session.id, proposal(None, 0, 0, "Fee", "Fee"))
        .expect("candidate added");
    service.accept(&session.id, &candidate.id).expect("accepted");
    service.reopen(&session.id).expect("reopen");
    service.accept(&session.id, &candidate.id).expect("accepted again");
    service.reopen(&session.id).expect("reopen again");

    // Accept, then try writing the accepted candidate off without reopening.
    service.accept(&session.id, &candidate.id).expect("accepted a third time");
    let err = service
        .write_off(&session.id, &candidate.id, "why".into())
        .expect_err("closed session refuses mutation");
    assert!(matches!(err, ReconcileError::InvalidTransition(_)));
}

#[test]
fn fresh_ids_are_hyphenated_identifiers() {
    let mut service = service();
    let session = service.create_session("comp-1").expect("session created");
    assert_eq!(session.id.chars().count(), 36);
    let candidate = service
        .add_candidate(&session.id, proposal(None, 0, 0, "Rent", "Rent"))
        .expect("candidate added");
    assert_eq!(candidate.id.chars().count(), 36);
    assert_ne!(session.id, candidate.id);
}
