use accounting_core::approvals::ApprovalDecision;
use accounting_core::approvals::ApprovalPriority;
use accounting_core::approvals::ApprovalRequest;
use accounting_core::approvals::ApprovalStage;
use accounting_core::approvals::ApprovalStatus;
use accounting_core::approvals::ApprovalTask;
use accounting_core::approvals::ApprovalsError;
use accounting_core::approvals::DecisionInput;
use accounting_core::approvals::QueueFilter;
use accounting_core::bank::extract_tag_value;
use accounting_core::bank::is_truthy;
use accounting_core::bank::split_tag;
use accounting_core::bank::validate_currency;
use accounting_core::bank::BankIngestError;
use accounting_core::bank::CsvBankParser;
use accounting_core::bank::CsvParserProfile;
use accounting_core::bank::OfxBankParser;
use accounting_core::docs::DocumentKind;
use accounting_core::docs::DocumentMetadata;
use accounting_core::docs::EnvelopeEncryptor;
use accounting_core::docs::KeywordClassifier;
use accounting_core::docs::MetadataQuery;
use accounting_core::docs::MockEnvelopeEncryptor;
use accounting_core::docs::OcrError;
use accounting_core::docs::OcrRequest;
use accounting_core::docs::UploadRequestPayload;
use accounting_core::format_currency;
use accounting_core::format_minor;
use accounting_core::ledger::Role as LedgerRole;
use accounting_core::policy::PolicyDecision;
use accounting_core::policy::PostgresPolicyStore;
use accounting_core::reconcile::PostgresReconciliationStore;
use accounting_core::reporting::demo_admin_tenant;
use accounting_core::reporting::demo_company_tenant;
use accounting_core::reporting::duplicate_guidance_message;
use accounting_core::reporting::JournalEntrySuggestion;
use accounting_core::reporting::NullReconciliationSummaryProvider;
use accounting_core::reporting::ReconciliationTelemetryOutput;
use accounting_core::reporting::SuggestedLine;
use accounting_core::telemetry::AccountingTelemetry;

#[test]
fn currency_formatting_is_stable() {
    assert_eq!(format_currency(12_500), "$125.00");
    assert_eq!(format_currency(-305), "-$3.05");
}

#[test]
fn minor_formatting_matches_currency_formatting() {
    assert_eq!(format_minor(12_500), "125.00");
    assert_eq!(format_minor(-305), "-3.05");
    assert_eq!(format_minor(7), "0.07");
}

#[test]
fn counters_accumulate() {
    let mut telemetry = AccountingTelemetry::new();
    telemetry.record_transactions(3);
    telemetry.record_candidates(2);
    telemetry.record_write_off();
    telemetry.record_period_lock(accounting_core::ledger::PeriodAction::SoftClose);
    telemetry.record_period_lock(accounting_core::ledger::PeriodAction::Close);
    telemetry.record_approvals_snapshot(5, 2);
    telemetry.record_policy_decision(PolicyDecision::NeedsApproval);
    telemetry.record_policy_decision(PolicyDecision::AutoPost);
    let counters = telemetry.snapshot();
    assert_eq!(counters.reconciliation_transactions, 3);
    assert_eq!(counters.reconciliation_candidates, 2);
    assert_eq!(counters.reconciliation_write_offs, 1);
    assert_eq!(counters.period_lock_events, 2);
    assert_eq!(counters.policy_needs_approval, 1);
    assert_eq!(counters.policy_auto_post, 1);
    assert_eq!(counters.approvals_total, 5);
    assert_eq!(counters.approvals_overdue, 2);
}

#[test]
fn telemetry_output_copies_counters() {
    let mut telemetry = AccountingTelemetry::new();
    telemetry.record_transactions(4);
    telemetry.record_write_off();
    let output = ReconciliationTelemetryOutput::from_counters(&telemetry.snapshot());
    assert_eq!(output.reconciliation_transactions, 4);
    assert_eq!(output.reconciliation_write_offs, 1);
    assert_eq!(output.period_lock_events, 0);
}

#[test]
fn demo_admin_and_company_tenants_have_expected_roles() {
    let admin = demo_admin_tenant();
    assert_eq!(admin.tenant_id, "ledger-admin");
    assert_eq!(admin.roles, vec![LedgerRole::ServiceAccount]);

    let company = demo_company_tenant("co-42");
    assert_eq!(company.tenant_id, "co-42");
    assert_eq!(company.user_id, "codex-ledger-demo");
    assert_eq!(company.roles, vec![LedgerRole::Accountant]);
}

#[test]
fn duplicate_guidance_wording_is_shared() {
    assert_eq!(
        duplicate_guidance_message("dup-7"),
        "See CLI summary for duplicate set dup-7"
    );
}

#[test]
fn null_provider_returns_zero_summary() {
    let provider = NullReconciliationSummaryProvider;
    let summary = provider.summary("comp-9");
    assert_eq!(summary.company_id, "comp-9");
    assert_eq!(summary.matched, 0);
    assert_eq!(summary.pending, 0);
    assert!(summary.last_refreshed_at_millis.is_none());
}

fn suggestion(lines: Vec<SuggestedLine>) -> JournalEntrySuggestion {
    JournalEntrySuggestion {
        lines,
        memo: "Acme invoice".into(),
        confidence_milli: 900,
        reasoning: "totals matched".into(),
    }
}

#[test]
fn suggestion_validates_balance() {
    let balanced = suggestion(vec![
        SuggestedLine {
            account_code: "6000".into(),
            account_name: "Supplies".into(),
            debit_minor: 10_800,
            credit_minor: 0,
        },
        SuggestedLine {
            account_code: "2000".into(),
            account_name: "Accounts Payable".into(),
            debit_minor: 0,
            credit_minor: 10_800,
        },
    ]);
    assert!(balanced.is_balanced());
}

#[test]
fn suggestion_detects_imbalance() {
    let unbalanced = suggestion(vec![
        SuggestedLine {
            account_code: "6000".into(),
            account_name: "Supplies".into(),
            debit_minor: 10_800,
            credit_minor: 0,
        },
        SuggestedLine {
            account_code: "2000".into(),
            account_name: "Accounts Payable".into(),
            debit_minor: 0,
            credit_minor: 9_800,
        },
    ]);
    assert!(!unbalanced.is_balanced());
}

#[test]
fn approval_stage_allows_listed_or_anyone() {
    let open_stage = ApprovalStage { approvers: Vec::new() };
    assert!(open_stage.allows(&"anyone".to_string()));

    let gated = ApprovalStage { approvers: vec!["approver-1".into(), "approver-2".into()] };
    assert!(gated.allows(&"approver-2".to_string()));
    assert!(!gated.allows(&"stranger".to_string()));
}

#[test]
fn approval_task_wraps_request_with_default_stage() {
    let request = ApprovalRequest {
        id: "appr-1".into(),
        company_id: "comp-1".into(),
        submitted_by: "user-1".into(),
        submitted_at_millis: 0,
        summary: "Post invoice INV-1001".into(),
        amount_minor: 7_500,
        currency: "USD".into(),
        priority: ApprovalPriority::Normal,
        sla_at_millis: None,
        metadata: None,
        stages: Vec::new(),
    };
    assert!(request.validate().is_ok());

    let task = ApprovalTask::new(request);
    assert_eq!(task.status, ApprovalStatus::Pending);
    assert_eq!(task.current_stage_index, 0);
    assert_eq!(task.request.stages.len(), 1);
    assert_eq!(task.stage_decisions.len(), 1);
    assert!(task.stage_decisions[0].is_none());
    assert!(!task.is_finalized());
    assert!(!task.is_overdue(1_000));
}

#[test]
fn approval_request_validation_names_missing_fields() {
    let blank_summary = ApprovalRequest {
        id: "appr-2".into(),
        company_id: "comp-1".into(),
        submitted_by: "user-1".into(),
        submitted_at_millis: 0,
        summary: "   ".into(),
        amount_minor: 100,
        currency: "USD".into(),
        priority: ApprovalPriority::High,
        sla_at_millis: None,
        metadata: None,
        stages: Vec::new(),
    };
    let err = blank_summary.validate().unwrap_err();
    assert!(matches!(
        err,
        ApprovalsError::Validation(ref m) if m.contains("summary")
    ));
}

#[test]
fn queue_filter_matches_on_all_set_criteria() {
    let request = ApprovalRequest {
        id: "appr-3".into(),
        company_id: "comp-1".into(),
        submitted_by: "user-1".into(),
        submitted_at_millis: 0,
        summary: "Review".into(),
        amount_minor: 100,
        currency: "USD".into(),
        priority: ApprovalPriority::Low,
        sla_at_millis: Some(10),
        metadata: None,
        stages: Vec::new(),
    };
    let mut task = ApprovalTask::new(request);
    task.assigned_to = Some("approver-1".into());
    task.status = ApprovalStatus::Assigned;

    let all = QueueFilter::default();
    assert!(all.matches(&task));

    let scoped = QueueFilter {
        company_id: Some("comp-1".into()),
        assignee: Some("approver-1".into()),
        status: Some(ApprovalStatus::Assigned),
    };
    assert!(scoped.matches(&task));

    let other_company = QueueFilter {
        company_id: Some("comp-2".into()),
        assignee: None,
        status: None,
    };
    assert!(!other_company.matches(&task));

    let _ = DecisionInput {
        decided_by: "approver-1".into(),
        decision: ApprovalDecision::Approved,
        reason: None,
    };
    assert!(task.is_overdue(11));
}

#[test]
fn upload_and_ocr_requests_validate() {
    let payload = UploadRequestPayload {
        firm_id: "firm-1".into(),
        company_id: None,
        file_name: "invoice.pdf".into(),
        content_type: "application/pdf".into(),
        content_length: 10,
    };
    assert!(payload.validate().is_ok());

    let empty_file = UploadRequestPayload { file_name: "  ".into(), ..payload };
    assert!(empty_file.validate().is_err());

    let ocr = OcrRequest {
        firm_id: "firm-1".into(),
        document_id: "doc-1".into(),
        mime_type: "application/pdf".into(),
        payload: vec![1, 2, 3],
    };
    assert!(ocr.validate().is_ok());

    let blank_mime = OcrRequest { mime_type: "".into(), ..ocr };
    let err = blank_mime.validate().unwrap_err();
    assert!(matches!(err, OcrError::UnsupportedMime(_)));
}

#[test]
fn metadata_normalize_and_query_match() {
    let metadata = DocumentMetadata {
        document_id: " doc-1 ".into(),
        firm_id: " firm-123 ".into(),
        company_id: Some("company-456".into()),
        version: 1,
        content_type: " application/pdf ".into(),
        content_length: 1024,
        checksum: "abc123".into(),
        uploaded_at_millis: 0,
        uploaded_by: "user@example.com".into(),
        tags: vec!["invoice".into(), "Q1".into(), "INVOICE".into()],
        retention_class: "finance.7y".into(),
    };
    let normalized = metadata.normalize().expect("metadata should normalize");
    assert_eq!(normalized.document_id, "doc-1");
    assert_eq!(normalized.firm_id, "firm-123");
    assert_eq!(normalized.tags, vec![String::from("invoice"), String::from("Q1")]);

    let query = MetadataQuery {
        firm_id: Some("firm-123".into()),
        company_id: Some("company-456".into()),
        tags: vec!["INVOICE".into()],
    };
    assert!(query.matches(&normalized));

    let wrong_firm = MetadataQuery {
        firm_id: Some("firm-999".into()),
        company_id: None,
        tags: Vec::new(),
    };
    assert!(!wrong_firm.matches(&normalized));
}

#[test]
fn mock_encryptor_round_trips_zero_key() {
    let encryptor = MockEnvelopeEncryptor;
    let (envelope, key) = encryptor
        .wrap_key(accounting_core::docs::EncryptionContext {
            firm_id: "firm-123".into(),
            document_id: "doc-1".into(),
        })
        .expect("wrap key");
    assert_eq!(envelope.key_id, "mock-kms:firm-123");
    assert_eq!(key.len(), 32);
    let unwrapped = encryptor.unwrap_key(&envelope).expect("unwrap key");
    assert_eq!(unwrapped, envelope.wrapped_key);
}

#[test]
fn keyword_classifier_replaces_rules_per_kind() {
    let classifier = KeywordClassifier::default()
        .with_rule(DocumentKind::Invoice, vec!["invoice".into()])
        .with_rule(DocumentKind::Receipt, vec!["receipt".into()])
        .with_rule(DocumentKind::Invoice, vec!["invoice".into(), "total".into()]);
    assert_eq!(classifier.rules.len(), 2);
    let invoice_rule = classifier
        .rules
        .iter()
        .find(|(kind, _)| *kind == DocumentKind::Invoice)
        .expect("invoice rule");
    assert_eq!(invoice_rule.1.len(), 2);
}

#[test]
fn bank_helpers_validate_and_split() {
    assert!(is_truthy("TRUE"));
    assert!(is_truthy("y"));
    assert!(!is_truthy("no"));

    let ok = validate_currency("EUR").expect("three capitals pass");
    assert!(ok.is_iso4217);
    let err = validate_currency("US").unwrap_err();
    assert!(matches!(
        err,
        BankIngestError::Invalid(ref m) if m.contains("invalid ISO-4217")
    ));
    assert!(validate_currency("usd").is_err());

    let (tag, value) = split_tag("<TRNAMT>-12.50").expect("tag line splits");
    assert_eq!(tag, "TRNAMT");
    assert_eq!(value, "-12.50");
    assert!(split_tag("no tag").is_none());
    assert!(split_tag("<EMPTY>").is_none());

    let acct = extract_tag_value("<ACCTID> 12345 ", "acctid").expect("case-folded tag");
    assert_eq!(acct, "12345");
    assert!(extract_tag_value("<ACCTID>1", "curdef").is_none());
}

#[test]
fn parser_profiles_carry_defaults() {
    let csv = CsvBankParser::new(CsvParserProfile::default());
    assert_eq!(csv.profile.amount_minor_factor, 100);
    assert_eq!(csv.profile.date_format, "%Y-%m-%d");
    let ofx = OfxBankParser::default();
    assert_eq!(ofx.profile.amount_minor_factor, 100);
}

#[test]
fn store_stubs_keep_connection_strings() {
    let policy = PostgresPolicyStore::new("postgres://policy".into());
    assert_eq!(policy.connection_string, "postgres://policy");
    let recon = PostgresReconciliationStore::new("postgres://recon".into());
    assert_eq!(recon.connection_string, "postgres://recon");
}
