use accounting_core::ledger::Account;
use accounting_core::ledger::AccountType;
use accounting_core::ledger::AuditTrailFilter;
use accounting_core::ledger::ChartAccount;
use accounting_core::ledger::CompanyId;
use accounting_core::ledger::CreateCompanyRequest;
use accounting_core::ledger::Currency;
use accounting_core::ledger::CurrencyMode;
use accounting_core::ledger::CurrencyRate;
use accounting_core::ledger::EnsurePeriodRequest;
use accounting_core::ledger::EntryOrigin;
use accounting_core::ledger::EntryStatus;
use accounting_core::ledger::FiscalCalendar;
use accounting_core::ledger::JournalEntry;
use accounting_core::ledger::JournalLine;
use accounting_core::ledger::LedgerError;
use accounting_core::ledger::LockPeriodRequest;
use accounting_core::ledger::PeriodAction;
use accounting_core::ledger::PeriodRef;
use accounting_core::ledger::PeriodState;
use accounting_core::ledger::PostEntryRequest;
use accounting_core::ledger::PostingMode;
use accounting_core::ledger::PostingSide;
use accounting_core::ledger::ReconciliationStatus;
use accounting_core::ledger::ReverseEntryRequest;
use accounting_core::ledger::Role;
use accounting_core::ledger::SeedChartRequest;
use accounting_core::ledger::TenantContext;
use accounting_core::ledger::UpsertAccountRequest;
use accounting_core::ledger_service::InMemoryLedgerService;

fn usd() -> Currency {
    Currency { code: "USD".into(), precision: 2 }
}

fn eur() -> Currency {
    Currency { code: "EUR".into(), precision: 2 }
}

fn tenant(company_id: &str) -> TenantContext {
    TenantContext {
        tenant_id: company_id.into(),
        user_id: "user-1".into(),
        roles: vec![Role::Accountant],
        locale: Some("en-US".into()),
    }
}

fn company_request() -> CreateCompanyRequest {
    CreateCompanyRequest {
        name: "Test Co".into(),
        base_currency: usd(),
        fiscal_calendar: FiscalCalendar { periods_per_year: 12, opening_month: 1 },
        tenant: tenant("tenant-1"),
    }
}

fn asset_summary(company_id: &CompanyId) -> Account {
    Account {
        id: "acc-assets".into(),
        company_id: company_id.clone(),
        code: "1000".into(),
        name: "Assets".into(),
        account_type: AccountType::Asset,
        parent_account_id: None,
        currency_mode: CurrencyMode::FunctionalOnly,
        tax_code: None,
        is_summary: true,
        is_active: true,
    }
}

fn cash_account(company_id: &CompanyId) -> Account {
    Account {
        id: "acc-cash".into(),
        company_id: company_id.clone(),
        code: "1010".into(),
        name: "Cash".into(),
        account_type: AccountType::Asset,
        parent_account_id: Some("acc-assets".into()),
        currency_mode: CurrencyMode::FunctionalOnly,
        tax_code: None,
        is_summary: false,
        is_active: true,
    }
}

fn revenue_account(company_id: &CompanyId) -> Account {
    Account {
        id: "acc-rev".into(),
        company_id: company_id.clone(),
        code: "4000".into(),
        name: "Revenue".into(),
        account_type: AccountType::Revenue,
        parent_account_id: None,
        currency_mode: CurrencyMode::FunctionalOnly,
        tax_code: None,
        is_summary: false,
        is_active: true,
    }
}

fn usd_line(id: &str, account: &str, side: PostingSide, amount: i64) -> JournalLine {
    JournalLine {
        id: id.into(),
        account_id: account.into(),
        side,
        amount_minor: amount,
        currency: usd(),
        functional_amount_minor: amount,
        functional_currency: usd(),
        exchange_rate: None,
        tax_code: None,
        memo: None,
    }
}

fn post_request(company_tenant: TenantContext, entry_id: &str, amount: i64) -> PostEntryRequest {
    PostEntryRequest {
        entry: JournalEntry {
            id: entry_id.into(),
            journal_id: "jnl-gl".into(),
            status: EntryStatus::Draft,
            reconciliation_status: ReconciliationStatus::Unreconciled,
            lines: vec![
                usd_line("ln-1", "acc-cash", PostingSide::Debit, amount),
                usd_line("ln-2", "acc-rev", PostingSide::Credit, amount),
            ],
            origin: EntryOrigin::Manual,
            memo: Some("Payment received".into()),
            reverses_entry_id: None,
            reversed_by_entry_id: None,
        },
        tenant: company_tenant,
        mode: PostingMode::Commit,
    }
}

fn bootstrap(service: &mut InMemoryLedgerService) -> String {
    let company = service.create_company(company_request()).expect("create company");
    let t = tenant(&company.id);
    service
        .upsert_account(UpsertAccountRequest { account: asset_summary(&company.id), tenant: t.clone() })
        .expect("summary account");
    service
        .upsert_account(UpsertAccountRequest { account: cash_account(&company.id), tenant: t.clone() })
        .expect("cash account");
    service
        .upsert_account(UpsertAccountRequest { account: revenue_account(&company.id), tenant: t })
        .expect("revenue account");
    company.id
}

#[test]
fn company_bootstrap_and_coa_constraints() {
    let mut service = InMemoryLedgerService::new();
    let company = service.create_company(company_request()).expect("create company");
    assert_eq!(company.base_currency.code, "USD");

    let t = tenant(&company.id);
    let summary = asset_summary(&company.id);
    service
        .upsert_account(UpsertAccountRequest { account: summary.clone(), tenant: t.clone() })
        .expect("summary account is allowed for hierarchy");
    let posting_account = cash_account(&company.id);
    service
        .upsert_account(UpsertAccountRequest { account: posting_account.clone(), tenant: t.clone() })
        .expect("leaf posting account should be accepted");
    service
        .upsert_account(UpsertAccountRequest { account: revenue_account(&company.id), tenant: t.clone() })
        .expect("revenue account should be provisioned in base currency");

    let duplicate_err = service
        .upsert_account(UpsertAccountRequest { account: posting_account.clone(), tenant: t.clone() })
        .expect_err("duplicate account code must raise validation error");
    assert!(matches!(
        duplicate_err,
        LedgerError::Validation(ref message) if message.contains("code")
    ));

    let mut invalid_child = cash_account(&company.id);
    invalid_child.id = "acc-invalid".into();
    invalid_child.code = "1011".into();
    invalid_child.parent_account_id = Some(posting_account.id.clone());
    let invalid_parent_err = service
        .upsert_account(UpsertAccountRequest { account: invalid_child, tenant: t })
        .expect_err("non-summary parent should be rejected");
    assert!(matches!(
        invalid_parent_err,
        LedgerError::Validation(ref message) if message.contains("parent")
    ));
}

#[test]
fn post_balanced_usd_entry_is_posted() {
    let mut service = InMemoryLedgerService::new();
    let company_id = bootstrap(&mut service);

    let posted = service
        .post_entry(post_request(tenant(&company_id), "je-1", 12_500))
        .expect("balanced USD entry should post");
    assert_eq!(posted.status, EntryStatus::Posted);
    assert!(posted.is_balanced());
}

#[test]
fn posting_to_summary_account_mentions_summary() {
    let mut service = InMemoryLedgerService::new();
    let company_id = bootstrap(&mut service);

    let mut request = post_request(tenant(&company_id), "je-bad", 5_000);
    request.entry.lines[0].account_id = "acc-assets".into();
    let err = service.post_entry(request).expect_err("summary accounts cannot take postings");
    assert!(matches!(
        err,
        LedgerError::Validation(ref message) if message.contains("summary")
    ));
}

#[test]
fn posting_requires_balance_and_fx_provenance() {
    let mut service = InMemoryLedgerService::new();
    let company_id = bootstrap(&mut service);
    let t = tenant(&company_id);

    let posted = service
        .post_entry(post_request(t.clone(), "je-1", 10_000))
        .expect("balanced entry should post");
    assert_eq!(posted.status, EntryStatus::Posted);

    let mut unbalanced = post_request(t.clone(), "je-imbalanced", 10_000);
    unbalanced.entry.lines[1].amount_minor = 9_000;
    unbalanced.entry.lines[1].functional_amount_minor = 9_000;
    let imbalance = service
        .post_entry(unbalanced)
        .expect_err("debits and credits must balance");
    assert!(matches!(
        imbalance,
        LedgerError::Validation(ref message) if message.contains("balance")
    ));

    let mut fx = post_request(t.clone(), "je-fx", 10_000);
    fx.entry.lines[0] = JournalLine {
        id: "ln-1".into(),
        account_id: "acc-cash".into(),
        side: PostingSide::Debit,
        amount_minor: 9_300,
        currency: eur(),
        functional_amount_minor: 10_000,
        functional_currency: usd(),
        exchange_rate: Some(CurrencyRate {
            base: eur(),
            quote: usd(),
            rate_micros: 1_075_300,
            source: Some("ECB".into()),
            observed_at_millis: 0,
        }),
        tax_code: None,
        memo: Some("FX receipt".into()),
    };
    let fx_posted = service.post_entry(fx).expect("FX entry with rate metadata should post");
    assert!(fx_posted.lines.iter().all(JournalLine::has_currency_provenance));
    let retained_rate = fx_posted
        .lines
        .iter()
        .find_map(|line| line.exchange_rate.as_ref())
        .expect("FX line should retain exchange rate");
    assert_eq!(retained_rate.rate_micros, 1_075_300);

    let mut missing = post_request(t, "je-fx-missing", 10_000);
    missing.entry.lines[0].currency = eur();
    missing.entry.lines[0].amount_minor = 9_300;
    let missing_fx = service
        .post_entry(missing)
        .expect_err("FX entry without rate should fail validation");
    assert!(matches!(
        missing_fx,
        LedgerError::Validation(ref message) if message.contains("Currency amounts")
    ));
}

#[test]
fn period_lock_and_reversal_flow() {
    let mut service = InMemoryLedgerService::new();
    let company_id = bootstrap(&mut service);
    let t = tenant(&company_id);
    let period = PeriodRef { fiscal_year: 2024, period: 1 };

    let locked = service
        .lock_period(LockPeriodRequest {
            journal_id: "jnl-gl".into(),
            period,
            action: PeriodAction::SoftClose,
            approval_reference: None,
            tenant: t.clone(),
        })
        .expect("soft-close should succeed");
    assert_eq!(locked.period_state, PeriodState::SoftClosed);

    let blocked = service
        .post_entry(post_request(t.clone(), "je-1", 10_000))
        .expect_err("posting into soft-closed period requires override");
    assert!(matches!(
        blocked,
        LedgerError::Rejected(ref message) if message.contains("soft-close")
    ));

    let closed = service
        .lock_period(LockPeriodRequest {
            journal_id: "jnl-gl".into(),
            period,
            action: PeriodAction::Close,
            approval_reference: None,
            tenant: t.clone(),
        })
        .expect("close should transition to Closed state");
    assert_eq!(closed.period_state, PeriodState::Closed);

    let closed_block = service
        .post_entry(post_request(t.clone(), "je-1", 10_000))
        .expect_err("posting into closed period must be rejected");
    assert!(matches!(
        closed_block,
        LedgerError::Rejected(ref message) if message.contains("period closed")
    ));

    service
        .lock_period(LockPeriodRequest {
            journal_id: "jnl-gl".into(),
            period,
            action: PeriodAction::ReopenFull,
            approval_reference: Some("APR-1".into()),
            tenant: t.clone(),
        })
        .expect("reopen should set state back to Open");

    let posted = service
        .post_entry(post_request(t.clone(), "je-1", 10_000))
        .expect("entry should post after reopening");
    assert_eq!(posted.status, EntryStatus::Posted);
    assert_eq!(posted.reverses_entry_id, None);
    assert_eq!(posted.reversed_by_entry_id, None);

    let reversal = service
        .reverse_entry(ReverseEntryRequest {
            entry_id: posted.id.clone(),
            reason: "User requested reversal".into(),
            tenant: t.clone(),
        })
        .expect("reverse_entry should create linked reversing journal");
    assert_eq!(reversal.status, EntryStatus::Posted);
    assert_eq!(reversal.reverses_entry_id.as_deref(), Some(posted.id.as_str()));
    assert!(reversal.reversed_by_entry_id.is_none());
    assert!(reversal.validate().is_ok());
    assert_eq!(reversal.lines[0].side, PostingSide::Credit);
    assert_eq!(reversal.lines[1].side, PostingSide::Debit);
    assert_eq!(reversal.lines[0].amount_minor, posted.lines[0].amount_minor);

    let double_reversal = service
        .reverse_entry(ReverseEntryRequest {
            entry_id: posted.id.clone(),
            reason: "duplicate".into(),
            tenant: t.clone(),
        })
        .expect_err("second reversal must be rejected");
    assert!(matches!(
        double_reversal,
        LedgerError::Rejected(ref message) if message.contains("already reversed")
    ));

    let original_events = service
        .list_audit_trail(AuditTrailFilter {
            entity_id: Some(posted.id.clone()),
            limit: None,
            cursor: None,
            tenant: t.clone(),
        })
        .expect("audit events should be returned");
    assert!(original_events.iter().any(|event| event.description.contains("Posted entry")));
    assert!(original_events.iter().any(|event| event.description.contains("Reversal requested")));

    let reversal_events = service
        .list_audit_trail(AuditTrailFilter {
            entity_id: Some(reversal.id.clone()),
            limit: None,
            cursor: None,
            tenant: t,
        })
        .expect("reversal entry should have audit trail");
    assert!(reversal_events.iter().any(|event| event.description.contains("Reversal of")));
}

#[test]
fn replayed_commit_replaces_stored_entry() {
    let mut service = InMemoryLedgerService::new();
    let company_id = bootstrap(&mut service);
    let t = tenant(&company_id);

    let first = service
        .post_entry(post_request(t.clone(), "je-1", 10_000))
        .expect("first commit should post");
    service
        .reverse_entry(ReverseEntryRequest {
            entry_id: first.id.clone(),
            reason: "undo".into(),
            tenant: t.clone(),
        })
        .expect("reversal should succeed");

    let replayed = service
        .post_entry(post_request(t.clone(), "je-1", 10_000))
        .expect("replaying the commit should post again");
    assert_eq!(replayed.status, EntryStatus::Posted);
    assert!(replayed.reversed_by_entry_id.is_none());

    // The replay replaced the row stored under "je-1", so a reversal of
    // that id now finds the fresh entry, which carries no reversal link.
    let second_reversal = service
        .reverse_entry(ReverseEntryRequest {
            entry_id: "je-1".into(),
            reason: "undo the replay".into(),
            tenant: t,
        })
        .expect("the replayed entry is reversible again");
    assert_eq!(second_reversal.reverses_entry_id.as_deref(), Some("je-1"));
}

#[test]
fn reverse_missing_entry_returns_not_found() {
    let mut service = InMemoryLedgerService::new();
    let company = service.create_company(company_request()).expect("create company");

    let err = service
        .reverse_entry(ReverseEntryRequest {
            entry_id: "je-missing".into(),
            reason: "not present".into(),
            tenant: tenant(&company.id),
        })
        .expect_err("missing entry must return NotFound");
    assert!(matches!(
        err,
        LedgerError::NotFound(ref message) if message.contains("je-missing")
    ));
}

#[test]
fn audit_trail_is_tenant_scoped() {
    let mut service = InMemoryLedgerService::new();
    let company_a = bootstrap(&mut service);
    let company_b = service.create_company(company_request()).expect("company B");

    let posted = service
        .post_entry(post_request(tenant(&company_a), "je-a", 1_000))
        .expect("post under company A");

    let events_b = service
        .list_audit_trail(AuditTrailFilter {
            entity_id: Some(posted.id.clone()),
            limit: None,
            cursor: None,
            tenant: tenant(&company_b.id),
        })
        .expect("query under company B");
    assert!(events_b.is_empty());

    let events_a = service
        .list_audit_trail(AuditTrailFilter {
            entity_id: Some(posted.id),
            limit: None,
            cursor: None,
            tenant: tenant(&company_a),
        })
        .expect("query under company A");
    assert_eq!(events_a.len(), 1);
}

#[test]
fn audit_trail_cursor_and_limit_paginate() {
    let mut service = InMemoryLedgerService::new();
    let company_id = bootstrap(&mut service);
    let t = tenant(&company_id);
    for k in 0..4 {
        service
            .post_entry(post_request(t.clone(), &format!("je-{k}"), 1_000))
            .expect("post entry");
    }
    let all = service
        .list_audit_trail(AuditTrailFilter {
            entity_id: None,
            limit: None,
            cursor: None,
            tenant: t.clone(),
        })
        .expect("list all");
    assert_eq!(all.len(), 4);

    let limited = service
        .list_audit_trail(AuditTrailFilter {
            entity_id: None,
            limit: Some(2),
            cursor: None,
            tenant: t.clone(),
        })
        .expect("list limited");
    assert_eq!(limited.len(), 2);
    assert_eq!(limited[0].id, all[0].id);

    let after = service
        .list_audit_trail(AuditTrailFilter {
            entity_id: None,
            limit: None,
            cursor: Some(all[1].id.clone()),
            tenant: t,
        })
        .expect("list after cursor");
    assert_eq!(after.len(), 2);
    assert_eq!(after[0].id, all[2].id);
}

#[test]
fn seed_chart_creates_accounts() {
    let mut service = InMemoryLedgerService::new();
    let company = service.create_company(company_request()).expect("create company");

    let accounts = service
        .seed_chart(SeedChartRequest {
            company_id: company.id.clone(),
            tenant: tenant(&company.id),
            accounts: vec![
                ChartAccount {
                    code: "1000".into(),
                    name: "Assets".into(),
                    account_type: AccountType::Asset,
                    parent_code: None,
                    currency_mode: CurrencyMode::FunctionalOnly,
                    tax_code: None,
                    is_summary: true,
                },
                ChartAccount {
                    code: "1100".into(),
                    name: "Cash".into(),
                    account_type: AccountType::Asset,
                    parent_code: Some("1000".into()),
                    currency_mode: CurrencyMode::FunctionalOnly,
                    tax_code: None,
                    is_summary: false,
                },
            ],
        })
        .expect("seed chart");

    assert_eq!(accounts.len(), 2);
    assert!(accounts.first().unwrap().is_summary);
    assert_eq!(accounts[1].parent_account_id.as_deref(), Some(accounts[0].id.as_str()));
}

#[test]
fn ensure_period_tracks_state() {
    let mut service = InMemoryLedgerService::new();
    let company = service.create_company(company_request()).expect("create company");
    let period = PeriodRef { fiscal_year: 2025, period: 3 };

    let journal = service
        .ensure_period(EnsurePeriodRequest {
            journal_id: "jnl-gl".into(),
            period,
            tenant: tenant(&company.id),
        })
        .expect("ensure period");
    assert_eq!(journal.period_state, PeriodState::Open);

    let locked = service
        .lock_period(LockPeriodRequest {
            journal_id: "jnl-gl".into(),
            period,
            action: PeriodAction::SoftClose,
            approval_reference: None,
            tenant: tenant(&company.id),
        })
        .expect("lock period");
    assert_eq!(locked.period_state, PeriodState::SoftClosed);
    assert_eq!(locked.lock_history.len(), 1);
    let lock_info = locked.latest_lock.expect("lock metadata should be recorded");
    assert_eq!(lock_info.period, period);
    assert_eq!(lock_info.action, PeriodAction::SoftClose);
    assert!(lock_info.approval_reference.is_none());

    let reopened = service
        .lock_period(LockPeriodRequest {
            journal_id: "jnl-gl".into(),
            period,
            action: PeriodAction::ReopenFull,
            approval_reference: Some("APR-1".into()),
            tenant: tenant(&company.id),
        })
        .expect("reopen period");
    assert_eq!(reopened.period_state, PeriodState::Open);
    assert_eq!(reopened.lock_history.len(), 2);
    let latest = reopened.latest_lock.expect("latest lock should be captured");
    assert_eq!(latest.action, PeriodAction::ReopenFull);
    assert_eq!(latest.approval_reference.as_deref(), Some("APR-1"));

    let ensured = service
        .ensure_period(EnsurePeriodRequest {
            journal_id: "jnl-gl".into(),
            period,
            tenant: tenant(&company.id),
        })
        .expect("ensure period after reopen");
    assert_eq!(ensured.period_state, PeriodState::Open);
    assert_eq!(ensured.lock_history.len(), 2);
}

#[test]
fn dry_run_previews_without_storing() {
    let mut service = InMemoryLedgerService::new();
    let company_id = bootstrap(&mut service);
    let mut request = post_request(tenant(&company_id), "je-preview", 2_500);
    request.mode = PostingMode::DryRun;
    let preview = service.post_entry(request).expect("dry run should validate");
    assert_eq!(preview.status, EntryStatus::Proposed);

    let err = service
        .reverse_entry(ReverseEntryRequest {
            entry_id: "je-preview".into(),
            reason: "never stored".into(),
            tenant: tenant(&company_id),
        })
        .expect_err("previewed entries are not stored");
    assert!(matches!(err, LedgerError::NotFound(_)));
}

#[test]
fn revalue_currency_returns_no_entries() {
    let mut service = InMemoryLedgerService::new();
    let company_id = bootstrap(&mut service);
    let entries = service
        .revalue_currency(accounting_core::ledger::CurrencyRevaluationRequest {
            journal_id: "jnl-gl".into(),
            period: PeriodRef { fiscal_year: 2025, period: 1 },
            currencies: vec![usd()],
            tenant: tenant(&company_id),
        })
        .expect("revaluation succeeds");
    assert!(entries.is_empty());
}

#[test]
fn empty_entries_are_refused() {
    let mut service = InMemoryLedgerService::new();
    let company_id = bootstrap(&mut service);
    let mut request = post_request(tenant(&company_id), "je-empty", 1_000);
    request.entry.lines = Vec::new();
    let err = service.post_entry(request).expect_err("entries need at least one line");
    assert!(matches!(
        err,
        LedgerError::Validation(ref m) if m.contains("at least one line")
    ));
}

#[test]
fn seed_chart_rejects_duplicate_codes() {
    let mut service = InMemoryLedgerService::new();
    let company = service.create_company(company_request()).expect("create company");
    let template = ChartAccount {
        code: "1000".into(),
        name: "Assets".into(),
        account_type: AccountType::Asset,
        parent_code: None,
        currency_mode: CurrencyMode::FunctionalOnly,
        tax_code: None,
        is_summary: true,
    };
    let second = ChartAccount {
        code: "1000".into(),
        name: "Assets again".into(),
        account_type: AccountType::Asset,
        parent_code: None,
        currency_mode: CurrencyMode::FunctionalOnly,
        tax_code: None,
        is_summary: true,
    };
    let err = service
        .seed_chart(SeedChartRequest {
            company_id: company.id.clone(),
            tenant: tenant(&company.id),
            accounts: vec![template, second],
        })
        .expect_err("a repeated code is refused and nothing is stored");
    assert!(matches!(
        err,
        LedgerError::Validation(ref m) if m.contains("already exists")
    ));

    let missing_parent = ChartAccount {
        code: "1100".into(),
        name: "Cash".into(),
        account_type: AccountType::Asset,
        parent_code: Some("9999".into()),
        currency_mode: CurrencyMode::FunctionalOnly,
        tax_code: None,
        is_summary: false,
    };
    let err = service
        .seed_chart(SeedChartRequest {
            company_id: company.id.clone(),
            tenant: tenant(&company.id),
            accounts: vec![missing_parent],
        })
        .expect_err("an unresolved parent code is refused");
    assert!(matches!(
        err,
        LedgerError::NotFound(ref m) if m.contains("parent account")
    ));
}

#[test]
fn unknown_journal_is_not_found() {
    let mut service = InMemoryLedgerService::new();
    let company = service.create_company(company_request()).expect("create company");
    let err = service
        .ensure_period(EnsurePeriodRequest {
            journal_id: "jnl-unknown".into(),
            period: PeriodRef { fiscal_year: 2025, period: 1 },
            tenant: tenant(&company.id),
        })
        .expect_err("only seeded journals exist");
    assert!(matches!(
        err,
        LedgerError::NotFound(ref m) if m.contains("jnl-unknown")
    ));
}
