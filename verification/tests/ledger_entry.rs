use accounting_core::ledger::Account;
use accounting_core::ledger::AccountType;
use accounting_core::ledger::Currency;
use accounting_core::ledger::CurrencyMode;
use accounting_core::ledger::CurrencyRate;
use accounting_core::ledger::EntryOrigin;
use accounting_core::ledger::EntryStatus;
use accounting_core::ledger::Journal;
use accounting_core::ledger::JournalEntry;
use accounting_core::ledger::JournalLine;
use accounting_core::ledger::LedgerError;
use accounting_core::ledger::LedgerType;
use accounting_core::ledger::PeriodState;
use accounting_core::ledger::PostingSide;
use accounting_core::ledger::ReconciliationStatus;

fn usd() -> Currency {
    Currency { code: "USD".into(), precision: 2 }
}

fn eur() -> Currency {
    Currency { code: "EUR".into(), precision: 2 }
}

fn line(id: &str, account: &str, side: PostingSide, amount: i64) -> JournalLine {
    JournalLine {
        id: id.into(),
        account_id: account.into(),
        side,
        amount_minor: amount,
        currency: usd(),
        functional_amount_minor: amount,
        functional_currency: usd(),
        exchange_rate: None,
        tax_code: None,
        memo: None,
    }
}

fn entry(id: &str, lines: Vec<JournalLine>) -> JournalEntry {
    JournalEntry {
        id: id.into(),
        journal_id: "jnl-1".into(),
        status: EntryStatus::Draft,
        reconciliation_status: ReconciliationStatus::Unreconciled,
        lines,
        origin: EntryOrigin::Manual,
        memo: None,
        reverses_entry_id: None,
        reversed_by_entry_id: None,
    }
}

#[test]
fn journal_entry_double_entry_balance_passes() {
    let entry = entry(
        "je-1",
        vec![
            line("ln-1", "cash", PostingSide::Debit, 10_000),
            line("ln-2", "revenue", PostingSide::Credit, 10_000),
        ],
    );

    assert!(entry.is_balanced());
    assert!(entry.validate().is_ok());
}

#[test]
fn journal_entry_double_entry_balance_fails() {
    let entry = entry(
        "je-2",
        vec![
            line("ln-1", "cash", PostingSide::Debit, 10_000),
            line("ln-2", "revenue", PostingSide::Credit, 9_000),
        ],
    );

    assert!(!entry.is_balanced());
    assert!(matches!(entry.validate(), Err(LedgerError::Validation(_))));
}

#[test]
fn soft_closed_period_requires_override() {
    let journal = Journal {
        id: "jnl-1".into(),
        company_id: "comp-1".into(),
        ledger_type: LedgerType::General,
        period_state: PeriodState::SoftClosed,
        latest_lock: None,
        lock_history: Vec::new(),
    };

    assert!(!journal.can_post(false));
    assert!(journal.can_post(true));

    let closed = Journal { period_state: PeriodState::Closed, ..journal };
    assert!(!closed.can_post(true));
}

#[test]
fn account_restrictions_block_summary_accounts() {
    let summary_account = Account {
        id: "acc-1".into(),
        company_id: "comp-1".into(),
        code: "1000".into(),
        name: "Assets".into(),
        account_type: AccountType::Asset,
        parent_account_id: None,
        currency_mode: CurrencyMode::FunctionalOnly,
        tax_code: None,
        is_summary: true,
        is_active: true,
    };

    let postable = Account { is_summary: false, ..summary_account.clone() };

    assert!(!summary_account.allows_posting());
    assert!(postable.allows_posting());
}

#[test]
fn currency_provenance_requires_rate_metadata() {
    let mut line = JournalLine {
        id: "ln-1".into(),
        account_id: "cash".into(),
        side: PostingSide::Debit,
        amount_minor: 10_000,
        currency: eur(),
        functional_amount_minor: 10_700,
        functional_currency: usd(),
        exchange_rate: None,
        tax_code: None,
        memo: None,
    };

    assert!(!line.has_currency_provenance());

    line.exchange_rate = Some(CurrencyRate {
        base: eur(),
        quote: usd(),
        rate_micros: 1_070_000,
        source: Some("ECB".into()),
        observed_at_millis: 0,
    });

    assert!(line.has_currency_provenance());
}

#[test]
fn reconciliation_status_transitions_enforced() {
    let mut entry = entry(
        "je-3",
        vec![
            line("ln-1", "cash", PostingSide::Debit, 10_000),
            line("ln-2", "revenue", PostingSide::Credit, 10_000),
        ],
    );
    entry.status = EntryStatus::Posted;

    entry.mark_reconciliation_pending("sess-1").expect("can mark pending");
    assert!(matches!(
        entry.reconciliation_status,
        ReconciliationStatus::Pending { ref session_id } if session_id == "sess-1"
    ));

    entry.mark_reconciled("sess-1").expect("can mark reconciled");
    assert!(matches!(
        entry.reconciliation_status,
        ReconciliationStatus::Reconciled { ref session_id } if session_id == "sess-1"
    ));
    assert!(entry.mark_write_off("APR-1").is_err());

    entry.clear_reconciliation();
    entry.mark_write_off("APR-1").expect("can write off with approval");
    assert!(matches!(
        entry.reconciliation_status,
        ReconciliationStatus::WriteOff { ref approval_reference }
            if approval_reference == "APR-1"
    ));
    assert!(entry.mark_reconciliation_pending("sess-2").is_err());
    assert!(entry.mark_reconciled("sess-2").is_err());
}

#[test]
fn fx_conversion_rounds_half_away_from_zero() {
    // 9_300 * 1.075 == 9_997.5, which rounds away from zero to 9_998.
    assert_eq!(accounting_core::ledger::converted_amount(9_300, 1_075_000), 9_998);
    assert_eq!(accounting_core::ledger::converted_amount(-9_300, 1_075_000), -9_998);
    // 9_300 * 1.0753 == 10_000.29, which rounds down to 10_000.
    assert_eq!(accounting_core::ledger::converted_amount(9_300, 1_075_300), 10_000);
}

#[test]
fn write_off_requires_nonblank_reference() {
    let mut posted = entry(
        "je-4",
        vec![
            line("ln-1", "cash", PostingSide::Debit, 100),
            line("ln-2", "revenue", PostingSide::Credit, 100),
        ],
    );
    let err = posted.mark_write_off("   ").expect_err("blank approval reference");
    assert!(matches!(
        err,
        LedgerError::Validation(ref m) if m.contains("approval reference")
    ));
    assert!(matches!(posted.reconciliation_status, ReconciliationStatus::Unreconciled));
}
