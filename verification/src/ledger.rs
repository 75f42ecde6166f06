//! Ledger value types: currencies, accounts, journals, entries and their
//! validation rules (balance, currency provenance, reconciliation status).

use vstd::prelude::*;

use crate::text::trim_spec;
use crate::text::trim_str;

verus! {

pub type CompanyId = String;

pub type AccountId = String;

pub type JournalId = String;

pub type JournalEntryId = String;

pub type JournalLineId = String;

pub type LedgerResult<T> = Result<T, LedgerError>;

#[derive(Debug, PartialEq, Eq)]
pub enum LedgerError {
    NotFound(String),
    Rejected(String),
    Validation(String),
    Internal(String),
}

/// The four error classes, used to state which variant an operation
/// returns without repeating the payload type.
#[derive(Debug, Clone, Copy, PartialEq, Eq, Structural)]
pub enum ErrKind {
    NotFound,
    Rejected,
    Validation,
    Internal,
}

/// Holds when `e` is the `k` variant carrying exactly the message `msg`.
pub open spec fn err_is(e: LedgerError, k: ErrKind, msg: Seq<char>) -> bool {
    match e {
        LedgerError::NotFound(m) => k == ErrKind::NotFound && m@ == msg,
        LedgerError::Rejected(m) => k == ErrKind::Rejected && m@ == msg,
        LedgerError::Validation(m) => k == ErrKind::Validation && m@ == msg,
        LedgerError::Internal(m) => k == ErrKind::Internal && m@ == msg,
    }
}

impl LedgerError {
    /// The reason string carried by any variant.
    pub fn message(&self) -> (r: &String)
        ensures
            err_is(*self, self.kind(), r@),
    {
        match self {
            LedgerError::NotFound(m) => m,
            LedgerError::Rejected(m) => m,
            LedgerError::Validation(m) => m,
            LedgerError::Internal(m) => m,
        }
    }

    pub open spec fn kind(self) -> ErrKind {
        match self {
            LedgerError::NotFound(_) => ErrKind::NotFound,
            LedgerError::Rejected(_) => ErrKind::Rejected,
            LedgerError::Validation(_) => ErrKind::Validation,
            LedgerError::Internal(_) => ErrKind::Internal,
        }
    }
}

impl Clone for LedgerError {
    fn clone(&self) -> (r: Self)
        ensures
            r == *self,
    {
        match self {
            LedgerError::NotFound(m) => LedgerError::NotFound(m.clone()),
            LedgerError::Rejected(m) => LedgerError::Rejected(m.clone()),
            LedgerError::Validation(m) => LedgerError::Validation(m.clone()),
            LedgerError::Internal(m) => LedgerError::Internal(m.clone()),
        }
    }
}

// --- currency ----------------------------------------------------------

#[derive(Debug, PartialEq, Eq)]
pub struct Currency {
    pub code: String,
    pub precision: u8,
}

/// Value equality of currencies, by code and precision.
pub open spec fn currency_eqv(a: Currency, b: Currency) -> bool {
    a.code@ == b.code@ && a.precision == b.precision
}

impl Currency {
    pub fn eqv(&self, other: &Currency) -> (r: bool)
        ensures
            r == currency_eqv(*self, *other),
    {
        crate::text::eq_str(self.code.as_str(), other.code.as_str()) && self.precision
            == other.precision
    }
}

impl Clone for Currency {
    fn clone(&self) -> (r: Self)
        ensures
            r == *self,
    {
        Currency { code: self.code.clone(), precision: self.precision }
    }
}

/// An exchange rate scaled by one million: `rate_micros == 1_075_000`
/// stands for a rate of 1.075 units of `quote` per unit of `base`.
#[derive(Debug, PartialEq)]
pub struct CurrencyRate {
    pub base: Currency,
    pub quote: Currency,
    pub rate_micros: i64,
    pub source: Option<String>,
    pub observed_at_millis: i64,
}

impl Clone for CurrencyRate {
    fn clone(&self) -> (r: Self)
        ensures
            r == *self,
    {
        CurrencyRate {
            base: self.base.clone(),
            quote: self.quote.clone(),
            rate_micros: self.rate_micros,
            source: self.source.clone(),
            observed_at_millis: self.observed_at_millis,
        }
    }
}

/// A tax rate in basis points (one hundredth of a percent).
#[derive(Debug, PartialEq)]
pub struct TaxCode {
    pub code: String,
    pub description: String,
    pub rate_bp: i64,
}

impl Clone for TaxCode {
    fn clone(&self) -> (r: Self)
        ensures
            r == *self,
    {
        TaxCode {
            code: self.code.clone(),
            description: self.description.clone(),
            rate_bp: self.rate_bp,
        }
    }
}

// --- plain enums --------------------------------------------------------

#[derive(Debug, Clone, Copy, PartialEq, Eq, Structural)]
pub enum AccountType {
    Asset,
    Liability,
    Equity,
    Revenue,
    Expense,
    OffBalance,
}

#[derive(Debug, Clone, Copy, PartialEq, Eq, Structural)]
pub enum CurrencyMode {
    FunctionalOnly,
    Transactional,
    MultiCurrency,
}

#[derive(Debug, Clone, Copy, PartialEq, Eq, Structural)]
pub enum LedgerType {
    General,
    AccountsPayable,
    AccountsReceivable,
    Cash,
    SubLedger,
}

#[derive(Debug, Clone, Copy, PartialEq, Eq, Structural)]
pub enum PeriodState {
    Open,
    SoftClosed,
    Closed,
}

#[derive(Debug, Clone, Copy, PartialEq, Eq, Structural)]
pub enum EntryStatus {
    Draft,
    Proposed,
    Posted,
    Reversed,
}

#[derive(Debug, Clone, Copy, PartialEq, Eq, Structural)]
pub enum EntryOrigin {
    Manual,
    Ingestion,
    AiSuggested,
    Adjustment,
}

#[derive(Debug, Clone, Copy, PartialEq, Eq, Structural)]
pub enum PostingSide {
    Debit,
    Credit,
}

#[derive(Debug, Clone, Copy, PartialEq, Eq, Structural)]
pub enum PostingMode {
    DryRun,
    Commit,
}

#[derive(Debug, Clone, Copy, PartialEq, Eq, Structural)]
pub enum PeriodAction {
    SoftClose,
    Close,
    ReopenSoft,
    ReopenFull,
}

#[derive(Debug, Clone, Copy, PartialEq, Eq, Structural)]
pub enum Role {
    Admin,
    Accountant,
    Reviewer,
    Auditor,
    ServiceAccount,
}

// --- accounts -----------------------------------------------------------

#[derive(Debug, PartialEq)]
pub struct Account {
    pub id: AccountId,
    pub company_id: CompanyId,
    pub code: String,
    pub name: String,
    pub account_type: AccountType,
    pub parent_account_id: Option<AccountId>,
    pub currency_mode: CurrencyMode,
    pub tax_code: Option<TaxCode>,
    pub is_summary: bool,
    pub is_active: bool,
}

impl Account {
    /// Active non-summary accounts take postings.
    pub open spec fn spec_allows_posting(self) -> bool {
        self.is_active && !self.is_summary
    }

    pub fn allows_posting(&self) -> (r: bool)
        ensures
            r == self.spec_allows_posting(),
    {
        self.is_active && !self.is_summary
    }
}

impl Clone for Account {
    fn clone(&self) -> (r: Self)
        ensures
            r == *self,
    {
        Account {
            id: self.id.clone(),
            company_id: self.company_id.clone(),
            code: self.code.clone(),
            name: self.name.clone(),
            account_type: self.account_type,
            parent_account_id: self.parent_account_id.clone(),
            currency_mode: self.currency_mode,
            tax_code: self.tax_code.clone(),
            is_summary: self.is_summary,
            is_active: self.is_active,
        }
    }
}

// --- journals and period locks ------------------------------------------

#[derive(Debug, Clone, Copy, PartialEq, Eq, Structural)]
pub struct PeriodRef {
    pub fiscal_year: i32,
    pub period: u8,
}

#[derive(Debug, PartialEq)]
pub struct PeriodLockInfo {
    pub period: PeriodRef,
    pub action: PeriodAction,
    pub approval_reference: Option<String>,
    pub locked_at_millis: i64,
    pub locked_by: String,
}

impl Clone for PeriodLockInfo {
    fn clone(&self) -> (r: Self)
        ensures
            r == *self,
    {
        PeriodLockInfo {
            period: self.period,
            action: self.action,
            approval_reference: self.approval_reference.clone(),
            locked_at_millis: self.locked_at_millis,
            locked_by: self.locked_by.clone(),
        }
    }
}

#[derive(Debug, PartialEq)]
pub struct Journal {
    pub id: JournalId,
    pub company_id: CompanyId,
    pub ledger_type: LedgerType,
    pub period_state: PeriodState,
    pub latest_lock: Option<PeriodLockInfo>,
    pub lock_history: Vec<PeriodLockInfo>,
}

impl Journal {
    /// Open periods always take postings; soft-closed ones only with an
    /// override; closed ones never.
    pub open spec fn spec_can_post(self, allow_soft_close_override: bool) -> bool {
        match self.period_state {
            PeriodState::Open => true,
            PeriodState::SoftClosed => allow_soft_close_override,
            PeriodState::Closed => false,
        }
    }

    pub fn can_post(&self, allow_soft_close_override: bool) -> (r: bool)
        ensures
            r == self.spec_can_post(allow_soft_close_override),
    {
        match self.period_state {
            PeriodState::Open => true,
            PeriodState::SoftClosed => allow_soft_close_override,
            PeriodState::Closed => false,
        }
    }

    #[must_use]
    pub fn lock_history(&self) -> (r: &Vec<PeriodLockInfo>)
        ensures
            r@ == self.lock_history@,
    {
        &self.lock_history
    }

    /// The most recent lock record: the last history entry when one
    /// exists, otherwise the cached `latest_lock`.
    #[must_use]
    pub fn latest_lock(&self) -> (r: Option<&PeriodLockInfo>)
        ensures
            self.lock_history@.len() > 0 ==> (r matches Some(l) && *l == self.lock_history@.last()),
            self.lock_history@.len() == 0 ==> (match r {
                Some(l) => self.latest_lock matches Some(x) && x == *l,
                None => self.latest_lock is None,
            }),
    {
        if self.lock_history.len() > 0 {
            Some(&self.lock_history[self.lock_history.len() - 1])
        } else {
            self.latest_lock.as_ref()
        }
    }
}

/// Value equality of journals; the lock history is compared element for
/// element.
pub open spec fn journal_eqv(a: Journal, b: Journal) -> bool {
    &&& a.id == b.id
    &&& a.company_id == b.company_id
    &&& a.ledger_type == b.ledger_type
    &&& a.period_state == b.period_state
    &&& a.latest_lock == b.latest_lock
    &&& a.lock_history@ == b.lock_history@
}

impl Clone for Journal {
    fn clone(&self) -> (r: Self)
        ensures
            journal_eqv(r, *self),
    {
        let mut history: Vec<PeriodLockInfo> = Vec::new();
        let mut i: usize = 0;
        while i < self.lock_history.len()
            invariant
                i <= self.lock_history@.len(),
                history@ == self.lock_history@.subrange(0, i as int),
            decreases self.lock_history@.len() - i,
        {
            history.push(self.lock_history[i].clone());
            assert(history@ =~= self.lock_history@.subrange(0, i + 1 as int));
            i = i + 1;
        }
        assert(history@ =~= self.lock_history@);
        Journal {
            id: self.id.clone(),
            company_id: self.company_id.clone(),
            ledger_type: self.ledger_type,
            period_state: self.period_state,
            latest_lock: self.latest_lock.clone(),
            lock_history: history,
        }
    }
}

// --- reconciliation status ---------------------------------------------

#[derive(Debug, PartialEq, Eq)]
pub enum ReconciliationStatus {
    Unreconciled,
    Pending { session_id: String },
    Reconciled { session_id: String },
    WriteOff { approval_reference: String },
}

impl Clone for ReconciliationStatus {
    fn clone(&self) -> (r: Self)
        ensures
            r == *self,
    {
        match self {
            ReconciliationStatus::Unreconciled => ReconciliationStatus::Unreconciled,
            ReconciliationStatus::Pending { session_id } => ReconciliationStatus::Pending {
                session_id: session_id.clone(),
            },
            ReconciliationStatus::Reconciled { session_id } => ReconciliationStatus::Reconciled {
                session_id: session_id.clone(),
            },
            ReconciliationStatus::WriteOff { approval_reference } => ReconciliationStatus::WriteOff {
                approval_reference: approval_reference.clone(),
            },
        }
    }
}

// --- journal lines ------------------------------------------------------

/// Rounds `num / den` to the nearest integer, halves away from zero, as
/// the usual floating-point `round` does.
pub open spec fn round_half_away(num: int, den: int) -> int
    recommends
        den > 0,
{
    if num >= 0 {
        (num + den / 2) / den
    } else {
        -(((-num) + den / 2) / den)
    }
}

/// The functional amount that a micro-scaled rate assigns to a
/// transactional amount.
pub open spec fn spec_converted_amount(amount_minor: int, rate_micros: int) -> int {
    round_half_away(amount_minor * rate_micros, 1_000_000)
}

/// Computes `round(amount_minor * rate_micros / 1_000_000)` exactly, with
/// halves away from zero.
pub fn converted_amount(amount_minor: i64, rate_micros: i64) -> (r: i128)
    ensures
        r as int == spec_converted_amount(amount_minor as int, rate_micros as int),
{
    let a: i128 = amount_minor as i128;
    let b: i128 = rate_micros as i128;
    proof {
        assert((a as int) * (b as int) <= 0x4000_0000_0000_0000_0000_0000_0000_0000 && (a as int)
            * (b as int) >= -0x4000_0000_0000_0000_0000_0000_0000_0000) by (nonlinear_arith)
            requires
                -0x8000_0000_0000_0000 <= a as int <= 0x7FFF_FFFF_FFFF_FFFF,
                -0x8000_0000_0000_0000 <= b as int <= 0x7FFF_FFFF_FFFF_FFFF,
        ;
    }
    let prod: i128 = a * b;
    if prod >= 0 {
        let mag: u128 = prod as u128;
        let rounded: u128 = (mag + 500_000) / 1_000_000;
        assert(rounded <= mag + 500_000) by {
            vstd::arithmetic::div_mod::lemma_div_nonincreasing(mag as int + 500_000, 1_000_000);
        }
        rounded as i128
    } else {
        let mag: u128 = (-prod) as u128;
        let rounded: u128 = (mag + 500_000) / 1_000_000;
        assert(rounded <= mag + 500_000) by {
            vstd::arithmetic::div_mod::lemma_div_nonincreasing(mag as int + 500_000, 1_000_000);
        }
        -(rounded as i128)
    }
}

#[derive(Debug, PartialEq)]
pub struct JournalLine {
    pub id: JournalLineId,
    pub account_id: AccountId,
    pub side: PostingSide,
    /// Amount expressed in the transactional currency (minor units).
    pub amount_minor: i64,
    pub currency: Currency,
    /// Amount converted into the company functional currency (minor units).
    pub functional_amount_minor: i64,
    pub functional_currency: Currency,
    pub exchange_rate: Option<CurrencyRate>,
    pub tax_code: Option<TaxCode>,
    pub memo: Option<String>,
}

impl JournalLine {
    /// A line in the functional currency must carry no rate and equal
    /// amounts; a cross-currency line must carry a sourced rate over the
    /// right currency pair whose conversion lands within two minor units
    /// of the functional amount.
    pub open spec fn spec_has_currency_provenance(self) -> bool {
        if currency_eqv(self.currency, self.functional_currency) {
            self.exchange_rate is None && self.amount_minor == self.functional_amount_minor
        } else {
            match self.exchange_rate {
                Some(rate) => {
                    &&& currency_eqv(rate.base, self.currency)
                    &&& currency_eqv(rate.quote, self.functional_currency)
                    &&& rate.source is Some
                    &&& vstd::math::abs(
                        spec_converted_amount(self.amount_minor as int, rate.rate_micros as int)
                            - self.functional_amount_minor as int,
                    ) <= 2
                },
                None => false,
            }
        }
    }

    pub fn has_currency_provenance(&self) -> (r: bool)
        ensures
            r == self.spec_has_currency_provenance(),
    {
        if self.currency.eqv(&self.functional_currency) {
            return self.exchange_rate.is_none() && self.amount_minor
                == self.functional_amount_minor;
        }
        match &self.exchange_rate {
            Some(rate) => {
                if !rate.base.eqv(&self.currency) || !rate.quote.eqv(&self.functional_currency) {
                    return false;
                }
                if rate.source.is_none() {
                    return false;
                }
                let rounded = converted_amount(self.amount_minor, rate.rate_micros);
                let lo: i128 = (self.functional_amount_minor as i128) - 2;
                let hi: i128 = (self.functional_amount_minor as i128) + 2;
                lo <= rounded && rounded <= hi
            },
            None => false,
        }
    }
}

impl Clone for JournalLine {
    fn clone(&self) -> (r: Self)
        ensures
            r == *self,
    {
        JournalLine {
            id: self.id.clone(),
            account_id: self.account_id.clone(),
            side: self.side,
            amount_minor: self.amount_minor,
            currency: self.currency.clone(),
            functional_amount_minor: self.functional_amount_minor,
            functional_currency: self.functional_currency.clone(),
            exchange_rate: self.exchange_rate.clone(),
            tax_code: self.tax_code.clone(),
            memo: self.memo.clone(),
        }
    }
}

/// Currency provenance law: a cross-currency line with no rate, or with
/// a rate over the wrong pair or without a source, never passes; a
/// sourced rate over the right pair whose conversion lands within two
/// minor units always does.
pub proof fn lemma_fx_provenance_rules(line: JournalLine)
    ensures
        !currency_eqv(line.currency, line.functional_currency) && line.exchange_rate is None
            ==> !line.spec_has_currency_provenance(),
        (!currency_eqv(line.currency, line.functional_currency) && (line.exchange_rate
            matches Some(rate) && (!currency_eqv(rate.base, line.currency) || !currency_eqv(
            rate.quote,
            line.functional_currency,
        ) || rate.source is None))) ==> !line.spec_has_currency_provenance(),
        (!currency_eqv(line.currency, line.functional_currency) && (line.exchange_rate
            matches Some(rate) && currency_eqv(rate.base, line.currency) && currency_eqv(
            rate.quote,
            line.functional_currency,
        ) && rate.source is Some && vstd::math::abs(
            spec_converted_amount(line.amount_minor as int, rate.rate_micros as int)
                - line.functional_amount_minor as int,
        ) <= 2)) ==> line.spec_has_currency_provenance(),
{
}

// --- journal entries ----------------------------------------------------

/// Sum of the functional amounts on the debit side.
pub open spec fn sum_debits(lines: Seq<JournalLine>) -> int
    decreases lines.len(),
{
    if lines.len() == 0 {
        0
    } else {
        sum_debits(lines.drop_last()) + (if lines.last().side is Debit {
            lines.last().functional_amount_minor as int
        } else {
            0
        })
    }
}

/// Sum of the functional amounts on the credit side.
pub open spec fn sum_credits(lines: Seq<JournalLine>) -> int
    decreases lines.len(),
{
    if lines.len() == 0 {
        0
    } else {
        sum_credits(lines.drop_last()) + (if lines.last().side is Credit {
            lines.last().functional_amount_minor as int
        } else {
            0
        })
    }
}

/// Every line satisfies the currency provenance rule.
pub open spec fn all_lines_provenant(lines: Seq<JournalLine>) -> bool {
    forall|k: int|
        0 <= k < lines.len() ==> #[trigger] lines[k].spec_has_currency_provenance()
}

#[derive(Debug, PartialEq)]
pub struct JournalEntry {
    pub id: JournalEntryId,
    pub journal_id: JournalId,
    pub status: EntryStatus,
    pub reconciliation_status: ReconciliationStatus,
    pub lines: Vec<JournalLine>,
    pub origin: EntryOrigin,
    pub memo: Option<String>,
    pub reverses_entry_id: Option<JournalEntryId>,
    pub reversed_by_entry_id: Option<JournalEntryId>,
}

/// Value equality of entries; the lines are compared element for element.
pub open spec fn entry_eqv(a: JournalEntry, b: JournalEntry) -> bool {
    &&& a.id == b.id
    &&& a.journal_id == b.journal_id
    &&& a.status == b.status
    &&& a.reconciliation_status == b.reconciliation_status
    &&& a.lines@ == b.lines@
    &&& a.origin == b.origin
    &&& a.memo == b.memo
    &&& a.reverses_entry_id == b.reverses_entry_id
    &&& a.reversed_by_entry_id == b.reversed_by_entry_id
}

impl JournalEntry {
    /// Debits equal credits across all lines, in functional minor units.
    pub open spec fn spec_is_balanced(self) -> bool {
        sum_debits(self.lines@) == sum_credits(self.lines@)
    }

    pub fn is_balanced(&self) -> (r: bool)
        ensures
            r == self.spec_is_balanced(),
    {
        let mut debits: i128 = 0;
        let mut credits: i128 = 0;
        let mut i: usize = 0;
        while i < self.lines.len()
            invariant
                i <= self.lines@.len(),
                debits == sum_debits(self.lines@.subrange(0, i as int)),
                credits == sum_credits(self.lines@.subrange(0, i as int)),
                -(i as int) * 0x8000_0000_0000_0000 <= debits <= (i as int) * 0x8000_0000_0000_0000,
                -(i as int) * 0x8000_0000_0000_0000 <= credits <= (i as int)
                    * 0x8000_0000_0000_0000,
            decreases self.lines@.len() - i,
        {
            proof {
                assert(self.lines@.subrange(0, i + 1 as int).drop_last() =~= self.lines@.subrange(
                    0,
                    i as int,
                ));
                assert(self.lines@.subrange(0, i + 1 as int).last() == self.lines@[i as int]);
            }
            match self.lines[i].side {
                PostingSide::Debit => {
                    debits = debits + (self.lines[i].functional_amount_minor as i128);
                },
                PostingSide::Credit => {
                    credits = credits + (self.lines[i].functional_amount_minor as i128);
                },
            }
            i = i + 1;
        }
        proof {
            assert(self.lines@.subrange(0, self.lines@.len() as int) =~= self.lines@);
        }
        debits == credits
    }

    /// A balanced entry whose lines all carry currency provenance passes;
    /// imbalance is reported before missing provenance.
    pub fn validate(&self) -> (r: LedgerResult<()>)
        ensures
            match r {
                Ok(_) => self.spec_is_balanced() && all_lines_provenant(self.lines@),
                Err(e) => if !self.spec_is_balanced() {
                    err_is(e, ErrKind::Validation, "Journal entry must balance"@)
                } else {
                    !all_lines_provenant(self.lines@) && err_is(
                        e,
                        ErrKind::Validation,
                        "Currency amounts must include provenance"@,
                    )
                },
            },
    {
        if !self.is_balanced() {
            return Err(LedgerError::Validation(String::from_str("Journal entry must balance")));
        }
        let mut i: usize = 0;
        while i < self.lines.len()
            invariant
                self.spec_is_balanced(),
                i <= self.lines@.len(),
                forall|k: int|
                    0 <= k < i ==> #[trigger] self.lines@[k].spec_has_currency_provenance(),
            decreases self.lines@.len() - i,
        {
            if !self.lines[i].has_currency_provenance() {
                assert(!self.lines@[i as int].spec_has_currency_provenance());
                return Err(
                    LedgerError::Validation(
                        String::from_str("Currency amounts must include provenance"),
                    ),
                );
            }
            i = i + 1;
        }
        Ok(())
    }

    /// An unreconciled or pending entry may be (re)marked pending; a
    /// reconciled or written-off one may not.
    pub fn mark_reconciliation_pending(&mut self, session_id: &str) -> (r: LedgerResult<()>)
        ensures
            match r {
                Ok(_) => {
                    &&& (old(self).reconciliation_status is Unreconciled || old(
                        self,
                    ).reconciliation_status is Pending)
                    &&& final(self).reconciliation_status matches ReconciliationStatus::Pending {
                        session_id: s,
                    } && s@ == session_id@
                    &&& entry_fields_except_recon_unchanged(*old(self), *final(self))
                },
                Err(e) => {
                    &&& (old(self).reconciliation_status is Reconciled || old(
                        self,
                    ).reconciliation_status is WriteOff)
                    &&& err_is(
                        e,
                        ErrKind::Validation,
                        "cannot mark entry pending after reconciliation or write-off"@,
                    )
                    &&& *final(self) == *old(self)
                },
            },
    {
        match &self.reconciliation_status {
            ReconciliationStatus::Unreconciled | ReconciliationStatus::Pending { .. } => {
                self.reconciliation_status = ReconciliationStatus::Pending {
                    session_id: session_id.to_owned(),
                };
                Ok(())
            },
            ReconciliationStatus::Reconciled { .. } | ReconciliationStatus::WriteOff { .. } => Err(
                LedgerError::Validation(
                    String::from_str("cannot mark entry pending after reconciliation or write-off"),
                ),
            ),
        }
    }

    /// Only an entry pending under the same session becomes reconciled;
    /// marking an already reconciled entry again is an accepted no-op.
    pub fn mark_reconciled(&mut self, session_id: &str) -> (r: LedgerResult<()>)
        ensures
            match r {
                Ok(_) => {
                    &&& entry_fields_except_recon_unchanged(*old(self), *final(self))
                    &&& match old(self).reconciliation_status {
                        ReconciliationStatus::Pending { session_id: p } => p@ == session_id@
                            && (final(self).reconciliation_status
                            matches ReconciliationStatus::Reconciled { session_id: s } && s@
                            == session_id@),
                        ReconciliationStatus::Reconciled { .. } => *final(self) == *old(self),
                        _ => false,
                    }
                },
                Err(e) => {
                    &&& *final(self) == *old(self)
                    &&& match old(self).reconciliation_status {
                        ReconciliationStatus::Pending { session_id: p } => p@ != session_id@
                            && err_is(
                            e,
                            ErrKind::Validation,
                            "entry is pending reconciliation under session "@ + p@,
                        ),
                        ReconciliationStatus::Reconciled { .. } => false,
                        _ => err_is(
                            e,
                            ErrKind::Validation,
                            "entry must be pending before reconciliation"@,
                        ),
                    }
                },
            },
    {
        match &self.reconciliation_status {
            ReconciliationStatus::Pending { session_id: pending } => {
                if crate::text::eq_str(pending.as_str(), session_id) {
                    self.reconciliation_status = ReconciliationStatus::Reconciled {
                        session_id: session_id.to_owned(),
                    };
                    Ok(())
                } else {
                    let mut msg = String::from_str("entry is pending reconciliation under session ");
                    msg.append(pending.as_str());
                    Err(LedgerError::Validation(msg))
                }
            },
            ReconciliationStatus::Reconciled { .. } => Ok(()),
            ReconciliationStatus::Unreconciled | ReconciliationStatus::WriteOff { .. } => Err(
                LedgerError::Validation(
                    String::from_str("entry must be pending before reconciliation"),
                ),
            ),
        }
    }

    /// Writing off needs a non-blank approval reference and is refused on
    /// reconciled entries; writing off twice is an accepted no-op that
    /// keeps the first reference.
    pub fn mark_write_off(&mut self, approval_reference: &str) -> (r: LedgerResult<()>)
        ensures
            match r {
                Ok(_) => {
                    &&& trim_spec(approval_reference@).len() > 0
                    &&& entry_fields_except_recon_unchanged(*old(self), *final(self))
                    &&& match old(self).reconciliation_status {
                        ReconciliationStatus::Unreconciled | ReconciliationStatus::Pending {
                            ..
                        } => final(self).reconciliation_status
                            matches ReconciliationStatus::WriteOff { approval_reference: a } && a@
                            == approval_reference@,
                        ReconciliationStatus::WriteOff { .. } => *final(self) == *old(self),
                        ReconciliationStatus::Reconciled { .. } => false,
                    }
                },
                Err(e) => {
                    &&& *final(self) == *old(self)
                    &&& if trim_spec(approval_reference@).len() == 0 {
                        err_is(e, ErrKind::Validation, "write-off requires an approval reference"@)
                    } else {
                        old(self).reconciliation_status is Reconciled && err_is(
                            e,
                            ErrKind::Validation,
                            "reconciled entries cannot be written off"@,
                        )
                    }
                },
            },
    {
        let trimmed = trim_str(approval_reference);
        if trimmed.as_str().is_empty() {
            return Err(
                LedgerError::Validation(
                    String::from_str("write-off requires an approval reference"),
                ),
            );
        }
        match &self.reconciliation_status {
            ReconciliationStatus::Unreconciled | ReconciliationStatus::Pending { .. } => {
                self.reconciliation_status = ReconciliationStatus::WriteOff {
                    approval_reference: approval_reference.to_owned(),
                };
                Ok(())
            },
            ReconciliationStatus::Reconciled { .. } => Err(
                LedgerError::Validation(
                    String::from_str("reconciled entries cannot be written off"),
                ),
            ),
            ReconciliationStatus::WriteOff { .. } => Ok(()),
        }
    }

    /// Resets the reconciliation state to `Unreconciled`.
    pub fn clear_reconciliation(&mut self)
        ensures
            final(self).reconciliation_status is Unreconciled,
            entry_fields_except_recon_unchanged(*old(self), *final(self)),
    {
        self.reconciliation_status = ReconciliationStatus::Unreconciled;
    }
}

/// All fields but the reconciliation status agree.
pub open spec fn entry_fields_except_recon_unchanged(a: JournalEntry, b: JournalEntry) -> bool {
    &&& a.id == b.id
    &&& a.journal_id == b.journal_id
    &&& a.status == b.status
    &&& a.lines == b.lines
    &&& a.origin == b.origin
    &&& a.memo == b.memo
    &&& a.reverses_entry_id == b.reverses_entry_id
    &&& a.reversed_by_entry_id == b.reversed_by_entry_id
}

impl Clone for JournalEntry {
    fn clone(&self) -> (r: Self)
        ensures
            entry_eqv(r, *self),
    {
        let mut lines: Vec<JournalLine> = Vec::new();
        let mut i: usize = 0;
        while i < self.lines.len()
            invariant
                i <= self.lines@.len(),
                lines@ == self.lines@.subrange(0, i as int),
            decreases self.lines@.len() - i,
        {
            lines.push(self.lines[i].clone());
            assert(lines@ =~= self.lines@.subrange(0, i + 1 as int));
            i = i + 1;
        }
        assert(lines@ =~= self.lines@);
        JournalEntry {
            id: self.id.clone(),
            journal_id: self.journal_id.clone(),
            status: self.status,
            reconciliation_status: self.reconciliation_status.clone(),
            lines,
            origin: self.origin,
            memo: self.memo.clone(),
            reverses_entry_id: self.reverses_entry_id.clone(),
            reversed_by_entry_id: self.reversed_by_entry_id.clone(),
        }
    }
}

// --- companies, tenants, audit ------------------------------------------

#[derive(Debug, Clone, Copy, PartialEq, Eq, Structural)]
pub struct FiscalCalendar {
    pub periods_per_year: u8,
    pub opening_month: u8,
}

#[derive(Debug, PartialEq)]
pub struct Company {
    pub id: CompanyId,
    pub name: String,
    pub base_currency: Currency,
    pub fiscal_calendar: FiscalCalendar,
    pub metadata: Option<String>,
}

impl Clone for Company {
    fn clone(&self) -> (r: Self)
        ensures
            r == *self,
    {
        Company {
            id: self.id.clone(),
            name: self.name.clone(),
            base_currency: self.base_currency.clone(),
            fiscal_calendar: self.fiscal_calendar,
            metadata: self.metadata.clone(),
        }
    }
}

#[derive(Debug, PartialEq)]
pub struct TenantContext {
    pub tenant_id: CompanyId,
    pub user_id: String,
    pub roles: Vec<Role>,
    pub locale: Option<String>,
}

/// Value equality of tenant contexts; roles compared element for element.
pub open spec fn tenant_eqv(a: TenantContext, b: TenantContext) -> bool {
    &&& a.tenant_id == b.tenant_id
    &&& a.user_id == b.user_id
    &&& a.roles@ == b.roles@
    &&& a.locale == b.locale
}

impl Clone for TenantContext {
    fn clone(&self) -> (r: Self)
        ensures
            tenant_eqv(r, *self),
    {
        let mut roles: Vec<Role> = Vec::new();
        let mut i: usize = 0;
        while i < self.roles.len()
            invariant
                i <= self.roles@.len(),
                roles@ == self.roles@.subrange(0, i as int),
            decreases self.roles@.len() - i,
        {
            roles.push(self.roles[i]);
            assert(roles@ =~= self.roles@.subrange(0, i + 1 as int));
            i = i + 1;
        }
        assert(roles@ =~= self.roles@);
        TenantContext {
            tenant_id: self.tenant_id.clone(),
            user_id: self.user_id.clone(),
            roles,
            locale: self.locale.clone(),
        }
    }
}

#[derive(Debug, PartialEq)]
pub struct AuditEvent {
    pub id: String,
    pub company_id: CompanyId,
    pub entity_id: String,
    pub actor: String,
    pub occurred_at_millis: i64,
    pub description: String,
}

impl Clone for AuditEvent {
    fn clone(&self) -> (r: Self)
        ensures
            r == *self,
    {
        AuditEvent {
            id: self.id.clone(),
            company_id: self.company_id.clone(),
            entity_id: self.entity_id.clone(),
            actor: self.actor.clone(),
            occurred_at_millis: self.occurred_at_millis,
            description: self.description.clone(),
        }
    }
}

// --- requests -----------------------------------------------------------

#[derive(Debug, PartialEq)]
pub struct CreateCompanyRequest {
    pub name: String,
    pub base_currency: Currency,
    pub fiscal_calendar: FiscalCalendar,
    pub tenant: TenantContext,
}

#[derive(Debug, PartialEq)]
pub struct UpsertAccountRequest {
    pub account: Account,
    pub tenant: TenantContext,
}

#[derive(Debug, PartialEq)]
pub struct ChartAccount {
    pub code: String,
    pub name: String,
    pub account_type: AccountType,
    pub parent_code: Option<String>,
    pub currency_mode: CurrencyMode,
    pub tax_code: Option<TaxCode>,
    pub is_summary: bool,
}

#[derive(Debug, PartialEq)]
pub struct SeedChartRequest {
    pub company_id: CompanyId,
    pub accounts: Vec<ChartAccount>,
    pub tenant: TenantContext,
}

#[derive(Debug, PartialEq)]
pub struct PostEntryRequest {
    pub entry: JournalEntry,
    pub tenant: TenantContext,
    pub mode: PostingMode,
}

#[derive(Debug, PartialEq)]
pub struct ReverseEntryRequest {
    pub entry_id: JournalEntryId,
    pub reason: String,
    pub tenant: TenantContext,
}

#[derive(Debug, PartialEq)]
pub struct LockPeriodRequest {
    pub journal_id: JournalId,
    pub period: PeriodRef,
    pub action: PeriodAction,
    pub approval_reference: Option<String>,
    pub tenant: TenantContext,
}

#[derive(Debug, PartialEq)]
pub struct EnsurePeriodRequest {
    pub journal_id: JournalId,
    pub period: PeriodRef,
    pub tenant: TenantContext,
}

#[derive(Debug, PartialEq)]
pub struct CurrencyRevaluationRequest {
    pub journal_id: JournalId,
    pub period: PeriodRef,
    pub currencies: Vec<Currency>,
    pub tenant: TenantContext,
}

#[derive(Debug, PartialEq)]
pub struct AuditTrailFilter {
    pub entity_id: Option<String>,
    pub limit: Option<usize>,
    pub cursor: Option<String>,
    pub tenant: TenantContext,
}

} // verus!
