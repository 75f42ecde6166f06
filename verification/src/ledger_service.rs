//! The in-memory ledger service: one store owning companies, accounts,
//! journals, period states, entries and the audit trail, with the posting,
//! locking, reversal and audit rules proved against it.

use vstd::pervasive::VecAdditionalExecFns;
use vstd::prelude::*;

use crate::ledger::all_lines_provenant;
use crate::ledger::err_is;
use crate::ledger::Account;
use crate::ledger::AuditEvent;
use crate::ledger::AuditTrailFilter;
use crate::ledger::ChartAccount;
use crate::ledger::Company;
use crate::ledger::CompanyId;
use crate::ledger::CreateCompanyRequest;
use crate::ledger::Currency;
use crate::ledger::CurrencyRevaluationRequest;
use crate::ledger::EnsurePeriodRequest;
use crate::ledger::EntryOrigin;
use crate::ledger::EntryStatus;
use crate::ledger::ErrKind;
use crate::ledger::FiscalCalendar;
use crate::ledger::Journal;
use crate::ledger::JournalEntry;
use crate::ledger::JournalId;
use crate::ledger::JournalLine;
use crate::ledger::LedgerError;
use crate::ledger::LedgerResult;
use crate::ledger::LedgerType;
use crate::ledger::LockPeriodRequest;
use crate::ledger::PeriodAction;
use crate::ledger::PeriodLockInfo;
use crate::ledger::PeriodRef;
use crate::ledger::PeriodState;
use crate::ledger::PostEntryRequest;
use crate::ledger::PostingMode;
use crate::ledger::PostingSide;
use crate::ledger::ReconciliationStatus;
use crate::ledger::ReverseEntryRequest;
use crate::ledger::sum_credits;
use crate::ledger::sum_debits;
use crate::ledger::SeedChartRequest;
use crate::ledger::UpsertAccountRequest;
use crate::text::dec_rep;
use crate::text::dec_rep_signed;
use crate::text::eq_str;
use crate::text::i64_to_string;
use crate::text::u64_to_string;

verus! {

/// The recorded lock state of one (company, journal, fiscal period) key.
#[derive(Debug, PartialEq)]
pub struct PeriodEntry {
    pub company_id: CompanyId,
    pub journal_id: JournalId,
    pub period: PeriodRef,
    pub state: PeriodState,
}

/// A stored journal entry together with the company it was posted under.
#[derive(Debug, PartialEq)]
pub struct StoredEntry {
    pub company_id: CompanyId,
    pub entry: JournalEntry,
}

/// All ledger state behind one store.
#[derive(Debug)]
pub struct InMemoryLedgerService {
    pub company_seq: u64,
    pub companies: Vec<Company>,
    pub accounts: Vec<Account>,
    pub journals: Vec<Journal>,
    pub periods: Vec<PeriodEntry>,
    pub entries: Vec<StoredEntry>,
    pub audit_events: Vec<AuditEvent>,
    pub audit_seq: u64,
}

// --- first-match lookups ------------------------------------------------

/// First index whose company id is `id`, searching from `j`; `-1` if none.
pub open spec fn co_idx_from(s: Seq<Company>, id: Seq<char>, j: int) -> int
    decreases s.len() - j when 0 <= j <= s.len()
{
    if j >= s.len() {
        -1
    } else if s[j].id@ == id {
        j
    } else {
        co_idx_from(s, id, j + 1)
    }
}

pub open spec fn co_idx(s: Seq<Company>, id: Seq<char>) -> int {
    co_idx_from(s, id, 0)
}

proof fn lemma_co_idx(s: Seq<Company>, id: Seq<char>, j: int, i: int)
    requires
        0 <= j <= i <= s.len(),
        forall|k: int| j <= k < i ==> s[k].id@ != id,
        i == s.len() || s[i].id@ == id,
    ensures
        co_idx_from(s, id, j) == if i == s.len() {
            -1int
        } else {
            i
        },
    decreases i - j,
{
    if j < i {
        lemma_co_idx(s, id, j + 1, i);
    }
}

fn find_company(v: &Vec<Company>, id: &str) -> (r: Option<usize>)
    ensures
        match r {
            Some(i) => co_idx(v@, id@) == i && i < v@.len() && v@[i as int].id@ == id@,
            None => co_idx(v@, id@) == -1 && forall|k: int| 0 <= k < v@.len() ==> v@[k].id@ != id@,
        },
{
    let mut i: usize = 0;
    while i < v.len()
        invariant
            i <= v@.len(),
            forall|k: int| 0 <= k < i ==> v@[k].id@ != id@,
        decreases v@.len() - i,
    {
        if eq_str(v[i].id.as_str(), id) {
            proof {
                lemma_co_idx(v@, id@, 0, i as int);
            }
            return Some(i);
        }
        i = i + 1;
    }
    proof {
        lemma_co_idx(v@, id@, 0, v@.len() as int);
    }
    None
}

/// First index whose account id is `id`, searching from `j`; `-1` if none.
pub open spec fn acc_idx_from(s: Seq<Account>, id: Seq<char>, j: int) -> int
    decreases s.len() - j when 0 <= j <= s.len()
{
    if j >= s.len() {
        -1
    } else if s[j].id@ == id {
        j
    } else {
        acc_idx_from(s, id, j + 1)
    }
}

pub open spec fn acc_idx(s: Seq<Account>, id: Seq<char>) -> int {
    acc_idx_from(s, id, 0)
}

proof fn lemma_acc_idx(s: Seq<Account>, id: Seq<char>, j: int, i: int)
    requires
        0 <= j <= i <= s.len(),
        forall|k: int| j <= k < i ==> s[k].id@ != id,
        i == s.len() || s[i].id@ == id,
    ensures
        acc_idx_from(s, id, j) == if i == s.len() {
            -1int
        } else {
            i
        },
    decreases i - j,
{
    if j < i {
        lemma_acc_idx(s, id, j + 1, i);
    }
}

fn find_account(v: &Vec<Account>, id: &str) -> (r: Option<usize>)
    ensures
        match r {
            Some(i) => acc_idx(v@, id@) == i && i < v@.len() && v@[i as int].id@ == id@,
            None => acc_idx(v@, id@) == -1 && forall|k: int| 0 <= k < v@.len() ==> v@[k].id@ != id@,
        },
{
    let mut i: usize = 0;
    while i < v.len()
        invariant
            i <= v@.len(),
            forall|k: int| 0 <= k < i ==> v@[k].id@ != id@,
        decreases v@.len() - i,
    {
        if eq_str(v[i].id.as_str(), id) {
            proof {
                lemma_acc_idx(v@, id@, 0, i as int);
            }
            return Some(i);
        }
        i = i + 1;
    }
    proof {
        lemma_acc_idx(v@, id@, 0, v@.len() as int);
    }
    None
}

/// First index holding `code` for `company`, searching from `j`; `-1` if
/// none.
pub open spec fn code_idx_from(s: Seq<Account>, company: Seq<char>, code: Seq<char>, j: int) -> int
    decreases s.len() - j when 0 <= j <= s.len()
{
    if j >= s.len() {
        -1
    } else if s[j].company_id@ == company && s[j].code@ == code {
        j
    } else {
        code_idx_from(s, company, code, j + 1)
    }
}

pub open spec fn code_idx(s: Seq<Account>, company: Seq<char>, code: Seq<char>) -> int {
    code_idx_from(s, company, code, 0)
}

proof fn lemma_code_idx(s: Seq<Account>, company: Seq<char>, code: Seq<char>, j: int, i: int)
    requires
        0 <= j <= i <= s.len(),
        forall|k: int| j <= k < i ==> !(s[k].company_id@ == company && s[k].code@ == code),
        i == s.len() || (s[i].company_id@ == company && s[i].code@ == code),
    ensures
        code_idx_from(s, company, code, j) == if i == s.len() {
            -1int
        } else {
            i
        },
    decreases i - j,
{
    if j < i {
        lemma_code_idx(s, company, code, j + 1, i);
    }
}

fn find_code(v: &Vec<Account>, company: &str, code: &str) -> (r: Option<usize>)
    ensures
        match r {
            Some(i) => code_idx(v@, company@, code@) == i && i < v@.len() && v@[i as int].company_id@
                == company@ && v@[i as int].code@ == code@,
            None => code_idx(v@, company@, code@) == -1,
        },
{
    let mut i: usize = 0;
    while i < v.len()
        invariant
            i <= v@.len(),
            forall|k: int|
                0 <= k < i ==> !(v@[k].company_id@ == company@ && v@[k].code@ == code@),
        decreases v@.len() - i,
    {
        if eq_str(v[i].company_id.as_str(), company) && eq_str(v[i].code.as_str(), code) {
            proof {
                lemma_code_idx(v@, company@, code@, 0, i as int);
            }
            return Some(i);
        }
        i = i + 1;
    }
    proof {
        lemma_code_idx(v@, company@, code@, 0, v@.len() as int);
    }
    None
}

fn contains_code(v: &Vec<Account>, code: &str) -> (r: bool)
    ensures
        r == exists|j: int| 0 <= j < v@.len() && #[trigger] v@[j].code@ == code@,
{
    let mut i: usize = 0;
    while i < v.len()
        invariant
            i <= v@.len(),
            forall|k: int| 0 <= k < i ==> #[trigger] v@[k].code@ != code@,
        decreases v@.len() - i,
    {
        if eq_str(v[i].code.as_str(), code) {
            assert(v@[i as int].code@ == code@);
            return true;
        }
        i = i + 1;
    }
    false
}

/// First index of the journal keyed (company, journal id), from `j`; `-1`
/// if none.
pub open spec fn jnl_idx_from(s: Seq<Journal>, company: Seq<char>, id: Seq<char>, j: int) -> int
    decreases s.len() - j when 0 <= j <= s.len()
{
    if j >= s.len() {
        -1
    } else if s[j].company_id@ == company && s[j].id@ == id {
        j
    } else {
        jnl_idx_from(s, company, id, j + 1)
    }
}

pub open spec fn jnl_idx(s: Seq<Journal>, company: Seq<char>, id: Seq<char>) -> int {
    jnl_idx_from(s, company, id, 0)
}

proof fn lemma_jnl_idx(s: Seq<Journal>, company: Seq<char>, id: Seq<char>, j: int, i: int)
    requires
        0 <= j <= i <= s.len(),
        forall|k: int| j <= k < i ==> !(s[k].company_id@ == company && s[k].id@ == id),
        i == s.len() || (s[i].company_id@ == company && s[i].id@ == id),
    ensures
        jnl_idx_from(s, company, id, j) == if i == s.len() {
            -1int
        } else {
            i
        },
    decreases i - j,
{
    if j < i {
        lemma_jnl_idx(s, company, id, j + 1, i);
    }
}

fn find_journal(v: &Vec<Journal>, company: &str, id: &str) -> (r: Option<usize>)
    ensures
        match r {
            Some(i) => jnl_idx(v@, company@, id@) == i && i < v@.len() && v@[i as int].company_id@
                == company@ && v@[i as int].id@ == id@,
            None => jnl_idx(v@, company@, id@) == -1,
        },
{
    let mut i: usize = 0;
    while i < v.len()
        invariant
            i <= v@.len(),
            forall|k: int| 0 <= k < i ==> !(v@[k].company_id@ == company@ && v@[k].id@ == id@),
        decreases v@.len() - i,
    {
        if eq_str(v[i].company_id.as_str(), company) && eq_str(v[i].id.as_str(), id) {
            proof {
                lemma_jnl_idx(v@, company@, id@, 0, i as int);
            }
            return Some(i);
        }
        i = i + 1;
    }
    proof {
        lemma_jnl_idx(v@, company@, id@, 0, v@.len() as int);
    }
    None
}

/// First index of a recorded period state for the key, from `j`; `-1` if
/// none.
pub open spec fn per_idx_from(
    s: Seq<PeriodEntry>,
    company: Seq<char>,
    journal: Seq<char>,
    period: PeriodRef,
    j: int,
) -> int
    decreases s.len() - j when 0 <= j <= s.len()
{
    if j >= s.len() {
        -1
    } else if s[j].company_id@ == company && s[j].journal_id@ == journal && s[j].period == period {
        j
    } else {
        per_idx_from(s, company, journal, period, j + 1)
    }
}

pub open spec fn per_idx(
    s: Seq<PeriodEntry>,
    company: Seq<char>,
    journal: Seq<char>,
    period: PeriodRef,
) -> int {
    per_idx_from(s, company, journal, period, 0)
}

proof fn lemma_per_idx(
    s: Seq<PeriodEntry>,
    company: Seq<char>,
    journal: Seq<char>,
    period: PeriodRef,
    j: int,
    i: int,
)
    requires
        0 <= j <= i <= s.len(),
        forall|k: int|
            j <= k < i ==> !(s[k].company_id@ == company && s[k].journal_id@ == journal
                && s[k].period == period),
        i == s.len() || (s[i].company_id@ == company && s[i].journal_id@ == journal && s[i].period
            == period),
    ensures
        per_idx_from(s, company, journal, period, j) == if i == s.len() {
            -1int
        } else {
            i
        },
    decreases i - j,
{
    if j < i {
        lemma_per_idx(s, company, journal, period, j + 1, i);
    }
}

fn find_period(v: &Vec<PeriodEntry>, company: &str, journal: &str, period: PeriodRef) -> (r:
    Option<usize>)
    ensures
        match r {
            Some(i) => per_idx(v@, company@, journal@, period) == i && i < v@.len()
                && v@[i as int].company_id@ == company@ && v@[i as int].journal_id@ == journal@
                && v@[i as int].period == period,
            None => per_idx(v@, company@, journal@, period) == -1,
        },
{
    let mut i: usize = 0;
    while i < v.len()
        invariant
            i <= v@.len(),
            forall|k: int|
                0 <= k < i ==> !(v@[k].company_id@ == company@ && v@[k].journal_id@ == journal@
                    && v@[k].period == period),
        decreases v@.len() - i,
    {
        if eq_str(v[i].company_id.as_str(), company) && eq_str(v[i].journal_id.as_str(), journal)
            && v[i].period.fiscal_year == period.fiscal_year && v[i].period.period
            == period.period {
            proof {
                lemma_per_idx(v@, company@, journal@, period, 0, i as int);
            }
            return Some(i);
        }
        i = i + 1;
    }
    proof {
        lemma_per_idx(v@, company@, journal@, period, 0, v@.len() as int);
    }
    None
}

/// First index of the stored entry with this id, from `j`; `-1` if none.
pub open spec fn ent_idx_from(s: Seq<StoredEntry>, id: Seq<char>, j: int) -> int
    decreases s.len() - j when 0 <= j <= s.len()
{
    if j >= s.len() {
        -1
    } else if s[j].entry.id@ == id {
        j
    } else {
        ent_idx_from(s, id, j + 1)
    }
}

pub open spec fn ent_idx(s: Seq<StoredEntry>, id: Seq<char>) -> int {
    ent_idx_from(s, id, 0)
}

proof fn lemma_ent_idx(s: Seq<StoredEntry>, id: Seq<char>, j: int, i: int)
    requires
        0 <= j <= i <= s.len(),
        forall|k: int| j <= k < i ==> s[k].entry.id@ != id,
        i == s.len() || s[i].entry.id@ == id,
    ensures
        ent_idx_from(s, id, j) == if i == s.len() {
            -1int
        } else {
            i
        },
    decreases i - j,
{
    if j < i {
        lemma_ent_idx(s, id, j + 1, i);
    }
}

fn find_entry(v: &Vec<StoredEntry>, id: &str) -> (r: Option<usize>)
    ensures
        match r {
            Some(i) => ent_idx(v@, id@) == i && i < v@.len() && v@[i as int].entry.id@ == id@,
            None => ent_idx(v@, id@) == -1 && forall|k: int|
                0 <= k < v@.len() ==> v@[k].entry.id@ != id@,
        },
{
    let mut i: usize = 0;
    while i < v.len()
        invariant
            i <= v@.len(),
            forall|k: int| 0 <= k < i ==> v@[k].entry.id@ != id@,
        decreases v@.len() - i,
    {
        if eq_str(v[i].entry.id.as_str(), id) {
            proof {
                lemma_ent_idx(v@, id@, 0, i as int);
            }
            return Some(i);
        }
        i = i + 1;
    }
    proof {
        lemma_ent_idx(v@, id@, 0, v@.len() as int);
    }
    None
}

// --- well-formedness ----------------------------------------------------

impl InMemoryLedgerService {
    /// Every stored posted entry balances and carries currency provenance
    /// on each line, and no two stored entries share an id: the store is
    /// keyed by entry id, as the id lookups rely on.
    pub open spec fn wf(self) -> bool {
        &&& forall|k: int|
            0 <= k < self.entries@.len() ==> (#[trigger] self.entries@[k].entry.status is Posted
                ==> self.entries@[k].entry.spec_is_balanced() && all_lines_provenant(
                self.entries@[k].entry.lines@,
            ))
        &&& forall|i: int, j: int|
            0 <= i < j < self.entries@.len() ==> (#[trigger] self.entries@[i].entry.id@)
                != (#[trigger] self.entries@[j].entry.id@)
    }

    /// A fresh, empty service.
    pub fn new() -> (r: Self)
        ensures
            r.company_seq == 0,
            r.companies@.len() == 0,
            r.accounts@.len() == 0,
            r.journals@.len() == 0,
            r.periods@.len() == 0,
            r.entries@.len() == 0,
            r.audit_events@.len() == 0,
            r.audit_seq == 0,
            r.wf(),
    {
        InMemoryLedgerService {
            company_seq: 0,
            companies: Vec::new(),
            accounts: Vec::new(),
            journals: Vec::new(),
            periods: Vec::new(),
            entries: Vec::new(),
            audit_events: Vec::new(),
            audit_seq: 0,
        }
    }
}

// --- chart seeding --------------------------------------------------------

/// The id minted for a seeded account: `acc-{company}-{code}`.
pub open spec fn staged_id(company: Seq<char>, code: Seq<char>) -> Seq<char> {
    "acc-"@ + company + "-"@ + code
}

fn make_account_id(company: &str, code: &str) -> (r: String)
    ensures
        r@ == staged_id(company@, code@),
{
    let mut s = String::from_str("acc-");
    s.append(company);
    s.append("-");
    s.append(code);
    assert(s@ =~= staged_id(company@, code@));
    s
}

/// Whether one of the first `upto` templates carries `code`.
pub open spec fn staged_code_exists(templates: Seq<ChartAccount>, upto: int, code: Seq<char>) -> bool {
    exists|k: int| 0 <= k < upto && #[trigger] templates[k].code@ == code
}

/// The parent id a seeded account under `company` resolves `pc` to:
/// an existing account's id first, else the id minted for an earlier
/// template of this request, else nothing.
pub open spec fn resolve_parent(
    accounts: Seq<Account>,
    company: Seq<char>,
    templates: Seq<ChartAccount>,
    upto: int,
    pc: Seq<char>,
) -> Option<Seq<char>> {
    if code_idx(accounts, company, pc) != -1 {
        Some(accounts[code_idx(accounts, company, pc)].id@)
    } else if staged_code_exists(templates, upto, pc) {
        Some(staged_id(company, pc))
    } else {
        None
    }
}

/// The error `seed_chart` reports while staging template `k` onward, if
/// any: a code already present (in the store or earlier in the request),
/// a parent that resolves nowhere, or a minted id already taken.
pub open spec fn seed_scan_err(
    accounts: Seq<Account>,
    company: Seq<char>,
    templates: Seq<ChartAccount>,
    k: int,
) -> Option<(ErrKind, Seq<char>)>
    decreases templates.len() - k when 0 <= k <= templates.len()
{
    if k >= templates.len() {
        None
    } else {
        let t = templates[k];
        if code_idx(accounts, company, t.code@) != -1 || staged_code_exists(templates, k, t.code@) {
            Some((ErrKind::Validation, "account code "@ + t.code@ + " already exists"@))
        } else if match t.parent_code {
            Some(pc) => resolve_parent(accounts, company, templates, k, pc@) is None,
            None => false,
        } {
            Some((ErrKind::NotFound, "parent account "@ + t.parent_code->Some_0@))
        } else if acc_idx(accounts, staged_id(company, t.code@)) != -1 {
            Some(
                (
                    ErrKind::Validation,
                    "account "@ + staged_id(company, t.code@) + " already exists"@,
                ),
            )
        } else {
            seed_scan_err(accounts, company, templates, k + 1)
        }
    }
}

/// The account staged for template `t` of this request.
pub open spec fn staged_matches(
    a: Account,
    t: ChartAccount,
    accounts: Seq<Account>,
    company: Seq<char>,
    templates: Seq<ChartAccount>,
    k: int,
) -> bool {
    &&& a.id@ == staged_id(company, t.code@)
    &&& a.company_id@ == company
    &&& a.code == t.code
    &&& a.name == t.name
    &&& a.account_type == t.account_type
    &&& match t.parent_code {
        None => a.parent_account_id is None,
        Some(pc) => a.parent_account_id matches Some(p) && Some(p@) == resolve_parent(
            accounts,
            company,
            templates,
            k,
            pc@,
        ),
    }
    &&& a.currency_mode == t.currency_mode
    &&& a.tax_code == t.tax_code
    &&& a.is_summary == t.is_summary
    &&& a.is_active
}

// --- audit trail queries --------------------------------------------------

/// The events of `company`, kept in order, narrowed to `entity` when one
/// is given.
pub open spec fn filter_events(
    s: Seq<AuditEvent>,
    company: Seq<char>,
    entity: Option<Seq<char>>,
) -> Seq<AuditEvent>
    decreases s.len(),
{
    if s.len() == 0 {
        Seq::empty()
    } else {
        let rest = filter_events(s.drop_last(), company, entity);
        if s.last().company_id@ == company && (match entity {
            Some(e) => s.last().entity_id@ == e,
            None => true,
        }) {
            rest.push(s.last())
        } else {
            rest
        }
    }
}

/// First index of the event with id `id`, searching from `j`; `-1` if
/// none.
pub open spec fn aud_idx_from(s: Seq<AuditEvent>, id: Seq<char>, j: int) -> int
    decreases s.len() - j when 0 <= j <= s.len()
{
    if j >= s.len() {
        -1
    } else if s[j].id@ == id {
        j
    } else {
        aud_idx_from(s, id, j + 1)
    }
}

pub open spec fn aud_idx(s: Seq<AuditEvent>, id: Seq<char>) -> int {
    aud_idx_from(s, id, 0)
}

proof fn lemma_aud_idx(s: Seq<AuditEvent>, id: Seq<char>, j: int, i: int)
    requires
        0 <= j <= i <= s.len(),
        forall|k: int| j <= k < i ==> s[k].id@ != id,
        i == s.len() || s[i].id@ == id,
    ensures
        aud_idx_from(s, id, j) == if i == s.len() {
            -1int
        } else {
            i
        },
    decreases i - j,
{
    if j < i {
        lemma_aud_idx(s, id, j + 1, i);
    }
}

/// Drops everything up to and including the first event whose id is the
/// cursor; without a cursor, or when no event carries it, keeps all.
pub open spec fn after_cursor(s: Seq<AuditEvent>, cursor: Option<Seq<char>>) -> Seq<AuditEvent> {
    match cursor {
        None => s,
        Some(c) => {
            let i = aud_idx(s, c);
            if i == -1 {
                s
            } else {
                s.subrange(i + 1, s.len() as int)
            }
        },
    }
}

/// Truncates to `limit` events when one is given.
pub open spec fn limited_events(s: Seq<AuditEvent>, limit: Option<int>) -> Seq<AuditEvent> {
    match limit {
        None => s,
        Some(l) => if 0 <= l < s.len() {
            s.subrange(0, l)
        } else {
            s
        },
    }
}

// --- audit helpers ------------------------------------------------------

/// `news` is `olds` with one event appended, carrying the given fields and
/// the id `audit-{seq_no}`; the timestamp is left open.
pub open spec fn audit_pushed(
    olds: Seq<AuditEvent>,
    news: Seq<AuditEvent>,
    seq_no: nat,
    company_id: Seq<char>,
    entity_id: Seq<char>,
    actor: Seq<char>,
    description: Seq<char>,
) -> bool {
    &&& news.len() == olds.len() + 1
    &&& news.subrange(0, olds.len() as int) == olds
    &&& news.last().id@ == "audit-"@ + dec_rep(seq_no)
    &&& news.last().company_id@ == company_id
    &&& news.last().entity_id@ == entity_id
    &&& news.last().actor@ == actor
    &&& news.last().description@ == description
}

// --- period locking -----------------------------------------------------

/// The state each lock action moves a journal to, from any current state.
pub open spec fn spec_target_state(a: PeriodAction) -> PeriodState {
    match a {
        PeriodAction::SoftClose => PeriodState::SoftClosed,
        PeriodAction::Close => PeriodState::Closed,
        PeriodAction::ReopenSoft => PeriodState::SoftClosed,
        PeriodAction::ReopenFull => PeriodState::Open,
    }
}

pub open spec fn period_state_name(s: PeriodState) -> Seq<char> {
    match s {
        PeriodState::Open => "Open"@,
        PeriodState::SoftClosed => "SoftClosed"@,
        PeriodState::Closed => "Closed"@,
    }
}

/// The audit description a period lock records.
pub open spec fn lock_description(
    p: PeriodRef,
    action: PeriodAction,
    approval: Option<String>,
) -> Seq<char> {
    "Journal period "@ + dec_rep_signed(p.fiscal_year as int) + "/"@ + dec_rep(p.period as nat)
        + " set to "@ + period_state_name(spec_target_state(action)) + " (approval "@ + (
    match approval {
        Some(a) => a@,
        None => "none"@,
    }) + ")"@
}

fn build_lock_description(p: PeriodRef, action: PeriodAction, approval: &Option<String>) -> (r:
    String)
    ensures
        r@ == lock_description(p, action, *approval),
{
    let mut s = String::from_str("Journal period ");
    let year = i64_to_string(p.fiscal_year as i64);
    s.append(year.as_str());
    s.append("/");
    let period = u64_to_string(p.period as u64);
    s.append(period.as_str());
    s.append(" set to ");
    match action {
        PeriodAction::SoftClose => s.append("SoftClosed"),
        PeriodAction::Close => s.append("Closed"),
        PeriodAction::ReopenSoft => s.append("SoftClosed"),
        PeriodAction::ReopenFull => s.append("Open"),
    }
    s.append(" (approval ");
    match approval {
        Some(a) => s.append(a.as_str()),
        None => s.append("none"),
    }
    s.append(")");
    assert(s@ =~= lock_description(p, action, *approval));
    s
}

impl InMemoryLedgerService {
    /// Appends one audit event under the next sequence number.
    fn record_audit_event(
        &mut self,
        company_id: String,
        entity_id: String,
        actor: String,
        description: String,
    )
        requires
            old(self).audit_seq < u64::MAX,
        ensures
            final(self).audit_seq == old(self).audit_seq + 1,
            audit_pushed(
                old(self).audit_events@,
                final(self).audit_events@,
                (old(self).audit_seq + 1) as nat,
                company_id@,
                entity_id@,
                actor@,
                description@,
            ),
            final(self).company_seq == old(self).company_seq,
            final(self).companies == old(self).companies,
            final(self).accounts == old(self).accounts,
            final(self).journals == old(self).journals,
            final(self).periods == old(self).periods,
            final(self).entries == old(self).entries,
    {
        self.audit_seq = self.audit_seq + 1;
        let mut id = String::from_str("audit-");
        let digits = u64_to_string(self.audit_seq);
        id.append(digits.as_str());
        let occurred_at_millis = crate::support::now_millis();
        self.audit_events.push(
            AuditEvent { id, company_id, entity_id, actor, occurred_at_millis, description },
        );
        proof {
            assert(final(self).audit_events@.subrange(0, old(self).audit_events@.len() as int)
                =~= old(self).audit_events@);
        }
    }
}

// --- company creation ---------------------------------------------------

impl InMemoryLedgerService {
    /// Creates a company under the next `co-{n}` id and seeds its open
    /// general ledger journal `jnl-gl`. Never fails.
    pub fn create_company(&mut self, request: CreateCompanyRequest) -> (r: LedgerResult<Company>)
        requires
            old(self).company_seq < u64::MAX,
            old(self).wf(),
        ensures
            final(self).wf(),
            r matches Ok(c) && {
                &&& c.id@ == "co-"@ + dec_rep((old(self).company_seq + 1) as nat)
                &&& c.name == request.name
                &&& c.base_currency == request.base_currency
                &&& c.fiscal_calendar == request.fiscal_calendar
                &&& c.metadata is None
                &&& final(self).company_seq == old(self).company_seq + 1
                &&& final(self).companies@ == old(self).companies@.push(c)
                &&& final(self).journals@.len() == old(self).journals@.len() + 1
                &&& final(self).journals@.subrange(0, old(self).journals@.len() as int) == old(
                    self,
                ).journals@
                &&& final(self).journals@.last().id@ == "jnl-gl"@
                &&& final(self).journals@.last().company_id@ == c.id@
                &&& final(self).journals@.last().ledger_type is General
                &&& final(self).journals@.last().period_state is Open
                &&& final(self).journals@.last().latest_lock is None
                &&& final(self).journals@.last().lock_history@.len() == 0
                &&& final(self).accounts == old(self).accounts
                &&& final(self).periods == old(self).periods
                &&& final(self).entries == old(self).entries
                &&& final(self).audit_events == old(self).audit_events
                &&& final(self).audit_seq == old(self).audit_seq
            },
    {
        self.company_seq = self.company_seq + 1;
        let mut id = String::from_str("co-");
        let digits = u64_to_string(self.company_seq);
        id.append(digits.as_str());
        let company = Company {
            id: id.clone(),
            name: request.name,
            base_currency: request.base_currency,
            fiscal_calendar: request.fiscal_calendar,
            metadata: None,
        };
        self.companies.push(company.clone());
        let journal = Journal {
            id: String::from_str("jnl-gl"),
            company_id: id,
            ledger_type: LedgerType::General,
            period_state: PeriodState::Open,
            latest_lock: None,
            lock_history: Vec::new(),
        };
        self.journals.push(journal);
        proof {
            assert(final(self).journals@.subrange(0, old(self).journals@.len() as int) =~= old(
                self,
            ).journals@);
        }
        Ok(company)
    }
}

// --- account upsert -----------------------------------------------------

/// The error `upsert_account` returns for this state and account, if any:
/// the company must exist; the code must be new for the company; the id
/// must be new; a non-summary account must allow posting; a parent must
/// exist and be a summary account.
pub open spec fn spec_upsert_err(s: InMemoryLedgerService, a: Account) -> Option<
    (ErrKind, Seq<char>),
> {
    if co_idx(s.companies@, a.company_id@) == -1 {
        Some((ErrKind::NotFound, "company "@ + a.company_id@))
    } else if code_idx(s.accounts@, a.company_id@, a.code@) != -1 {
        if s.accounts@[code_idx(s.accounts@, a.company_id@, a.code@)].id@ != a.id@ {
            Some((ErrKind::Validation, "duplicate account code"@))
        } else {
            Some((ErrKind::Validation, "account code already exists"@))
        }
    } else if acc_idx(s.accounts@, a.id@) != -1 {
        Some((ErrKind::Validation, "account identifier already exists"@))
    } else if !a.is_summary && !a.spec_allows_posting() {
        Some((ErrKind::Validation, "account must be active and non-summary"@))
    } else {
        match a.parent_account_id {
            Some(pid) => {
                if acc_idx(s.accounts@, pid@) == -1 {
                    Some((ErrKind::NotFound, "parent account "@ + pid@))
                } else if !s.accounts@[acc_idx(s.accounts@, pid@)].is_summary {
                    Some((ErrKind::Validation, "parent account must be summary"@))
                } else {
                    None
                }
            },
            None => None,
        }
    }
}

// --- posting ------------------------------------------------------------

/// Walks the lines from `j` with `company` the company of the lines seen
/// so far: a line whose account is missing, belongs to another company,
/// or does not allow posting stops the walk with the matching error.
pub open spec fn line_scan_err(
    accounts: Seq<Account>,
    lines: Seq<JournalLine>,
    j: int,
    company: Option<Seq<char>>,
) -> Option<(ErrKind, Seq<char>)>
    decreases lines.len() - j when 0 <= j <= lines.len()
{
    if j >= lines.len() {
        None
    } else {
        let ai = acc_idx(accounts, lines[j].account_id@);
        if ai == -1 {
            Some((ErrKind::NotFound, "account "@ + lines[j].account_id@))
        } else {
            let acct = accounts[ai];
            if match company {
                Some(c) => acct.company_id@ != c,
                None => false,
            } {
                Some(
                    (
                        ErrKind::Validation,
                        "all journal entry lines must belong to the same company"@,
                    ),
                )
            } else if !acct.spec_allows_posting() {
                Some((ErrKind::Validation, "cannot post to summary or inactive account"@))
            } else {
                line_scan_err(
                    accounts,
                    lines,
                    j + 1,
                    match company {
                        Some(c) => Some(c),
                        None => Some(acct.company_id@),
                    },
                )
            }
        }
    }
}

/// The company that the first line's account belongs to.
pub open spec fn entry_company(accounts: Seq<Account>, lines: Seq<JournalLine>) -> Seq<char> {
    accounts[acc_idx(accounts, lines[0].account_id@)].company_id@
}

/// The error `post_entry` returns for this state and entry, if any: the
/// entry must have lines, each resolving to one posting-eligible account
/// of one company; the journal must exist there with an open period; and
/// the entry must balance with currency provenance on every line.
pub open spec fn spec_post_err(s: InMemoryLedgerService, entry: JournalEntry) -> Option<
    (ErrKind, Seq<char>),
> {
    if entry.lines@.len() == 0 {
        Some((ErrKind::Validation, "journal entry must contain at least one line"@))
    } else if line_scan_err(s.accounts@, entry.lines@, 0, None) is Some {
        line_scan_err(s.accounts@, entry.lines@, 0, None)
    } else {
        let company = entry_company(s.accounts@, entry.lines@);
        let ji = jnl_idx(s.journals@, company, entry.journal_id@);
        if ji == -1 {
            Some((ErrKind::NotFound, "journal "@ + entry.journal_id@))
        } else {
            match s.journals@[ji].period_state {
                PeriodState::SoftClosed => Some(
                    (ErrKind::Rejected, "soft-close prevents posting without override"@),
                ),
                PeriodState::Closed => Some((ErrKind::Rejected, "period closed"@)),
                PeriodState::Open => {
                    if !entry.spec_is_balanced() {
                        Some((ErrKind::Validation, "Journal entry must balance"@))
                    } else if !all_lines_provenant(entry.lines@) {
                        Some((ErrKind::Validation, "Currency amounts must include provenance"@))
                    } else {
                        None
                    }
                },
            }
        }
    }
}

// --- reversal -----------------------------------------------------------

pub open spec fn opposite_side(s: PostingSide) -> PostingSide {
    match s {
        PostingSide::Debit => PostingSide::Credit,
        PostingSide::Credit => PostingSide::Debit,
    }
}

/// `b` is `a` with its side flipped, a `-rev` suffix on its line id, and
/// every amount, currency, rate, tax code and memo kept.
pub open spec fn flipped_line(a: JournalLine, b: JournalLine) -> bool {
    &&& b.id@ == a.id@ + "-rev"@
    &&& b.account_id == a.account_id
    &&& b.side == opposite_side(a.side)
    &&& b.amount_minor == a.amount_minor
    &&& b.currency == a.currency
    &&& b.functional_amount_minor == a.functional_amount_minor
    &&& b.functional_currency == a.functional_currency
    &&& b.exchange_rate == a.exchange_rate
    &&& b.tax_code == a.tax_code
    &&& b.memo == a.memo
}

/// Flipping every line swaps the debit and credit totals and keeps
/// currency provenance.
proof fn lemma_flip_lines(a: Seq<JournalLine>, b: Seq<JournalLine>)
    requires
        a.len() == b.len(),
        forall|k: int| 0 <= k < a.len() ==> flipped_line(a[k], #[trigger] b[k]),
    ensures
        sum_debits(b) == sum_credits(a),
        sum_credits(b) == sum_debits(a),
        all_lines_provenant(a) ==> all_lines_provenant(b),
    decreases a.len(),
{
    if a.len() > 0 {
        lemma_flip_lines(a.drop_last(), b.drop_last());
        assert(flipped_line(a.last(), b.last()));
        if all_lines_provenant(a) {
            assert forall|k: int| 0 <= k < b.len() implies #[trigger] b[k].spec_has_currency_provenance() by {
                assert(a[k].spec_has_currency_provenance());
                assert(flipped_line(a[k], b[k]));
            }
        }
    } else {
        if all_lines_provenant(a) {
            assert(all_lines_provenant(b));
        }
    }
}

/// The error `reverse_entry` returns for this state and entry id, if
/// any: the entry must exist, be posted, and not yet be reversed.
pub open spec fn spec_reverse_err(s: InMemoryLedgerService, entry_id: Seq<char>) -> Option<
    (ErrKind, Seq<char>),
> {
    let ei = ent_idx(s.entries@, entry_id);
    if ei == -1 {
        Some((ErrKind::NotFound, "entry "@ + entry_id))
    } else if !(s.entries@[ei].entry.status is Posted) {
        Some((ErrKind::Rejected, "entry is not posted"@))
    } else if s.entries@[ei].entry.reversed_by_entry_id is Some {
        Some((ErrKind::Rejected, "entry already reversed"@))
    } else {
        None
    }
}

impl InMemoryLedgerService {
    /// Reverses a posted, not yet reversed entry: stores a balancing
    /// sign-flipped twin as `Posted` under the minted reversal id
    /// (replacing any entry already stored under that id), links the two
    /// entries, and records two audit events (one on the original, one
    /// on the reversal).
    pub fn reverse_entry(&mut self, request: ReverseEntryRequest) -> (r: LedgerResult<JournalEntry>)
        requires
            old(self).wf(),
            old(self).audit_seq < u64::MAX - 1,
            old(self).entries@.len() < u64::MAX,
        ensures
            final(self).wf(),
            match r {
                Ok(rev) => {
                    let ei = ent_idx(old(self).entries@, request.entry_id@);
                    let orig = old(self).entries@[ei].entry;
                    let seq_no = (old(self).entries@.len() + 1) as nat;
                    let rev_id = orig.id@ + "-rev-"@ + dec_rep(seq_no);
                    let memo = "Reversal of "@ + orig.id@ + ": "@ + request.reason@;
                    &&& spec_reverse_err(*old(self), request.entry_id@) is None
                    &&& ei != -1
                    &&& orig.status is Posted
                    &&& orig.reversed_by_entry_id is None
                    &&& rev.id@ == rev_id
                    &&& rev.journal_id == orig.journal_id
                    &&& rev.status is Posted
                    &&& rev.reconciliation_status is Unreconciled
                    &&& rev.origin is Adjustment
                    &&& rev.memo matches Some(m) && m@ == memo
                    &&& rev.reverses_entry_id matches Some(x) && x@ == orig.id@
                    &&& rev.reversed_by_entry_id is None
                    &&& rev.lines@.len() == orig.lines@.len()
                    &&& forall|k: int|
                        0 <= k < orig.lines@.len() ==> flipped_line(
                            orig.lines@[k],
                            #[trigger] rev.lines@[k],
                        )
                    &&& ({
                        let ri = ent_idx(old(self).entries@, rev_id);
                        if ri == -1 {
                            &&& final(self).entries@.len() == old(self).entries@.len() + 1
                            &&& forall|k: int|
                                0 <= k < old(self).entries@.len() && k != ei
                                    ==> final(self).entries@[k] == old(self).entries@[k]
                            &&& final(self).entries@.last().company_id == old(
                                self,
                            ).entries@[ei].company_id
                            &&& crate::ledger::entry_eqv(final(self).entries@.last().entry, rev)
                        } else {
                            &&& ri != ei
                            &&& final(self).entries@.len() == old(self).entries@.len()
                            &&& forall|k: int|
                                0 <= k < old(self).entries@.len() && k != ei && k != ri
                                    ==> final(self).entries@[k] == old(self).entries@[k]
                            &&& final(self).entries@[ri].company_id == old(
                                self,
                            ).entries@[ei].company_id
                            &&& crate::ledger::entry_eqv(final(self).entries@[ri].entry, rev)
                        }
                    })
                    &&& {
                        let upd = final(self).entries@[ei];
                        &&& upd.company_id == old(self).entries@[ei].company_id
                        &&& upd.entry.id == orig.id
                        &&& upd.entry.journal_id == orig.journal_id
                        &&& upd.entry.status == orig.status
                        &&& upd.entry.reconciliation_status == orig.reconciliation_status
                        &&& upd.entry.lines@ == orig.lines@
                        &&& upd.entry.origin == orig.origin
                        &&& upd.entry.memo == orig.memo
                        &&& upd.entry.reverses_entry_id == orig.reverses_entry_id
                        &&& upd.entry.reversed_by_entry_id matches Some(x) && x@ == rev_id
                    }
                    &&& final(self).audit_seq == old(self).audit_seq + 2
                    &&& final(self).audit_events@.len() == old(self).audit_events@.len() + 2
                    &&& final(self).audit_events@.subrange(0, old(self).audit_events@.len() as int)
                        == old(self).audit_events@
                    &&& {
                        let e1 = final(self).audit_events@[old(self).audit_events@.len() as int];
                        let e2 = final(self).audit_events@.last();
                        &&& e1.id@ == "audit-"@ + dec_rep((old(self).audit_seq + 1) as nat)
                        &&& e1.company_id@ == old(self).entries@[ei].company_id@
                        &&& e1.entity_id@ == orig.id@
                        &&& e1.actor@ == request.tenant.user_id@
                        &&& e1.description@ == "Reversal requested: "@ + request.reason@
                        &&& e2.id@ == "audit-"@ + dec_rep((old(self).audit_seq + 2) as nat)
                        &&& e2.company_id@ == old(self).entries@[ei].company_id@
                        &&& e2.entity_id@ == rev_id
                        &&& e2.actor@ == request.tenant.user_id@
                        &&& e2.description@ == memo
                    }
                    &&& final(self).company_seq == old(self).company_seq
                    &&& final(self).companies == old(self).companies
                    &&& final(self).accounts == old(self).accounts
                    &&& final(self).journals == old(self).journals
                    &&& final(self).periods == old(self).periods
                },
                Err(e) => {
                    &&& *final(self) == *old(self)
                    &&& spec_reverse_err(*old(self), request.entry_id@) matches Some((k, m))
                        && err_is(e, k, m)
                },
            },
    {
        let ei = match find_entry(&self.entries, request.entry_id.as_str()) {
            Some(ei) => ei,
            None => {
                let mut msg = String::from_str("entry ");
                msg.append(request.entry_id.as_str());
                return Err(LedgerError::NotFound(msg));
            },
        };
        match self.entries[ei].entry.status {
            EntryStatus::Posted => {},
            _ => {
                return Err(LedgerError::Rejected(String::from_str("entry is not posted")));
            },
        }
        if self.entries[ei].entry.reversed_by_entry_id.is_some() {
            return Err(LedgerError::Rejected(String::from_str("entry already reversed")));
        }
        let sequence: u64 = self.entries.len() as u64 + 1;
        let company_id = self.entries[ei].company_id.clone();
        let original = self.entries[ei].entry.clone();

        let mut new_entry_id = original.id.clone();
        new_entry_id.append("-rev-");
        let digits = u64_to_string(sequence);
        new_entry_id.append(digits.as_str());

        let mut reversal_memo = String::from_str("Reversal of ");
        reversal_memo.append(original.id.as_str());
        reversal_memo.append(": ");
        reversal_memo.append(request.reason.as_str());

        let mut reversing_lines: Vec<JournalLine> = Vec::new();
        let mut i: usize = 0;
        while i < original.lines.len()
            invariant
                i <= original.lines@.len(),
                reversing_lines@.len() == i,
                forall|k: int|
                    0 <= k < i ==> flipped_line(original.lines@[k], #[trigger] reversing_lines@[k]),
            decreases original.lines@.len() - i,
        {
            let line = &original.lines[i];
            let mut line_id = line.id.clone();
            line_id.append("-rev");
            let side = match line.side {
                PostingSide::Debit => PostingSide::Credit,
                PostingSide::Credit => PostingSide::Debit,
            };
            reversing_lines.push(
                JournalLine {
                    id: line_id,
                    account_id: line.account_id.clone(),
                    side,
                    amount_minor: line.amount_minor,
                    currency: line.currency.clone(),
                    functional_amount_minor: line.functional_amount_minor,
                    functional_currency: line.functional_currency.clone(),
                    exchange_rate: line.exchange_rate.clone(),
                    tax_code: line.tax_code.clone(),
                    memo: line.memo.clone(),
                },
            );
            i = i + 1;
        }
        let reversing_entry = JournalEntry {
            id: new_entry_id.clone(),
            journal_id: original.journal_id.clone(),
            status: EntryStatus::Posted,
            reconciliation_status: ReconciliationStatus::Unreconciled,
            lines: reversing_lines,
            origin: EntryOrigin::Adjustment,
            memo: Some(reversal_memo.clone()),
            reverses_entry_id: Some(original.id.clone()),
            reversed_by_entry_id: None,
        };
        proof {
            lemma_flip_lines(original.lines@, reversing_entry.lines@);
        }

        let ri_opt = find_entry(&self.entries, new_entry_id.as_str());
        proof {
            reveal_strlit("-rev-");
            assert(new_entry_id@.len() >= original.id@.len() + 5);
        }
        let mut updated_original = original;
        updated_original.reversed_by_entry_id = Some(new_entry_id.clone());
        self.entries.set(
            ei,
            StoredEntry { company_id: company_id.clone(), entry: updated_original },
        );
        match ri_opt {
            Some(ri) => {
                proof {
                    assert(old(self).entries@[ri as int].entry.id@ == new_entry_id@);
                    assert(old(self).entries@[ei as int].entry.id@ == original.id@);
                    assert(ri != ei);
                }
                self.entries.set(
                    ri,
                    StoredEntry { company_id: company_id.clone(), entry: reversing_entry.clone() },
                );
                proof {
                    assert forall|a: int, b: int|
                        0 <= a < b < self.entries@.len() implies self.entries@[a].entry.id@
                        != self.entries@[b].entry.id@ by {
                        assert(self.entries@[a].entry.id@ == old(self).entries@[a].entry.id@);
                        assert(self.entries@[b].entry.id@ == old(self).entries@[b].entry.id@);
                    }
                }
            },
            None => {
                self.entries.push(
                    StoredEntry { company_id: company_id.clone(), entry: reversing_entry.clone() },
                );
                proof {
                    assert(self.entries@.subrange(0, old(self).entries@.len() as int) =~= old(
                        self,
                    ).entries@.update(
                        ei as int,
                        self.entries@[ei as int],
                    ));
                    assert forall|a: int, b: int|
                        0 <= a < b < self.entries@.len() implies self.entries@[a].entry.id@
                        != self.entries@[b].entry.id@ by {
                        assert(self.entries@[a].entry.id@ == old(self).entries@[a].entry.id@);
                        if b < old(self).entries@.len() {
                            assert(self.entries@[b].entry.id@ == old(self).entries@[b].entry.id@);
                        } else {
                            assert(old(self).entries@[a].entry.id@ != new_entry_id@);
                        }
                    }
                }
            },
        }

        let mut first_description = String::from_str("Reversal requested: ");
        first_description.append(request.reason.as_str());
        self.record_audit_event(
            company_id.clone(),
            request.entry_id,
            request.tenant.user_id.clone(),
            first_description,
        );
        self.record_audit_event(
            company_id,
            new_entry_id,
            request.tenant.user_id,
            reversal_memo,
        );
        proof {
            assert(self.audit_events@.subrange(0, old(self).audit_events@.len() as int) =~= old(
                self,
            ).audit_events@);
        }
        Ok(reversing_entry)
    }

    /// Adds one account; see [`spec_upsert_err`] for the exact refusals.
    /// On success the account is appended unchanged and returned.
    pub fn upsert_account(&mut self, request: UpsertAccountRequest) -> (r: LedgerResult<Account>)
        requires
            old(self).wf(),
        ensures
            final(self).wf(),
            match r {
                Ok(acc) => {
                    &&& spec_upsert_err(*old(self), request.account) is None
                    &&& acc == request.account
                    &&& final(self).accounts@ == old(self).accounts@.push(request.account)
                    &&& final(self).company_seq == old(self).company_seq
                    &&& final(self).companies == old(self).companies
                    &&& final(self).journals == old(self).journals
                    &&& final(self).periods == old(self).periods
                    &&& final(self).entries == old(self).entries
                    &&& final(self).audit_events == old(self).audit_events
                    &&& final(self).audit_seq == old(self).audit_seq
                },
                Err(e) => {
                    &&& spec_upsert_err(*old(self), request.account) matches Some((k, m))
                        && err_is(e, k, m)
                    &&& *final(self) == *old(self)
                },
            },
    {
        let account = request.account;
        if find_company(&self.companies, account.company_id.as_str()).is_none() {
            let mut msg = String::from_str("company ");
            msg.append(account.company_id.as_str());
            return Err(LedgerError::NotFound(msg));
        }
        match find_code(&self.accounts, account.company_id.as_str(), account.code.as_str()) {
            Some(i) => {
                if !eq_str(self.accounts[i].id.as_str(), account.id.as_str()) {
                    return Err(LedgerError::Validation(String::from_str("duplicate account code")));
                }
                return Err(
                    LedgerError::Validation(String::from_str("account code already exists")),
                );
            },
            None => {},
        }
        if find_account(&self.accounts, account.id.as_str()).is_some() {
            return Err(
                LedgerError::Validation(String::from_str("account identifier already exists")),
            );
        }
        if !account.is_summary && !account.allows_posting() {
            return Err(
                LedgerError::Validation(String::from_str("account must be active and non-summary")),
            );
        }
        match &account.parent_account_id {
            Some(parent_id) => {
                match find_account(&self.accounts, parent_id.as_str()) {
                    Some(pi) => {
                        if !self.accounts[pi].is_summary {
                            return Err(
                                LedgerError::Validation(
                                    String::from_str("parent account must be summary"),
                                ),
                            );
                        }
                    },
                    None => {
                        let mut msg = String::from_str("parent account ");
                        msg.append(parent_id.as_str());
                        return Err(LedgerError::NotFound(msg));
                    },
                }
            },
            None => {},
        }
        self.accounts.push(account.clone());
        Ok(account)
    }

    /// Returns the journal for the tenant's company with the recorded
    /// state of the requested period, recording `Open` on first
    /// reference.
    pub fn ensure_period(&mut self, request: EnsurePeriodRequest) -> (r: LedgerResult<Journal>)
        requires
            old(self).wf(),
        ensures
            final(self).wf(),
            match r {
                Ok(j) => {
                    &&& co_idx(old(self).companies@, request.tenant.tenant_id@) != -1
                    &&& jnl_idx(
                        old(self).journals@,
                        request.tenant.tenant_id@,
                        request.journal_id@,
                    ) != -1
                    &&& {
                        let base = old(self).journals@[jnl_idx(
                            old(self).journals@,
                            request.tenant.tenant_id@,
                            request.journal_id@,
                        )];
                        let pi = per_idx(
                            old(self).periods@,
                            request.tenant.tenant_id@,
                            request.journal_id@,
                            request.period,
                        );
                        &&& j.id == base.id
                        &&& j.company_id == base.company_id
                        &&& j.ledger_type == base.ledger_type
                        &&& j.latest_lock == base.latest_lock
                        &&& j.lock_history@ == base.lock_history@
                        &&& j.period_state == if pi == -1 {
                            PeriodState::Open
                        } else {
                            old(self).periods@[pi].state
                        }
                        &&& if pi == -1 {
                            &&& final(self).periods@.len() == old(self).periods@.len() + 1
                            &&& final(self).periods@.subrange(0, old(self).periods@.len() as int)
                                == old(self).periods@
                            &&& final(self).periods@.last().company_id@
                                == request.tenant.tenant_id@
                            &&& final(self).periods@.last().journal_id@ == request.journal_id@
                            &&& final(self).periods@.last().period == request.period
                            &&& final(self).periods@.last().state is Open
                            &&& final(self).company_seq == old(self).company_seq
                            &&& final(self).companies == old(self).companies
                            &&& final(self).accounts == old(self).accounts
                            &&& final(self).journals == old(self).journals
                            &&& final(self).entries == old(self).entries
                            &&& final(self).audit_events == old(self).audit_events
                            &&& final(self).audit_seq == old(self).audit_seq
                        } else {
                            *final(self) == *old(self)
                        }
                    }
                },
                Err(e) => {
                    &&& *final(self) == *old(self)
                    &&& if co_idx(old(self).companies@, request.tenant.tenant_id@) == -1 {
                        err_is(e, ErrKind::NotFound, "company "@ + request.tenant.tenant_id@)
                    } else {
                        jnl_idx(old(self).journals@, request.tenant.tenant_id@, request.journal_id@)
                            == -1 && err_is(
                            e,
                            ErrKind::NotFound,
                            "journal "@ + request.journal_id@,
                        )
                    }
                },
            },
    {
        if find_company(&self.companies, request.tenant.tenant_id.as_str()).is_none() {
            let mut msg = String::from_str("company ");
            msg.append(request.tenant.tenant_id.as_str());
            return Err(LedgerError::NotFound(msg));
        }
        let ji = match find_journal(
            &self.journals,
            request.tenant.tenant_id.as_str(),
            request.journal_id.as_str(),
        ) {
            Some(ji) => ji,
            None => {
                let mut msg = String::from_str("journal ");
                msg.append(request.journal_id.as_str());
                return Err(LedgerError::NotFound(msg));
            },
        };
        let state = match find_period(
            &self.periods,
            request.tenant.tenant_id.as_str(),
            request.journal_id.as_str(),
            request.period,
        ) {
            Some(pi) => self.periods[pi].state,
            None => {
                self.periods.push(
                    PeriodEntry {
                        company_id: request.tenant.tenant_id.clone(),
                        journal_id: request.journal_id.clone(),
                        period: request.period,
                        state: PeriodState::Open,
                    },
                );
                proof {
                    assert(final(self).periods@.subrange(0, old(self).periods@.len() as int)
                        =~= old(self).periods@);
                }
                PeriodState::Open
            },
        };
        let base = self.journals[ji].clone();
        Ok(
            Journal {
                id: base.id,
                company_id: base.company_id,
                ledger_type: base.ledger_type,
                period_state: state,
                latest_lock: base.latest_lock,
                lock_history: base.lock_history,
            },
        )
    }

    /// Posts or previews an entry; see [`spec_post_err`] for the exact
    /// refusals. A committed entry is stored as `Posted` under its id
    /// with its reconciliation state reset and reversal links cleared,
    /// replacing any entry already stored under that id, and one audit
    /// event is appended; a dry run changes nothing.
    pub fn post_entry(&mut self, request: PostEntryRequest) -> (r: LedgerResult<JournalEntry>)
        requires
            old(self).wf(),
            old(self).audit_seq < u64::MAX,
        ensures
            final(self).wf(),
            match r {
                Ok(p) => {
                    &&& spec_post_err(*old(self), request.entry) is None
                    &&& p.id == request.entry.id
                    &&& p.journal_id == request.entry.journal_id
                    &&& p.lines@ == request.entry.lines@
                    &&& p.origin == request.entry.origin
                    &&& p.memo == request.entry.memo
                    &&& p.reverses_entry_id is None
                    &&& p.reversed_by_entry_id is None
                    &&& p.reconciliation_status is Unreconciled
                    &&& match request.mode {
                        PostingMode::DryRun => p.status is Proposed && *final(self) == *old(self),
                        PostingMode::Commit => {
                            let company = entry_company(old(self).accounts@, request.entry.lines@);
                            let ei = ent_idx(old(self).entries@, request.entry.id@);
                            &&& p.status is Posted
                            &&& if ei == -1 {
                                &&& final(self).entries@.len() == old(self).entries@.len() + 1
                                &&& final(self).entries@.subrange(
                                    0,
                                    old(self).entries@.len() as int,
                                ) == old(self).entries@
                                &&& final(self).entries@.last().company_id@ == company
                                &&& crate::ledger::entry_eqv(final(self).entries@.last().entry, p)
                            } else {
                                &&& final(self).entries@.len() == old(self).entries@.len()
                                &&& forall|k: int|
                                    0 <= k < old(self).entries@.len() && k != ei
                                        ==> final(self).entries@[k] == old(self).entries@[k]
                                &&& final(self).entries@[ei].company_id@ == company
                                &&& crate::ledger::entry_eqv(final(self).entries@[ei].entry, p)
                            }
                            &&& ({
                                let fi = ent_idx(final(self).entries@, request.entry.id@);
                                &&& 0 <= fi < final(self).entries@.len()
                                &&& crate::ledger::entry_eqv(final(self).entries@[fi].entry, p)
                            })
                            &&& audit_pushed(
                                old(self).audit_events@,
                                final(self).audit_events@,
                                (old(self).audit_seq + 1) as nat,
                                company,
                                request.entry.id@,
                                request.tenant.user_id@,
                                "Posted entry "@ + request.entry.journal_id@,
                            )
                            &&& final(self).audit_seq == old(self).audit_seq + 1
                            &&& final(self).company_seq == old(self).company_seq
                            &&& final(self).companies == old(self).companies
                            &&& final(self).accounts == old(self).accounts
                            &&& final(self).journals == old(self).journals
                            &&& final(self).periods == old(self).periods
                        },
                    }
                },
                Err(e) => {
                    &&& spec_post_err(*old(self), request.entry) matches Some((k, m)) && err_is(
                        e,
                        k,
                        m,
                    )
                    &&& *final(self) == *old(self)
                },
            },
    {
        let mut entry = request.entry;
        if entry.lines.len() == 0 {
            return Err(
                LedgerError::Validation(
                    String::from_str("journal entry must contain at least one line"),
                ),
            );
        }
        let ghost lines0 = entry.lines@;
        let mut company: Option<String> = None;
        let mut i: usize = 0;
        while i < entry.lines.len()
            invariant
                old(self).wf(),
                old(self).audit_seq < u64::MAX,
                entry == request.entry,
                entry.lines@ == lines0,
                i <= lines0.len(),
                lines0.len() > 0,
                company is None <==> i == 0,
                company matches Some(c) ==> c@ == entry_company(self.accounts@, lines0),
                line_scan_err(self.accounts@, lines0, 0, None) == line_scan_err(
                    self.accounts@,
                    lines0,
                    i as int,
                    match company {
                        Some(c) => Some(c@),
                        None => None,
                    },
                ),
                *self == *old(self),
            decreases lines0.len() - i,
        {
            let ghost cv: Option<Seq<char>> = match &company {
                Some(c) => Some(c@),
                None => None,
            };
            let ai = match find_account(&self.accounts, entry.lines[i].account_id.as_str()) {
                Some(ai) => ai,
                None => {
                    let mut msg = String::from_str("account ");
                    msg.append(entry.lines[i].account_id.as_str());
                    return Err(LedgerError::NotFound(msg));
                },
            };
            match &company {
                Some(existing) => {
                    if !eq_str(existing.as_str(), self.accounts[ai].company_id.as_str()) {
                        return Err(
                            LedgerError::Validation(
                                String::from_str(
                                    "all journal entry lines must belong to the same company",
                                ),
                            ),
                        );
                    }
                },
                None => {},
            }
            if !self.accounts[ai].allows_posting() {
                return Err(
                    LedgerError::Validation(
                        String::from_str("cannot post to summary or inactive account"),
                    ),
                );
            }
            if company.is_none() {
                company = Some(self.accounts[ai].company_id.clone());
            }
            i = i + 1;
        }
        let company = match company {
            Some(c) => c,
            None => {
                return Err(
                    LedgerError::Internal(String::from_str("journal entry company unresolved")),
                );
            },
        };
        let ji = match find_journal(&self.journals, company.as_str(), entry.journal_id.as_str()) {
            Some(ji) => ji,
            None => {
                let mut msg = String::from_str("journal ");
                msg.append(entry.journal_id.as_str());
                return Err(LedgerError::NotFound(msg));
            },
        };
        match self.journals[ji].period_state {
            PeriodState::Open => {},
            PeriodState::SoftClosed => {
                return Err(
                    LedgerError::Rejected(
                        String::from_str("soft-close prevents posting without override"),
                    ),
                );
            },
            PeriodState::Closed => {
                return Err(LedgerError::Rejected(String::from_str("period closed")));
            },
        }
        match entry.validate() {
            Ok(_) => {},
            Err(e) => {
                return Err(e);
            },
        }
        entry.reverses_entry_id = None;
        entry.reversed_by_entry_id = None;
        entry.reconciliation_status = ReconciliationStatus::Unreconciled;
        match request.mode {
            PostingMode::DryRun => {
                entry.status = EntryStatus::Proposed;
                Ok(entry)
            },
            PostingMode::Commit => {
                entry.status = EntryStatus::Posted;
                let stored = StoredEntry { company_id: company.clone(), entry: entry.clone() };
                match find_entry(&self.entries, entry.id.as_str()) {
                    Some(ei) => {
                        proof {
                            lemma_ent_idx_props(self.entries@, entry.id@, 0);
                        }
                        self.entries.set(ei, stored);
                        proof {
                            lemma_ent_idx(self.entries@, entry.id@, 0, ei as int);
                            assert forall|a: int, b: int|
                                0 <= a < b < self.entries@.len() implies self.entries@[a].entry.id@
                                != self.entries@[b].entry.id@ by {
                                assert(self.entries@[a].entry.id@ == old(
                                    self,
                                ).entries@[a].entry.id@);
                                assert(self.entries@[b].entry.id@ == old(
                                    self,
                                ).entries@[b].entry.id@);
                            }
                        }
                    },
                    None => {
                        self.entries.push(stored);
                        proof {
                            assert(self.entries@.subrange(0, old(self).entries@.len() as int)
                                =~= old(self).entries@);
                            lemma_ent_idx(
                                self.entries@,
                                entry.id@,
                                0,
                                old(self).entries@.len() as int,
                            );
                            assert forall|a: int, b: int|
                                0 <= a < b < self.entries@.len() implies self.entries@[a].entry.id@
                                != self.entries@[b].entry.id@ by {
                                assert(self.entries@[a].entry.id@ == old(
                                    self,
                                ).entries@[a].entry.id@);
                                if b < old(self).entries@.len() {
                                    assert(self.entries@[b].entry.id@ == old(
                                        self,
                                    ).entries@[b].entry.id@);
                                } else {
                                    assert(old(self).entries@[a].entry.id@ != entry.id@);
                                }
                            }
                        }
                    },
                }
                let mut description = String::from_str("Posted entry ");
                description.append(entry.journal_id.as_str());
                self.record_audit_event(
                    company,
                    entry.id.clone(),
                    request.tenant.user_id,
                    description,
                );
                Ok(entry)
            },
        }
    }

    /// Sets the period state that `action` maps to, unconditionally from
    /// any current state, appends one lock record to the journal's
    /// history, records the period's state, and appends one audit event.
    pub fn lock_period(&mut self, request: LockPeriodRequest) -> (r: LedgerResult<Journal>)
        requires
            old(self).wf(),
            old(self).audit_seq < u64::MAX,
        ensures
            final(self).wf(),
            match r {
                Ok(j) => {
                    let ji = jnl_idx(
                        old(self).journals@,
                        request.tenant.tenant_id@,
                        request.journal_id@,
                    );
                    let target = spec_target_state(request.action);
                    &&& ji != -1
                    &&& final(self).journals@.len() == old(self).journals@.len()
                    &&& forall|k: int|
                        0 <= k < old(self).journals@.len() && k != ji ==> final(self).journals@[k]
                            == old(self).journals@[k]
                    &&& {
                        let upd = final(self).journals@[ji];
                        let base = old(self).journals@[ji];
                        &&& upd.id == base.id
                        &&& upd.company_id == base.company_id
                        &&& upd.ledger_type == base.ledger_type
                        &&& upd.period_state == target
                        &&& upd.lock_history@.len() == base.lock_history@.len() + 1
                        &&& upd.lock_history@.subrange(0, base.lock_history@.len() as int)
                            == base.lock_history@
                        &&& upd.lock_history@.last().period == request.period
                        &&& upd.lock_history@.last().action == request.action
                        &&& upd.lock_history@.last().approval_reference
                            == request.approval_reference
                        &&& upd.lock_history@.last().locked_by@ == request.tenant.user_id@
                        &&& upd.latest_lock matches Some(l) && l == upd.lock_history@.last()
                        &&& crate::ledger::journal_eqv(j, upd)
                    }
                    &&& {
                        let pi = per_idx(
                            old(self).periods@,
                            request.tenant.tenant_id@,
                            request.journal_id@,
                            request.period,
                        );
                        if pi == -1 {
                            &&& final(self).periods@.len() == old(self).periods@.len() + 1
                            &&& final(self).periods@.subrange(0, old(self).periods@.len() as int)
                                == old(self).periods@
                            &&& final(self).periods@.last().company_id@
                                == request.tenant.tenant_id@
                            &&& final(self).periods@.last().journal_id@ == request.journal_id@
                            &&& final(self).periods@.last().period == request.period
                            &&& final(self).periods@.last().state == target
                        } else {
                            &&& final(self).periods@.len() == old(self).periods@.len()
                            &&& forall|k: int|
                                0 <= k < old(self).periods@.len() && k != pi
                                    ==> final(self).periods@[k] == old(self).periods@[k]
                            &&& final(self).periods@[pi].company_id
                                == old(self).periods@[pi].company_id
                            &&& final(self).periods@[pi].journal_id
                                == old(self).periods@[pi].journal_id
                            &&& final(self).periods@[pi].period == request.period
                            &&& final(self).periods@[pi].state == target
                        }
                    }
                    &&& audit_pushed(
                        old(self).audit_events@,
                        final(self).audit_events@,
                        (old(self).audit_seq + 1) as nat,
                        request.tenant.tenant_id@,
                        request.journal_id@,
                        request.tenant.user_id@,
                        lock_description(request.period, request.action, request.approval_reference),
                    )
                    &&& final(self).audit_seq == old(self).audit_seq + 1
                    &&& final(self).company_seq == old(self).company_seq
                    &&& final(self).companies == old(self).companies
                    &&& final(self).accounts == old(self).accounts
                    &&& final(self).entries == old(self).entries
                },
                Err(e) => {
                    &&& jnl_idx(old(self).journals@, request.tenant.tenant_id@, request.journal_id@)
                        == -1
                    &&& err_is(e, ErrKind::NotFound, "journal "@ + request.journal_id@)
                    &&& *final(self) == *old(self)
                },
            },
    {
        let ji = match find_journal(
            &self.journals,
            request.tenant.tenant_id.as_str(),
            request.journal_id.as_str(),
        ) {
            Some(ji) => ji,
            None => {
                let mut msg = String::from_str("journal ");
                msg.append(request.journal_id.as_str());
                return Err(LedgerError::NotFound(msg));
            },
        };
        let target = match request.action {
            PeriodAction::SoftClose => PeriodState::SoftClosed,
            PeriodAction::Close => PeriodState::Closed,
            PeriodAction::ReopenSoft => PeriodState::SoftClosed,
            PeriodAction::ReopenFull => PeriodState::Open,
        };
        let mut journal = self.journals[ji].clone();
        journal.period_state = target;
        let record = PeriodLockInfo {
            period: request.period,
            action: request.action,
            approval_reference: request.approval_reference.clone(),
            locked_at_millis: crate::support::now_millis(),
            locked_by: request.tenant.user_id.clone(),
        };
        journal.lock_history.push(record.clone());
        journal.latest_lock = Some(record);
        let updated = journal.clone();
        proof {
            assert(journal.lock_history@.subrange(
                0,
                old(self).journals@[ji as int].lock_history@.len() as int,
            ) =~= old(self).journals@[ji as int].lock_history@);
        }
        self.journals.set(ji, journal);
        match find_period(
            &self.periods,
            request.tenant.tenant_id.as_str(),
            request.journal_id.as_str(),
            request.period,
        ) {
            Some(pi) => {
                let upd = PeriodEntry {
                    company_id: self.periods[pi].company_id.clone(),
                    journal_id: self.periods[pi].journal_id.clone(),
                    period: request.period,
                    state: target,
                };
                self.periods.set(pi, upd);
            },
            None => {
                self.periods.push(
                    PeriodEntry {
                        company_id: request.tenant.tenant_id.clone(),
                        journal_id: request.journal_id.clone(),
                        period: request.period,
                        state: target,
                    },
                );
                proof {
                    assert(self.periods@.subrange(0, old(self).periods@.len() as int) =~= old(
                        self,
                    ).periods@);
                }
            },
        }
        let description = build_lock_description(
            request.period,
            request.action,
            &request.approval_reference,
        );
        self.record_audit_event(
            request.tenant.tenant_id,
            request.journal_id,
            request.tenant.user_id,
            description,
        );
        Ok(updated)
    }

    /// Returns the audit trail scoped to the tenant's company, optionally
    /// narrowed to one entity, continued after a cursor id, and truncated
    /// to a limit; the store is never changed.
    pub fn list_audit_trail(&self, filter: AuditTrailFilter) -> (r: LedgerResult<Vec<AuditEvent>>)
        ensures
            r matches Ok(v) && v@ == limited_events(
                after_cursor(
                    filter_events(
                        self.audit_events@,
                        filter.tenant.tenant_id@,
                        match filter.entity_id {
                            Some(e) => Some(e@),
                            None => None,
                        },
                    ),
                    match filter.cursor {
                        Some(c) => Some(c@),
                        None => None,
                    },
                ),
                match filter.limit {
                    Some(l) => Some(l as int),
                    None => None,
                },
            ),
    {
        let ghost entity_view: Option<Seq<char>> = match &filter.entity_id {
            Some(e) => Some(e@),
            None => None,
        };
        let mut events: Vec<AuditEvent> = Vec::new();
        let mut i: usize = 0;
        while i < self.audit_events.len()
            invariant
                i <= self.audit_events@.len(),
                entity_view == (match filter.entity_id {
                    Some(e) => Some(e@),
                    None => None,
                }),
                events@ == filter_events(
                    self.audit_events@.subrange(0, i as int),
                    filter.tenant.tenant_id@,
                    entity_view,
                ),
            decreases self.audit_events@.len() - i,
        {
            proof {
                assert(self.audit_events@.subrange(0, i + 1 as int).drop_last()
                    =~= self.audit_events@.subrange(0, i as int));
            }
            let event = &self.audit_events[i];
            let company_matches = eq_str(event.company_id.as_str(), filter.tenant.tenant_id.as_str());
            let entity_matches = match &filter.entity_id {
                Some(entity) => eq_str(event.entity_id.as_str(), entity.as_str()),
                None => true,
            };
            if company_matches && entity_matches {
                events.push(event.clone());
            }
            i = i + 1;
        }
        proof {
            assert(self.audit_events@.subrange(0, self.audit_events@.len() as int)
                =~= self.audit_events@);
        }
        let ghost filtered = events@;

        let start: usize = match &filter.cursor {
            Some(cursor) => {
                let mut pos: usize = 0;
                let mut found: Option<usize> = None;
                while pos < events.len() && found.is_none()
                    invariant
                        pos <= events@.len(),
                        match found {
                            Some(p) => p < events@.len() && events@[p as int].id@ == cursor@
                                && forall|k: int| 0 <= k < p ==> events@[k].id@ != cursor@,
                            None => forall|k: int| 0 <= k < pos ==> events@[k].id@ != cursor@,
                        },
                        found is Some ==> pos == found.unwrap(),
                    decreases
                            (if found is None {
                                1int
                            } else {
                                0int
                            }),
                            events@.len() - pos,
                {
                    if eq_str(events[pos].id.as_str(), cursor.as_str()) {
                        found = Some(pos);
                    } else {
                        pos = pos + 1;
                    }
                }
                proof {
                    match found {
                        Some(p) => {
                            lemma_aud_idx(events@, cursor@, 0, p as int);
                        },
                        None => {
                            lemma_aud_idx(events@, cursor@, 0, events@.len() as int);
                        },
                    }
                }
                match found {
                    Some(p) => p + 1,
                    None => 0,
                }
            },
            None => 0,
        };
        let mut out: Vec<AuditEvent> = Vec::new();
        let ghost upper = after_cursor(
            filtered,
            match filter.cursor {
                Some(c) => Some(c@),
                None => None,
            },
        );
        proof {
            assert(upper =~= filtered.subrange(start as int, filtered.len() as int));
        }
        let stop: usize = match &filter.limit {
            Some(limit) => {
                if events.len() - start > *limit {
                    start + *limit
                } else {
                    events.len()
                }
            },
            None => events.len(),
        };
        let mut j: usize = start;
        while j < stop
            invariant
                start <= j <= stop <= events@.len(),
                out@ == events@.subrange(start as int, j as int),
            decreases stop - j,
        {
            out.push(events[j].clone());
            assert(out@ =~= events@.subrange(start as int, j + 1 as int));
            j = j + 1;
        }
        proof {
            assert(out@ =~= limited_events(
                upper,
                match filter.limit {
                    Some(l) => Some(l as int),
                    None => None,
                },
            ));
        }
        Ok(out)
    }

    /// Stages every chart template against the store and the templates
    /// before it, then commits all of them at once: no account is stored
    /// unless every template passes.
    pub fn seed_chart(&mut self, request: SeedChartRequest) -> (r: LedgerResult<Vec<Account>>)
        requires
            old(self).wf(),
        ensures
            final(self).wf(),
            match r {
                Ok(v) => {
                    &&& co_idx(old(self).companies@, request.company_id@) != -1
                    &&& seed_scan_err(
                        old(self).accounts@,
                        request.company_id@,
                        request.accounts@,
                        0,
                    ) is None
                    &&& v@.len() == request.accounts@.len()
                    &&& forall|k: int|
                        0 <= k < v@.len() ==> staged_matches(
                            #[trigger] v@[k],
                            request.accounts@[k],
                            old(self).accounts@,
                            request.company_id@,
                            request.accounts@,
                            k,
                        )
                    &&& final(self).accounts@ == old(self).accounts@ + v@
                    &&& final(self).company_seq == old(self).company_seq
                    &&& final(self).companies == old(self).companies
                    &&& final(self).journals == old(self).journals
                    &&& final(self).periods == old(self).periods
                    &&& final(self).entries == old(self).entries
                    &&& final(self).audit_events == old(self).audit_events
                    &&& final(self).audit_seq == old(self).audit_seq
                },
                Err(e) => {
                    &&& *final(self) == *old(self)
                    &&& if co_idx(old(self).companies@, request.company_id@) == -1 {
                        err_is(e, ErrKind::NotFound, "company "@ + request.company_id@)
                    } else {
                        seed_scan_err(old(self).accounts@, request.company_id@, request.accounts@, 0)
                            matches Some((k, m)) && err_is(e, k, m)
                    }
                },
            },
    {
        if find_company(&self.companies, request.company_id.as_str()).is_none() {
            let mut msg = String::from_str("company ");
            msg.append(request.company_id.as_str());
            return Err(LedgerError::NotFound(msg));
        }
        let mut staged: Vec<Account> = Vec::new();
        let mut k: usize = 0;
        while k < request.accounts.len()
            invariant
                old(self).wf(),
                *self == *old(self),
                co_idx(old(self).companies@, request.company_id@) != -1,
                k <= request.accounts@.len(),
                staged@.len() == k,
                forall|j: int|
                    0 <= j < k ==> staged_matches(
                        #[trigger] staged@[j],
                        request.accounts@[j],
                        self.accounts@,
                        request.company_id@,
                        request.accounts@,
                        j,
                    ),
                forall|j: int| 0 <= j < k ==> #[trigger] staged@[j].code@
                    == request.accounts@[j].code@,
                seed_scan_err(self.accounts@, request.company_id@, request.accounts@, 0)
                    == seed_scan_err(self.accounts@, request.company_id@, request.accounts@, k as int),
            decreases request.accounts@.len() - k,
        {
            let code_in_staged = contains_code(&staged, request.accounts[k].code.as_str());
            proof {
                if code_in_staged {
                    let j = choose|j: int|
                        0 <= j < staged@.len() && staged@[j].code@ == request.accounts@[k as int].code@;
                    assert(request.accounts@[j].code@ == request.accounts@[k as int].code@);
                } else {
                    assert forall|j: int|
                        0 <= j < k implies #[trigger] request.accounts@[j].code@
                        != request.accounts@[k as int].code@ by {
                        assert(staged@[j].code@ == request.accounts@[j].code@);
                    }
                }
            }
            if find_code(
                &self.accounts,
                request.company_id.as_str(),
                request.accounts[k].code.as_str(),
            ).is_some() || code_in_staged {
                let mut msg = String::from_str("account code ");
                msg.append(request.accounts[k].code.as_str());
                msg.append(" already exists");
                return Err(LedgerError::Validation(msg));
            }
            let parent_account_id: Option<String> = match &request.accounts[k].parent_code {
                Some(parent_code) => {
                    match find_code(
                        &self.accounts,
                        request.company_id.as_str(),
                        parent_code.as_str(),
                    ) {
                        Some(pi) => Some(self.accounts[pi].id.clone()),
                        None => {
                            let staged_parent = contains_code(&staged, parent_code.as_str());
                            proof {
                                if staged_parent {
                                    let j = choose|j: int|
                                        0 <= j < staged@.len() && staged@[j].code@ == parent_code@;
                                    assert(request.accounts@[j].code@ == parent_code@);
                                } else {
                                    assert forall|j: int|
                                        0 <= j < k implies #[trigger] request.accounts@[j].code@
                                        != parent_code@ by {
                                        assert(staged@[j].code@ == request.accounts@[j].code@);
                                    }
                                }
                            }
                            if staged_parent {
                                Some(
                                    make_account_id(
                                        request.company_id.as_str(),
                                        parent_code.as_str(),
                                    ),
                                )
                            } else {
                                let mut msg = String::from_str("parent account ");
                                msg.append(parent_code.as_str());
                                return Err(LedgerError::NotFound(msg));
                            }
                        },
                    }
                },
                None => None,
            };
            let account_id = make_account_id(
                request.company_id.as_str(),
                request.accounts[k].code.as_str(),
            );
            if find_account(&self.accounts, account_id.as_str()).is_some() {
                let mut msg = String::from_str("account ");
                msg.append(account_id.as_str());
                msg.append(" already exists");
                return Err(LedgerError::Validation(msg));
            }
            let account = Account {
                id: account_id,
                company_id: request.company_id.clone(),
                code: request.accounts[k].code.clone(),
                name: request.accounts[k].name.clone(),
                account_type: request.accounts[k].account_type,
                parent_account_id,
                currency_mode: request.accounts[k].currency_mode,
                tax_code: request.accounts[k].tax_code.clone(),
                is_summary: request.accounts[k].is_summary,
                is_active: true,
            };
            if !account.is_summary && !account.allows_posting() {
                return Err(
                    LedgerError::Validation(
                        String::from_str("account must be active and non-summary"),
                    ),
                );
            }
            staged.push(account);
            k = k + 1;
        }
        proof {
            assert(old(self).accounts@ + staged@.subrange(0, 0) =~= old(self).accounts@);
        }
        let mut stored: usize = 0;
        while stored < staged.len()
            invariant
                old(self).wf(),
                co_idx(old(self).companies@, request.company_id@) != -1,
                seed_scan_err(
                    old(self).accounts@,
                    request.company_id@,
                    request.accounts@,
                    0,
                ) is None,
                staged@.len() == request.accounts@.len(),
                forall|j: int|
                    0 <= j < staged@.len() ==> staged_matches(
                        #[trigger] staged@[j],
                        request.accounts@[j],
                        old(self).accounts@,
                        request.company_id@,
                        request.accounts@,
                        j,
                    ),
                stored <= staged@.len(),
                self.accounts@ == old(self).accounts@ + staged@.subrange(0, stored as int),
                self.company_seq == old(self).company_seq,
                self.companies == old(self).companies,
                self.journals == old(self).journals,
                self.periods == old(self).periods,
                self.entries == old(self).entries,
                self.audit_events == old(self).audit_events,
                self.audit_seq == old(self).audit_seq,
            decreases staged@.len() - stored,
        {
            self.accounts.push(staged[stored].clone());
            assert(self.accounts@ =~= old(self).accounts@ + staged@.subrange(
                0,
                stored + 1 as int,
            ));
            stored = stored + 1;
        }
        proof {
            assert(self.accounts@ =~= old(self).accounts@ + staged@);
        }
        Ok(staged)
    }

    /// Currency revaluation is not performed by this core: the call
    /// succeeds with no entries and leaves the state untouched.
    pub fn revalue_currency(&mut self, request: CurrencyRevaluationRequest) -> (r: LedgerResult<
        Vec<JournalEntry>,
    >)
        requires
            old(self).wf(),
        ensures
            final(self).wf(),
            *final(self) == *old(self),
            r matches Ok(v) && v@.len() == 0,
    {
        let _ = request;
        Ok(Vec::new())
    }
}

// --- laws -----------------------------------------------------------------

/// Balance law: in a well-formed store every posted entry balances, with
/// currency provenance on each of its lines.
pub proof fn lemma_posted_entries_balanced(s: InMemoryLedgerService)
    requires
        s.wf(),
    ensures
        forall|k: int|
            0 <= k < s.entries@.len() && (#[trigger] s.entries@[k].entry.status) is Posted
                ==> s.entries@[k].entry.spec_is_balanced() && all_lines_provenant(
                s.entries@[k].entry.lines@,
            ),
{
}

/// Period gating law: once the lines resolve and the journal is found,
/// a soft-closed period rejects with the soft-close message, a closed one
/// with the closed message, and an open period accepts every balanced,
/// provenant entry.
pub proof fn lemma_period_gating(s: InMemoryLedgerService, entry: JournalEntry)
    requires
        entry.lines@.len() > 0,
        line_scan_err(s.accounts@, entry.lines@, 0, None) is None,
        jnl_idx(s.journals@, entry_company(s.accounts@, entry.lines@), entry.journal_id@) != -1,
    ensures
        ({
            let ji = jnl_idx(s.journals@, entry_company(s.accounts@, entry.lines@), entry.journal_id@);
            match s.journals@[ji].period_state {
                PeriodState::SoftClosed => spec_post_err(s, entry) == Some(
                    (ErrKind::Rejected, "soft-close prevents posting without override"@),
                ),
                PeriodState::Closed => spec_post_err(s, entry) == Some(
                    (ErrKind::Rejected, "period closed"@),
                ),
                PeriodState::Open => (entry.spec_is_balanced() && all_lines_provenant(entry.lines@))
                    ==> spec_post_err(s, entry) is None,
            }
        }),
{
}

/// Reopening law: `ReopenFull` maps to `Open` from any state, so a lock
/// with that action restores posting ability (by [`lemma_period_gating`]).
pub proof fn lemma_reopen_full_opens(a: PeriodAction)
    requires
        a is ReopenFull,
    ensures
        spec_target_state(a) is Open,
{
}

proof fn lemma_ent_idx_props(s: Seq<StoredEntry>, id: Seq<char>, j: int)
    requires
        0 <= j <= s.len(),
    ensures
        ({
            let i = ent_idx_from(s, id, j);
            if i == -1 {
                forall|k: int| j <= k < s.len() ==> s[k].entry.id@ != id
            } else {
                j <= i < s.len() && s[i].entry.id@ == id && forall|k: int|
                    j <= k < i ==> s[k].entry.id@ != id
            }
        }),
    decreases s.len() - j,
{
    if j < s.len() && s[j].entry.id@ != id {
        lemma_ent_idx_props(s, id, j + 1);
    }
}

/// Reversal idempotence law: a store in which the entry found for `id`
/// already carries a reversal link (as it does after a successful
/// reversal) refuses a second reversal of `id` with "entry already
/// reversed".
pub proof fn lemma_reversal_idempotent(
    before: InMemoryLedgerService,
    after: InMemoryLedgerService,
    id: Seq<char>,
)
    requires
        ent_idx(before.entries@, id) != -1,
        before.entries@.len() <= after.entries@.len(),
        forall|k: int|
            0 <= k < before.entries@.len() && k != ent_idx(before.entries@, id)
                ==> (#[trigger] after.entries@[k].entry.id@) == before.entries@[k].entry.id@,
        after.entries@[ent_idx(before.entries@, id)].entry.id == before.entries@[ent_idx(
            before.entries@,
            id,
        )].entry.id,
        after.entries@[ent_idx(before.entries@, id)].entry.status is Posted,
        after.entries@[ent_idx(before.entries@, id)].entry.reversed_by_entry_id is Some,
    ensures
        spec_reverse_err(after, id) == Some((ErrKind::Rejected, "entry already reversed"@)),
{
    let ei = ent_idx(before.entries@, id);
    lemma_ent_idx_props(before.entries@, id, 0);
    assert forall|k: int| 0 <= k < ei implies after.entries@[k].entry.id@ != id by {
        assert(after.entries@[k].entry.id@ == before.entries@[k].entry.id@);
    }
    lemma_ent_idx(after.entries@, id, 0, ei);
}

/// Every event the company filter keeps belongs to that company (and to
/// the entity, when one is given).
proof fn lemma_filter_events_scoped(s: Seq<AuditEvent>, company: Seq<char>, entity: Option<Seq<char>>)
    ensures
        forall|k: int|
            0 <= k < filter_events(s, company, entity).len() ==> (#[trigger] filter_events(
                s,
                company,
                entity,
            )[k]).company_id@ == company && (match entity {
                Some(e) => filter_events(s, company, entity)[k].entity_id@ == e,
                None => true,
            }),
    decreases s.len(),
{
    if s.len() > 0 {
        lemma_filter_events_scoped(s.drop_last(), company, entity);
        let rest = filter_events(s.drop_last(), company, entity);
        let whole = filter_events(s, company, entity);
        assert forall|k: int| 0 <= k < whole.len() implies (#[trigger] whole[k]).company_id@
            == company && (match entity {
            Some(e) => whole[k].entity_id@ == e,
            None => true,
        }) by {
            if k < rest.len() {
                assert(whole[k] == rest[k]);
            } else {
                assert(whole[k] == s.last());
            }
        }
    }
}

proof fn lemma_aud_idx_props(s: Seq<AuditEvent>, id: Seq<char>, j: int)
    requires
        0 <= j <= s.len(),
    ensures
        ({
            let i = aud_idx_from(s, id, j);
            i == -1 || (j <= i < s.len() && s[i].id@ == id)
        }),
    decreases s.len() - j,
{
    if j < s.len() && s[j].id@ != id {
        lemma_aud_idx_props(s, id, j + 1);
    }
}

/// Audit isolation law, first half: the whole audit query pipeline only
/// ever returns events of the queried tenant.
pub proof fn lemma_audit_trail_tenant_scoped(
    events: Seq<AuditEvent>,
    company: Seq<char>,
    entity: Option<Seq<char>>,
    cursor: Option<Seq<char>>,
    limit: Option<int>,
)
    ensures
        forall|k: int|
            0 <= k < limited_events(
                after_cursor(filter_events(events, company, entity), cursor),
                limit,
            ).len() ==> (#[trigger] limited_events(
                after_cursor(filter_events(events, company, entity), cursor),
                limit,
            )[k]).company_id@ == company,
{
    lemma_filter_events_scoped(events, company, entity);
    let filtered = filter_events(events, company, entity);
    let cursored = after_cursor(filtered, cursor);
    assert forall|k: int| 0 <= k < cursored.len() implies (#[trigger] cursored[k]).company_id@
        == company by {
        match cursor {
            None => {},
            Some(c) => {
                lemma_aud_idx_props(filtered, c, 0);
                if aud_idx(filtered, c) != -1 {
                    assert(cursored[k] == filtered[k + aud_idx(filtered, c) + 1]);
                }
            },
        }
    }
    let out = limited_events(cursored, limit);
    assert forall|k: int| 0 <= k < out.len() implies (#[trigger] out[k]).company_id@ == company by {
        assert(out[k] == cursored[k]);
    }
}

/// Audit isolation law, second half: when no event of the queried tenant
/// mentions the entity, the query returns nothing at all, even though
/// another tenant's events mention it.
pub proof fn lemma_audit_tenant_isolation(
    events: Seq<AuditEvent>,
    company: Seq<char>,
    entity: Seq<char>,
    cursor: Option<Seq<char>>,
    limit: Option<int>,
)
    requires
        forall|k: int|
            0 <= k < events.len() && (#[trigger] events[k]).entity_id@ == entity ==> events[k].company_id@
                != company,
    ensures
        limited_events(
            after_cursor(filter_events(events, company, Some(entity)), cursor),
            limit,
        ).len() == 0,
{
    lemma_filter_isolated(events, company, entity);
    let filtered = filter_events(events, company, Some(entity));
    assert(after_cursor(filtered, cursor) == filtered);
    assert(limited_events(filtered, limit) == filtered);
}

proof fn lemma_filter_isolated(events: Seq<AuditEvent>, company: Seq<char>, entity: Seq<char>)
    requires
        forall|k: int|
            0 <= k < events.len() && (#[trigger] events[k]).entity_id@ == entity ==> events[k].company_id@
                != company,
    ensures
        filter_events(events, company, Some(entity)).len() == 0,
    decreases events.len(),
{
    if events.len() > 0 {
        assert forall|k: int|
            0 <= k < events.drop_last().len() && (#[trigger] events.drop_last()[k]).entity_id@
                == entity implies events.drop_last()[k].company_id@ != company by {
            assert(events.drop_last()[k] == events[k]);
        }
        lemma_filter_isolated(events.drop_last(), company, entity);
        assert(events.last() == events[events.len() - 1]);
    }
}

} // verus!
