//! The firm / company / user directory surface: request normalization and
//! role rules for the multi-tenant backend.

use vstd::prelude::*;

use crate::text::contains_char;
use crate::text::norm_tags;
use crate::text::eq_ignore_case;
use crate::text::lower_seq;
use crate::text::lower_str;
use crate::text::trim_spec;
use crate::text::trim_str;
use crate::text::upper_seq;
use crate::text::upper_str;

verus! {

pub type FirmId = String;

pub type CompanyId = String;

pub type UserId = String;

pub type TenancyResult<T> = Result<T, TenancyError>;

#[derive(Debug, PartialEq, Eq)]
pub enum TenancyError {
    NotFound(String),
    Conflict(String),
    Validation(String),
    Rejected(String),
    Internal(String),
}

/// The five error classes of the tenancy service.
#[derive(Debug, Clone, Copy, PartialEq, Eq, Structural)]
pub enum TenErrKind {
    NotFound,
    Conflict,
    Validation,
    Rejected,
    Internal,
}

/// Holds when `e` is the `k` variant carrying exactly the message `msg`.
pub open spec fn ten_err_is(e: TenancyError, k: TenErrKind, msg: Seq<char>) -> bool {
    match e {
        TenancyError::NotFound(m) => k == TenErrKind::NotFound && m@ == msg,
        TenancyError::Conflict(m) => k == TenErrKind::Conflict && m@ == msg,
        TenancyError::Validation(m) => k == TenErrKind::Validation && m@ == msg,
        TenancyError::Rejected(m) => k == TenErrKind::Rejected && m@ == msg,
        TenancyError::Internal(m) => k == TenErrKind::Internal && m@ == msg,
    }
}

impl Clone for TenancyError {
    fn clone(&self) -> (r: Self)
        ensures
            r == *self,
    {
        match self {
            TenancyError::NotFound(m) => TenancyError::NotFound(m.clone()),
            TenancyError::Conflict(m) => TenancyError::Conflict(m.clone()),
            TenancyError::Validation(m) => TenancyError::Validation(m.clone()),
            TenancyError::Rejected(m) => TenancyError::Rejected(m.clone()),
            TenancyError::Internal(m) => TenancyError::Internal(m.clone()),
        }
    }
}

// --- firms ----------------------------------------------------------------

#[derive(Debug, PartialEq)]
pub struct Firm {
    pub id: FirmId,
    pub name: String,
    pub metadata: Option<String>,
    pub created_at_millis: i64,
}

impl Clone for Firm {
    fn clone(&self) -> (r: Self)
        ensures
            r == *self,
    {
        Firm {
            id: self.id.clone(),
            name: self.name.clone(),
            metadata: self.metadata.clone(),
            created_at_millis: self.created_at_millis,
        }
    }
}

#[derive(Debug, PartialEq)]
pub struct CreateFirmRequest {
    pub name: String,
    pub metadata: Option<String>,
}

impl CreateFirmRequest {
    /// Trims the firm name, refusing a blank one.
    pub fn normalize(self) -> (r: Result<Self, TenancyError>)
        ensures
            match r {
                Ok(out) => {
                    &&& trim_spec(self.name@).len() > 0
                    &&& out.name@ == trim_spec(self.name@)
                    &&& out.metadata == self.metadata
                },
                Err(e) => trim_spec(self.name@).len() == 0 && ten_err_is(
                    e,
                    TenErrKind::Validation,
                    "firm name cannot be empty"@,
                ),
            },
    {
        let trimmed = trim_str(self.name.as_str());
        if trimmed.as_str().is_empty() {
            return Err(TenancyError::Validation(String::from_str("firm name cannot be empty")));
        }
        Ok(CreateFirmRequest { name: trimmed, metadata: self.metadata })
    }
}

// --- companies --------------------------------------------------------------

#[derive(Debug, Clone, Copy, PartialEq, Eq, Structural)]
pub enum CompanyStatus {
    Active,
    Archived,
}

/// The label a status renders as.
pub open spec fn company_status_label(s: CompanyStatus) -> Seq<char> {
    match s {
        CompanyStatus::Active => "active"@,
        CompanyStatus::Archived => "archived"@,
    }
}

impl CompanyStatus {
    /// The lower-case label of this status.
    pub fn to_string(&self) -> (r: String)
        ensures
            r@ == company_status_label(*self),
    {
        match self {
            CompanyStatus::Active => String::from_str("active"),
            CompanyStatus::Archived => String::from_str("archived"),
        }
    }
}

#[derive(Debug, PartialEq)]
pub struct Company {
    pub id: CompanyId,
    pub firm_id: FirmId,
    pub name: String,
    pub status: CompanyStatus,
    pub base_currency: String,
    pub tags: Vec<String>,
    pub created_at_millis: i64,
    pub archived_at_millis: Option<i64>,
    pub metadata: Option<String>,
}

#[derive(Debug, PartialEq)]
pub struct CreateCompanyRequest {
    pub firm_id: FirmId,
    pub name: String,
    pub base_currency: String,
    pub tags: Vec<String>,
    pub metadata: Option<String>,
}

impl CreateCompanyRequest {
    /// Trims the name, upper-cases the base currency (which must trim to
    /// exactly three letters), and normalizes the tags.
    pub fn normalize(self) -> (r: Result<Self, TenancyError>)
        ensures
            match r {
                Ok(out) => {
                    &&& trim_spec(self.name@).len() > 0
                    &&& trim_spec(self.base_currency@).len() == 3
                    &&& out.firm_id == self.firm_id
                    &&& out.name@ == trim_spec(self.name@)
                    &&& out.base_currency@ == upper_seq(trim_spec(self.base_currency@))
                    &&& out.tags@.map_values(|x: String| x@) == norm_tags(self.tags@)
                    &&& out.metadata == self.metadata
                },
                Err(e) => if trim_spec(self.name@).len() == 0 {
                    ten_err_is(e, TenErrKind::Validation, "company name cannot be empty"@)
                } else if trim_spec(self.base_currency@).len() == 0 {
                    ten_err_is(e, TenErrKind::Validation, "base currency cannot be empty"@)
                } else {
                    trim_spec(self.base_currency@).len() != 3 && ten_err_is(
                        e,
                        TenErrKind::Validation,
                        "base currency must be a 3-letter ISO code"@,
                    )
                },
            },
    {
        let name = trim_str(self.name.as_str());
        if name.as_str().is_empty() {
            return Err(TenancyError::Validation(String::from_str("company name cannot be empty")));
        }
        let trimmed_currency = trim_str(self.base_currency.as_str());
        if trimmed_currency.as_str().is_empty() {
            return Err(
                TenancyError::Validation(String::from_str("base currency cannot be empty")),
            );
        }
        let code = upper_str(trimmed_currency.as_str());
        if code.as_str().unicode_len() != 3 {
            return Err(
                TenancyError::Validation(
                    String::from_str("base currency must be a 3-letter ISO code"),
                ),
            );
        }
        let tags = crate::text::normalize_tags(&self.tags);
        Ok(
            CreateCompanyRequest {
                firm_id: self.firm_id,
                name,
                base_currency: code,
                tags,
                metadata: self.metadata,
            },
        )
    }
}

/// A company name as it is compared for uniqueness: trimmed and
/// lower-cased.
pub fn normalize_company_name(name: &str) -> (r: String)
    ensures
        r@ == lower_seq(trim_spec(name@)),
{
    let trimmed = trim_str(name);
    lower_str(trimmed.as_str())
}

// --- roles ------------------------------------------------------------------

#[derive(Debug, Clone, Copy, PartialEq, Eq, Hash, Structural)]
pub enum Role {
    Partner,
    Senior,
    Staff,
    Auditor,
}

impl Role {
    /// Partners and seniors administer companies.
    #[must_use]
    pub fn can_manage_companies(self) -> (r: bool)
        ensures
            r == (self is Partner || self is Senior),
    {
        match self {
            Role::Partner | Role::Senior => true,
            _ => false,
        }
    }

    /// Everyone but auditors may post entries.
    #[must_use]
    pub fn can_post_journal_entries(self) -> (r: bool)
        ensures
            r == (self is Partner || self is Senior || self is Staff),
    {
        match self {
            Role::Partner | Role::Senior | Role::Staff => true,
            _ => false,
        }
    }

    /// Auditors only read.
    #[must_use]
    pub fn read_only(self) -> (r: bool)
        ensures
            r == (self is Auditor),
    {
        match self {
            Role::Auditor => true,
            _ => false,
        }
    }
}

#[derive(Debug, PartialEq, Eq, Hash)]
pub enum RoleScope {
    FirmWide,
    Company(CompanyId),
}

impl RoleScope {
    #[must_use]
    pub fn is_firm_wide(&self) -> (r: bool)
        ensures
            r == (*self is FirmWide),
    {
        match self {
            RoleScope::FirmWide => true,
            RoleScope::Company(_) => false,
        }
    }
}

impl Clone for RoleScope {
    fn clone(&self) -> (r: Self)
        ensures
            r == *self,
    {
        match self {
            RoleScope::FirmWide => RoleScope::FirmWide,
            RoleScope::Company(id) => RoleScope::Company(id.clone()),
        }
    }
}

#[derive(Debug, PartialEq, Eq, Hash)]
pub struct RoleAssignment {
    pub role: Role,
    pub scope: RoleScope,
}

/// Value equality of role assignments, comparing company ids by content.
pub open spec fn assignment_eqv(a: RoleAssignment, b: RoleAssignment) -> bool {
    a.role == b.role && match (a.scope, b.scope) {
        (RoleScope::FirmWide, RoleScope::FirmWide) => true,
        (RoleScope::Company(x), RoleScope::Company(y)) => x@ == y@,
        _ => false,
    }
}

fn assignment_eq(a: &RoleAssignment, b: &RoleAssignment) -> (r: bool)
    ensures
        r == assignment_eqv(*a, *b),
{
    if a.role != b.role {
        return false;
    }
    match (&a.scope, &b.scope) {
        (RoleScope::FirmWide, RoleScope::FirmWide) => true,
        (RoleScope::Company(x), RoleScope::Company(y)) => crate::text::eq_str(
            x.as_str(),
            y.as_str(),
        ),
        _ => false,
    }
}

impl RoleAssignment {
    /// A firm-wide assignment of `role`.
    #[must_use]
    pub fn firm(role: Role) -> (r: Self)
        ensures
            r.role == role,
            r.scope is FirmWide,
    {
        RoleAssignment { role, scope: RoleScope::FirmWide }
    }

    /// An assignment of `role` scoped to one company.
    #[must_use]
    pub fn company(role: Role, company_id: CompanyId) -> (r: Self)
        ensures
            r.role == role,
            r.scope matches RoleScope::Company(c) && c == company_id,
    {
        RoleAssignment { role, scope: RoleScope::Company(company_id) }
    }
}

impl Clone for RoleAssignment {
    fn clone(&self) -> (r: Self)
        ensures
            r == *self,
    {
        RoleAssignment { role: self.role, scope: self.scope.clone() }
    }
}

#[derive(Debug, Clone, Copy, PartialEq, Eq, Structural)]
pub enum UserStatus {
    Invited,
    Active,
    Suspended,
    Disabled,
}

impl UserStatus {
    #[must_use]
    pub fn is_active(self) -> (r: bool)
        ensures
            r == (self is Active),
    {
        match self {
            UserStatus::Active => true,
            _ => false,
        }
    }
}

/// The error the role list normalization reports while walking the
/// assignments from `j`, if any: an auditor role combined firm-wide with
/// other roles, or a repeated assignment.
pub open spec fn roles_scan_err(v: Seq<RoleAssignment>, j: int) -> Option<Seq<char>>
    decreases v.len() - j when 0 <= j <= v.len()
{
    if j >= v.len() {
        None
    } else if v[j].role is Auditor && v.len() > 1 && v[j].scope is FirmWide {
        Some("auditor role cannot be combined with other firm-wide roles"@)
    } else if exists|k: int| 0 <= k < j && assignment_eqv(#[trigger] v[k], v[j]) {
        Some("duplicate role assignment detected"@)
    } else {
        roles_scan_err(v, j + 1)
    }
}

#[derive(Debug, PartialEq, Eq)]
pub struct RoleAssignments(pub Vec<RoleAssignment>);

impl RoleAssignments {
    /// Requires at least one assignment, no duplicates, and no firm-wide
    /// auditor role mixed with other roles; hands the list back intact.
    pub fn normalize(self) -> (r: Result<Vec<RoleAssignment>, TenancyError>)
        ensures
            match r {
                Ok(out) => {
                    &&& self.0@.len() > 0
                    &&& roles_scan_err(self.0@, 0) is None
                    &&& out == self.0
                },
                Err(e) => if self.0@.len() == 0 {
                    ten_err_is(
                        e,
                        TenErrKind::Validation,
                        "at least one role assignment is required"@,
                    )
                } else {
                    roles_scan_err(self.0@, 0) matches Some(m) && ten_err_is(
                        e,
                        TenErrKind::Validation,
                        m,
                    )
                },
            },
    {
        if self.0.len() == 0 {
            return Err(
                TenancyError::Validation(
                    String::from_str("at least one role assignment is required"),
                ),
            );
        }
        let v = self.0;
        let mut j: usize = 0;
        while j < v.len()
            invariant
                v == self.0,
                j <= v@.len(),
                v@.len() > 0,
                roles_scan_err(v@, 0) == roles_scan_err(v@, j as int),
            decreases v@.len() - j,
        {
            if v[j].role.read_only() && v.len() > 1 && v[j].scope.is_firm_wide() {
                return Err(
                    TenancyError::Validation(
                        String::from_str(
                            "auditor role cannot be combined with other firm-wide roles",
                        ),
                    ),
                );
            }
            let mut k: usize = 0;
            let mut dup = false;
            while k < j
                invariant
                    v == self.0,
                    k <= j < v@.len(),
                    v@.len() > 0,
                    roles_scan_err(v@, 0) == roles_scan_err(v@, j as int),
                    !(v@[j as int].role is Auditor && v@.len() > 1 && v@[j as int].scope
                        is FirmWide),
                    dup == exists|x: int| 0 <= x < k && assignment_eqv(#[trigger] v@[x], v@[j as int]),
                decreases j - k,
            {
                if assignment_eq(&v[k], &v[j]) {
                    assert(assignment_eqv(v@[k as int], v@[j as int]));
                    dup = true;
                }
                k = k + 1;
            }
            if dup {
                return Err(
                    TenancyError::Validation(
                        String::from_str("duplicate role assignment detected"),
                    ),
                );
            }
            j = j + 1;
        }
        Ok(v)
    }
}

// --- users -------------------------------------------------------------------

#[derive(Debug, PartialEq)]
pub struct InviteUserRequest {
    pub firm_id: FirmId,
    pub email: String,
    pub display_name: String,
    pub roles: Vec<RoleAssignment>,
}

impl InviteUserRequest {
    /// Lower-cases and trims the email (which must hold an at sign),
    /// trims the display name, and normalizes the role list.
    pub fn normalize(self) -> (r: Result<Self, TenancyError>)
        ensures
            match r {
                Ok(out) => {
                    &&& trim_spec(self.email@).len() > 0
                    &&& lower_seq(trim_spec(self.email@)).contains('@')
                    &&& trim_spec(self.display_name@).len() > 0
                    &&& self.roles@.len() > 0
                    &&& roles_scan_err(self.roles@, 0) is None
                    &&& out.firm_id == self.firm_id
                    &&& out.email@ == lower_seq(trim_spec(self.email@))
                    &&& out.display_name@ == trim_spec(self.display_name@)
                    &&& out.roles == self.roles
                },
                Err(e) => if trim_spec(self.email@).len() == 0 {
                    ten_err_is(e, TenErrKind::Validation, "email cannot be empty"@)
                } else if !lower_seq(trim_spec(self.email@)).contains('@') {
                    ten_err_is(e, TenErrKind::Validation, "email must include '@'"@)
                } else if trim_spec(self.display_name@).len() == 0 {
                    ten_err_is(e, TenErrKind::Validation, "display name cannot be empty"@)
                } else if self.roles@.len() == 0 {
                    ten_err_is(
                        e,
                        TenErrKind::Validation,
                        "at least one role assignment is required"@,
                    )
                } else {
                    roles_scan_err(self.roles@, 0) matches Some(m) && ten_err_is(
                        e,
                        TenErrKind::Validation,
                        m,
                    )
                },
            },
    {
        let trimmed_email = trim_str(self.email.as_str());
        if trimmed_email.as_str().is_empty() {
            return Err(TenancyError::Validation(String::from_str("email cannot be empty")));
        }
        let email = lower_str(trimmed_email.as_str());
        if !contains_char(email.as_str(), '@') {
            return Err(TenancyError::Validation(String::from_str("email must include '@'")));
        }
        let display_name = trim_str(self.display_name.as_str());
        if display_name.as_str().is_empty() {
            return Err(TenancyError::Validation(String::from_str("display name cannot be empty")));
        }
        let roles = match RoleAssignments(self.roles).normalize() {
            Ok(roles) => roles,
            Err(e) => {
                return Err(e);
            },
        };
        Ok(InviteUserRequest { firm_id: self.firm_id, email, display_name, roles })
    }
}

#[derive(Debug, PartialEq)]
pub struct UpdateUserRolesRequest {
    pub firm_id: FirmId,
    pub user_id: UserId,
    pub roles: Vec<RoleAssignment>,
}

impl UpdateUserRolesRequest {
    /// Normalizes the role list; everything else passes through.
    pub fn normalize(self) -> (r: Result<Self, TenancyError>)
        ensures
            match r {
                Ok(out) => {
                    &&& self.roles@.len() > 0
                    &&& roles_scan_err(self.roles@, 0) is None
                    &&& out.firm_id == self.firm_id
                    &&& out.user_id == self.user_id
                    &&& out.roles == self.roles
                },
                Err(e) => if self.roles@.len() == 0 {
                    ten_err_is(
                        e,
                        TenErrKind::Validation,
                        "at least one role assignment is required"@,
                    )
                } else {
                    roles_scan_err(self.roles@, 0) matches Some(m) && ten_err_is(
                        e,
                        TenErrKind::Validation,
                        m,
                    )
                },
            },
    {
        let roles = match RoleAssignments(self.roles).normalize() {
            Ok(roles) => roles,
            Err(e) => {
                return Err(e);
            },
        };
        Ok(UpdateUserRolesRequest { firm_id: self.firm_id, user_id: self.user_id, roles })
    }
}

#[derive(Debug, PartialEq)]
pub struct UserAccount {
    pub id: UserId,
    pub firm_id: FirmId,
    pub email: String,
    pub display_name: String,
    pub roles: Vec<RoleAssignment>,
    pub status: UserStatus,
    pub invited_at_millis: i64,
    pub activated_at_millis: Option<i64>,
}

impl UserAccount {
    /// Whether the user carries `role` under any scope.
    #[must_use]
    pub fn has_role(&self, role: Role) -> (r: bool)
        ensures
            r == exists|k: int| 0 <= k < self.roles@.len() && (#[trigger] self.roles@[k]).role == role,
    {
        let mut i: usize = 0;
        while i < self.roles.len()
            invariant
                i <= self.roles@.len(),
                forall|k: int| 0 <= k < i ==> (#[trigger] self.roles@[k]).role != role,
            decreases self.roles@.len() - i,
        {
            if self.roles[i].role == role {
                assert(self.roles@[i as int].role == role);
                return true;
            }
            i = i + 1;
        }
        false
    }
}

} // verus!
