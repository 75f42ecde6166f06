use accounting_core::tenancy::CompanyStatus;
use accounting_core::tenancy::CreateCompanyRequest;
use accounting_core::tenancy::CreateFirmRequest;
use accounting_core::tenancy::InviteUserRequest;
use accounting_core::tenancy::Role;
use accounting_core::tenancy::RoleAssignment;
use accounting_core::tenancy::RoleAssignments;
use accounting_core::tenancy::RoleScope;
use accounting_core::tenancy::TenancyError;
use accounting_core::tenancy::UpdateUserRolesRequest;
use accounting_core::tenancy::UserStatus;

#[test]
fn company_status_display() {
    assert_eq!(CompanyStatus::Active.to_string(), "active");
    assert_eq!(CompanyStatus::Archived.to_string(), "archived");
}

#[test]
fn create_request_normalizes() {
    let result = CreateCompanyRequest {
        firm_id: "firm-1".into(),
        name: "  Example Firm  ".into(),
        base_currency: " usd ".into(),
        tags: vec!["  Retail  ".into(), "retail".into(), "".into(), " Q1 ".into()],
        metadata: Some("meta".into()),
    }
    .normalize()
    .expect("request should normalize");

    assert_eq!(result.name, "Example Firm");
    assert_eq!(result.base_currency, "USD");
    assert_eq!(result.tags, vec![String::from("Retail"), String::from("Q1")]);
}

#[test]
fn create_request_rejects_invalid_currency() {
    let err = CreateCompanyRequest {
        firm_id: "firm-1".into(),
        name: "Name".into(),
        base_currency: "US".into(),
        tags: vec![],
        metadata: None,
    }
    .normalize()
    .unwrap_err();

    assert!(matches!(err, TenancyError::Validation(_)));
}

#[test]
fn create_firm_request_normalizes() {
    let result = CreateFirmRequest { name: "  Demo Firm  ".into(), metadata: Some("meta".into()) }
        .normalize()
        .expect("firm request should normalize");

    assert_eq!(result.name, "Demo Firm");
}

#[test]
fn invite_user_request_normalizes() {
    let result = InviteUserRequest {
        firm_id: "firm-1".into(),
        email: " USER@example.com ".into(),
        display_name: "  Example User  ".into(),
        roles: vec![RoleAssignment::firm(Role::Partner)],
    }
    .normalize()
    .expect("invite should normalize");

    assert_eq!(result.email, "user@example.com");
    assert_eq!(result.display_name, "Example User");
}

#[test]
fn invite_user_request_rejects_duplicates() {
    let err = InviteUserRequest {
        firm_id: "firm-1".into(),
        email: "user@example.com".into(),
        display_name: "Example User".into(),
        roles: vec![RoleAssignment::firm(Role::Partner), RoleAssignment::firm(Role::Partner)],
    }
    .normalize()
    .unwrap_err();

    assert!(matches!(err, TenancyError::Validation(_)));
}

#[test]
fn role_capabilities_follow_seniority() {
    assert!(Role::Partner.can_manage_companies());
    assert!(Role::Senior.can_manage_companies());
    assert!(!Role::Staff.can_manage_companies());
    assert!(!Role::Auditor.can_manage_companies());

    assert!(Role::Staff.can_post_journal_entries());
    assert!(!Role::Auditor.can_post_journal_entries());
    assert!(Role::Auditor.read_only());
    assert!(!Role::Staff.read_only());
}

#[test]
fn role_assignment_constructors_set_scope() {
    let firm_wide = RoleAssignment::firm(Role::Senior);
    assert!(firm_wide.scope.is_firm_wide());
    let scoped = RoleAssignment::company(Role::Staff, "co-1".into());
    assert!(matches!(scoped.scope, RoleScope::Company(ref c) if c == "co-1"));
    assert!(!scoped.scope.is_firm_wide());
}

#[test]
fn user_status_active_flag() {
    assert!(UserStatus::Active.is_active());
    assert!(!UserStatus::Invited.is_active());
    assert!(!UserStatus::Suspended.is_active());
    assert!(!UserStatus::Disabled.is_active());
}

#[test]
fn role_assignments_refuse_firm_wide_auditor_mix() {
    let err = RoleAssignments(vec![
        RoleAssignment::firm(Role::Auditor),
        RoleAssignment::company(Role::Staff, "co-1".into()),
    ])
    .normalize()
    .unwrap_err();
    assert!(matches!(
        err,
        TenancyError::Validation(ref m) if m.contains("auditor role")
    ));

    let empty_err = RoleAssignments(Vec::new()).normalize().unwrap_err();
    assert!(matches!(
        empty_err,
        TenancyError::Validation(ref m) if m.contains("at least one")
    ));
}

#[test]
fn update_roles_request_normalizes() {
    let ok = UpdateUserRolesRequest {
        firm_id: "firm-1".into(),
        user_id: "user-1".into(),
        roles: vec![RoleAssignment::company(Role::Auditor, "co-1".into())],
    }
    .normalize()
    .expect("single scoped auditor role is fine");
    assert_eq!(ok.roles.len(), 1);
}
