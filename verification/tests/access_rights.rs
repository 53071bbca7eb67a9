use calendar_api::access::{check_event_access, ApprovalStatus, EventAccess, EventPermission};
use calendar_api::error::ApiError;

fn access() -> EventAccess {
    EventAccess {
        exists: true,
        created_by: Some(42),
        is_member: false,
        manager_role: false,
        responsable_role: false,
        shares_group_with_creator: false,
        requires_approval: false,
        approval_status: ApprovalStatus::Approved,
        caller_id: 0,
    }
}

#[test]
fn creator_is_recognised_by_caller_id() {
    let mut a = access();
    a.caller_id = 42;
    assert!(a.is_creator());
    a.caller_id = 43;
    assert!(!a.is_creator());
    a.created_by = None;
    assert!(!a.is_creator());
}

#[test]
fn only_members_view() {
    let mut a = access();
    a.caller_id = 42;
    assert!(!a.can_view());
    a.is_member = true;
    assert!(a.can_view());
}

#[test]
fn edit_needs_membership_and_creator_or_manager() {
    let mut a = access();
    a.caller_id = 42;
    assert!(!a.can_edit());
    a.is_member = true;
    assert!(a.can_edit());
    a.caller_id = 7;
    assert!(!a.can_edit());
    a.manager_role = true;
    assert!(a.can_edit());
    a.is_member = false;
    assert!(!a.can_edit());
}

#[test]
fn only_the_creator_deletes() {
    let mut a = access();
    a.caller_id = 7;
    a.is_member = true;
    a.manager_role = true;
    assert!(!a.can_delete());
    a.caller_id = 42;
    assert!(a.can_delete());
}

#[test]
fn creator_manages_members_before_being_one() {
    let mut a = access();
    a.caller_id = 42;
    assert!(a.can_manage_members());
    a.caller_id = 7;
    assert!(!a.can_manage_members());
    a.is_member = true;
    a.manager_role = true;
    assert!(a.can_manage_members());
}

#[test]
fn validation_needs_every_condition() {
    let full = EventAccess {
        exists: true,
        created_by: Some(42),
        is_member: true,
        manager_role: true,
        responsable_role: true,
        shares_group_with_creator: true,
        requires_approval: true,
        approval_status: ApprovalStatus::Pending,
        caller_id: 7,
    };
    assert!(full.can_validate());
    assert!(!EventAccess { responsable_role: false, ..full }.can_validate());
    assert!(!EventAccess { is_member: false, ..full }.can_validate());
    assert!(!EventAccess { approval_status: ApprovalStatus::Approved, ..full }.can_validate());
    assert!(!EventAccess { approval_status: ApprovalStatus::Rejected, ..full }.can_validate());
    assert!(!EventAccess { created_by: None, ..full }.can_validate());
    assert!(!EventAccess { requires_approval: false, ..full }.can_validate());
    assert!(!EventAccess { shares_group_with_creator: false, ..full }.can_validate());
}

#[test]
fn unknown_event_is_not_found_whatever_the_rights() {
    let a = EventAccess { exists: false, ..access() };
    assert_eq!(check_event_access(a, 42, EventPermission::Delete), Err(ApiError::NotFound));
    assert_eq!(check_event_access(a, 42, EventPermission::View), Err(ApiError::NotFound));
}

#[test]
fn existing_event_without_the_right_is_forbidden() {
    let a = access();
    assert_eq!(check_event_access(a, 7, EventPermission::View), Err(ApiError::Forbidden));
    assert_eq!(check_event_access(a, 7, EventPermission::Delete), Err(ApiError::Forbidden));
}

#[test]
fn granted_access_carries_the_caller() {
    let a = access();
    let granted = check_event_access(a, 42, EventPermission::Delete).unwrap();
    assert_eq!(granted.caller_id, 42);
    assert_eq!(granted, EventAccess { caller_id: 42, ..a });
    assert!(granted.allows(EventPermission::ManageMembers));
    assert!(!granted.allows(EventPermission::View));
}

#[test]
fn errors_have_their_status_and_text() {
    assert_eq!(ApiError::BadRequest.status_code(), 400);
    assert_eq!(ApiError::Forbidden.status_code(), 403);
    assert_eq!(ApiError::NotFound.status_code(), 404);
    assert_eq!(ApiError::Conflict.status_code(), 409);
    assert_eq!(ApiError::DatabaseError.status_code(), 500);
    assert_eq!(ApiError::BadRequest.to_string(), "Bad request.");
    assert_eq!(ApiError::Forbidden.message(), "Forbidden.");
    assert_eq!(ApiError::NotFound.message(), "Unknown event.");
    assert_eq!(ApiError::Conflict.message(), "Conflict.");
    assert_eq!(
        ApiError::DatabaseError.message(),
        "An error occurred while accessing the database."
    );
}

#[test]
fn unassigned_creator_manages_and_deletes_but_does_not_see() {
    let a = access();
    for (permission, granted) in [
        (EventPermission::View, false),
        (EventPermission::Edit, false),
        (EventPermission::Validate, false),
        (EventPermission::ManageMembers, true),
        (EventPermission::Delete, true),
    ] {
        let r = check_event_access(a, 42, permission);
        if granted {
            assert!(r.is_ok());
        } else {
            assert_eq!(r, Err(ApiError::Forbidden));
        }
    }
}
