//! Rights of a caller on an event, and the answer to a request that needs one of them.

use crate::error::ApiError;
use vstd::prelude::*;

verus! {

/// Approval state of an event: `pending`, `approved` or `rejected`.
#[derive(Clone, Copy, Debug, PartialEq, Eq, Structural)]
pub enum ApprovalStatus {
    Pending,
    Approved,
    Rejected,
}

/// What the database says of an event and of the caller, in one row.
#[derive(Clone, Copy, Debug, PartialEq, Eq, Structural)]
pub struct EventAccess {
    pub exists: bool,
    pub created_by: Option<i32>,
    pub is_member: bool,
    pub manager_role: bool,
    pub responsable_role: bool,
    pub shares_group_with_creator: bool,
    pub requires_approval: bool,
    pub approval_status: ApprovalStatus,
    /// Identifier of the caller, filled in by the handler (not read from the database).
    pub caller_id: i32,
}

/// A right that a request needs on an event.
#[derive(Clone, Copy, Debug, PartialEq, Eq, Structural)]
pub enum EventPermission {
    View,
    Edit,
    Delete,
    ManageMembers,
    Validate,
}

impl EventAccess {
    /// The caller created the event.
    pub open spec fn creator(self) -> bool {
        self.created_by == Some(self.caller_id)
    }

    /// Only the assigned members see the event.
    pub open spec fn viewer(self) -> bool {
        self.is_member
    }

    /// An assigned member who created the event or is Responsable, Maire or Admin.
    pub open spec fn editor(self) -> bool {
        self.is_member && (self.creator() || self.manager_role)
    }

    /// The creator, and only the creator, deletes the event.
    pub open spec fn deleter(self) -> bool {
        self.creator()
    }

    /// The creator manages the members from the creation on (before being a member), and
    /// so does anyone who can edit the event.
    pub open spec fn member_manager(self) -> bool {
        self.creator() || self.editor()
    }

    /// An assigned Responsable, sharing a group with the creator, of an event waiting for
    /// approval.
    pub open spec fn validator(self) -> bool {
        &&& self.responsable_role
        &&& self.is_member
        &&& self.approval_status == ApprovalStatus::Pending
        &&& self.created_by is Some
        &&& self.requires_approval
        &&& self.shares_group_with_creator
    }

    /// The caller holds `permission`.
    pub open spec fn grants(self, permission: EventPermission) -> bool {
        match permission {
            EventPermission::View => self.viewer(),
            EventPermission::Edit => self.editor(),
            EventPermission::Delete => self.deleter(),
            EventPermission::ManageMembers => self.member_manager(),
            EventPermission::Validate => self.validator(),
        }
    }

    /// Whether the caller created the event.
    pub fn is_creator(&self) -> (r: bool)
        ensures
            r == self.creator(),
    {
        match self.created_by {
            Some(id) => id == self.caller_id,
            None => false,
        }
    }

    /// Only the assigned members see the event.
    pub fn can_view(&self) -> (r: bool)
        ensures
            r == self.viewer(),
    {
        self.is_member
    }

    /// An assigned member who created the event or is Responsable, Maire or Admin.
    pub fn can_edit(&self) -> (r: bool)
        ensures
            r == self.editor(),
    {
        self.is_member && (self.is_creator() || self.manager_role)
    }

    /// Only the creator deletes the event.
    pub fn can_delete(&self) -> (r: bool)
        ensures
            r == self.deleter(),
    {
        self.is_creator()
    }

    /// The creator manages the members from the creation on (before being a member).
    pub fn can_manage_members(&self) -> (r: bool)
        ensures
            r == self.member_manager(),
    {
        self.is_creator() || self.can_edit()
    }

    /// An assigned Responsable, sharing a group with the creator, of an event waiting for
    /// approval.
    pub fn can_validate(&self) -> (r: bool)
        ensures
            r == self.validator(),
    {
        self.responsable_role && self.is_member && match self.approval_status {
            ApprovalStatus::Pending => true,
            _ => false,
        } && self.created_by.is_some() && self.requires_approval && self.shares_group_with_creator
    }

    /// Whether the caller holds `permission`.
    pub fn allows(&self, permission: EventPermission) -> (r: bool)
        ensures
            r == self.grants(permission),
    {
        match permission {
            EventPermission::View => self.can_view(),
            EventPermission::Edit => self.can_edit(),
            EventPermission::Delete => self.can_delete(),
            EventPermission::ManageMembers => self.can_manage_members(),
            EventPermission::Validate => self.can_validate(),
        }
    }
}

/// The rights loaded for `user_id`: the row read from the database, with the caller filled in.
pub open spec fn with_caller(access: EventAccess, user_id: u64) -> EventAccess {
    EventAccess { caller_id: user_id as i32, ..access }
}

/// Answer to a request of `user_id` that needs `permission` on an event, from the row
/// `access` read for it: `NotFound` when the event does not exist, `Forbidden` when the caller
/// lacks the right, and otherwise the rights of the caller.
pub fn check_event_access(access: EventAccess, user_id: u64, permission: EventPermission) -> (r:
    Result<EventAccess, ApiError>)
    ensures
        !access.exists ==> r == Err::<EventAccess, ApiError>(ApiError::NotFound),
        access.exists && !with_caller(access, user_id).grants(permission) ==> r == Err::<
            EventAccess,
            ApiError,
        >(ApiError::Forbidden),
        access.exists && with_caller(access, user_id).grants(permission) ==> r == Ok::<
            EventAccess,
            ApiError,
        >(with_caller(access, user_id)),
        r == Err::<EventAccess, ApiError>(ApiError::NotFound) <==> !access.exists,
{
    let mut access = access;
    access.caller_id = user_id as i32;
    if !access.exists {
        return Err(ApiError::NotFound);
    }
    if !access.allows(permission) {
        return Err(ApiError::Forbidden);
    }
    Ok(access)
}

/// Whoever may edit an event may see it.
pub proof fn lemma_editor_is_viewer(access: EventAccess)
    ensures
        access.editor() ==> access.viewer(),
{
}

/// Whoever may validate an event may see it.
pub proof fn lemma_validator_is_viewer(access: EventAccess)
    ensures
        access.validator() ==> access.viewer(),
{
}

/// Whoever may edit or delete an event may manage its members.
pub proof fn lemma_editor_and_deleter_manage_members(access: EventAccess)
    ensures
        access.editor() ==> access.member_manager(),
        access.deleter() ==> access.member_manager(),
{
}

/// A caller who is not assigned to the event manages its members only as its creator.
pub proof fn lemma_non_member_manages_only_as_creator(access: EventAccess)
    ensures
        access.member_manager() && !access.is_member ==> access.creator(),
{
}

/// A creator who has not assigned themself to the event yet cannot see nor edit it, but
/// already manages its members and may delete it.
pub proof fn lemma_unassigned_creator_rights(access: EventAccess)
    requires
        access.creator(),
        !access.is_member,
    ensures
        !access.grants(EventPermission::View),
        !access.grants(EventPermission::Edit),
        !access.grants(EventPermission::Validate),
        access.grants(EventPermission::ManageMembers),
        access.grants(EventPermission::Delete),
{
}

/// Every assigned member, and only an assigned member, sees the event, whatever their roles.
pub proof fn lemma_view_is_membership(access: EventAccess)
    ensures
        access.grants(EventPermission::View) <==> access.is_member,
        access.viewer() <==> access.is_member,
{
}

/// The table of rights: edit is for an assigned member who created the event or holds the
/// Responsable, Maire or Admin role; delete for the creator alone; managing the members for
/// the creator or whoever may edit; validating for an assigned Responsable sharing a group
/// with the creator, on an event that needs approval and waits for it.
pub proof fn lemma_rights_table(access: EventAccess)
    ensures
        access.grants(EventPermission::Edit) <==> (access.is_member && (access.created_by == Some(
            access.caller_id,
        ) || access.manager_role)),
        access.grants(EventPermission::Delete) <==> access.created_by == Some(access.caller_id),
        access.grants(EventPermission::ManageMembers) <==> (access.created_by == Some(
            access.caller_id,
        ) || (access.is_member && access.manager_role)),
        access.grants(EventPermission::Validate) <==> (access.is_member && access.responsable_role
            && access.shares_group_with_creator && access.requires_approval
            && access.approval_status == ApprovalStatus::Pending && access.created_by is Some),
{
}

} // verus!
