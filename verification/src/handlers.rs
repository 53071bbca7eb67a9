//! Decisions of the HTTP handlers between their database calls.

use crate::access::ApprovalStatus;
use crate::detail::GetEventQueryResultView;
use crate::error::ApiError;
use crate::members::EventValidationStatus;
use crate::params::QueryParamView;
use crate::patch::PatchEventView;
use crate::post::PostEventView;
use crate::queries::{CreateEventQueryView, DeleteOrphanRecurrenceQueryView, EditEventQueryView};
use crate::rules::{event_input_ok, validate_event_input};
use vstd::prelude::*;

verus! {

/// Body of the assignment of a member: the Core API identifier of the user.
#[derive(Clone, Copy, Debug, PartialEq, Eq, Structural)]
pub struct PostMemberView {
    pub user_id: u64,
}

/// Body of a decision on an event: `Approved` validates it for every member, `Rejected`
/// refuses it, `Pending` puts it back on hold.
#[derive(Clone, Copy, Debug, PartialEq, Eq, Structural)]
pub struct UpdateEventValidationView {
    pub status: ApprovalStatus,
}

/// The status applied to every member when a Responsable decides on an event.
pub open spec fn status_for(status: ApprovalStatus) -> EventValidationStatus {
    match status {
        ApprovalStatus::Approved => EventValidationStatus::Validated,
        ApprovalStatus::Rejected => EventValidationStatus::Refused,
        ApprovalStatus::Pending => EventValidationStatus::Pending,
    }
}

/// The status applied to every member when a Responsable decides on an event: approved
/// validates it, rejected refuses it, pending puts it back on hold.
pub fn validation_status_for(status: ApprovalStatus) -> (s: EventValidationStatus)
    ensures
        s == status_for(status),
{
    match status {
        ApprovalStatus::Approved => EventValidationStatus::Validated,
        ApprovalStatus::Rejected => EventValidationStatus::Refused,
        ApprovalStatus::Pending => EventValidationStatus::Pending,
    }
}

/// The creation query for the body `body` sent by `creator_id`, or `BadRequest` when the
/// event it defines breaks the rules.
pub fn prepare_creation(creator_id: u64, body: PostEventView) -> (r: Result<
    CreateEventQueryView,
    ApiError,
>)
    ensures
        !event_input_ok(body.input()) ==> r == Err::<CreateEventQueryView, ApiError>(
            ApiError::BadRequest,
        ),
        event_input_ok(body.input()) ==> (r matches Ok(q) && q@ == seq![
            QueryParamView::I32(creator_id as i32),
        ] + body.input().query_params()),
{
    let input = body.into_input();
    match validate_event_input(&input) {
        Ok(()) => Ok(CreateEventQueryView::new(creator_id, &input)),
        Err(e) => Err(e),
    }
}

/// The repetition rule of the first row read, which deleting the event leaves without event.
pub open spec fn rule_of_first_row(rows: Seq<GetEventQueryResultView>) -> Option<i32> {
    if rows.len() > 0 {
        rows[0].recurrence_id
    } else {
        None
    }
}

/// After the deletion of an event whose rows are `rows`, the deletion of its repetition rule
/// if it had one.
pub fn orphan_rule_after_deletion(rows: &Vec<GetEventQueryResultView>) -> (r: Option<
    DeleteOrphanRecurrenceQueryView,
>)
    ensures
        rule_of_first_row(rows@) is None ==> r is None,
        rule_of_first_row(rows@) matches Some(id) ==> (r matches Some(q) && q@ == seq![
            QueryParamView::I32(id),
        ]),
{
    if rows.len() == 0 {
        return None;
    }
    match rows[0].recurrence_id() {
        Some(id) => {
            let q = DeleteOrphanRecurrenceQueryView::new(id as u64);
            proof {
                assert((id as u64) as i32 == id) by (bit_vector);
            }
            Some(q)
        },
        None => None,
    }
}

/// What updating an event writes: the new data, then the deletion of the repetition rule that
/// the update detaches, if any.
#[derive(Debug)]
pub struct EventUpdate {
    pub edit: EditEventQueryView,
    pub orphan_rule: Option<DeleteOrphanRecurrenceQueryView>,
}

/// The update of event `event_id` by `patch`, from the rows read for it: `NotFound` when no
/// row came back, `BadRequest` when the updated event breaks the rules, and otherwise the
/// new data with, when the update removes the repetition of an event that had one, the
/// deletion of that rule.
pub fn plan_update(event_id: u64, rows: Vec<GetEventQueryResultView>, patch: PatchEventView) -> (r:
    Result<EventUpdate, ApiError>)
    ensures
        rows@.len() == 0 ==> r == Err::<EventUpdate, ApiError>(ApiError::NotFound),
        rows@.len() > 0 && !event_input_ok(patch@.applied_to(rows@[0].input())) ==> r == Err::<
            EventUpdate,
            ApiError,
        >(ApiError::BadRequest),
        rows@.len() > 0 && event_input_ok(patch@.applied_to(rows@[0].input())) ==> (r matches Ok(
            u,
        ) && u.edit@ == seq![QueryParamView::I32(event_id as i32)] + patch@.applied_to(
            rows@[0].input(),
        ).query_params() && (match (rows@[0].recurrence_id, patch@.applied_to(
            rows@[0].input(),
        ).recurrence) {
            (Some(id), None) => (u.orphan_rule matches Some(q) && q@ == seq![
                QueryParamView::I32(id),
            ]),
            _ => u.orphan_rule is None,
        })),
{
    if rows.len() == 0 {
        return Err(ApiError::NotFound);
    }
    let mut rows = rows;
    let current = rows.swap_remove(0);
    let input = patch.apply_to(current.to_input());
    if let Err(e) = validate_event_input(&input) {
        return Err(e);
    }
    let edit = EditEventQueryView::new(event_id, &input);
    let orphan_rule = match current.recurrence_id() {
        Some(id) => if input.recurrence.is_none() {
            proof {
                assert((id as u64) as i32 == id) by (bit_vector);
            }
            Some(DeleteOrphanRecurrenceQueryView::new(id as u64))
        } else {
            None
        },
        None => None,
    };
    Ok(EventUpdate { edit, orphan_rule })
}

/// Answer to the update query: `BadRequest` when it failed, `NotFound` when it found no event.
pub fn edit_outcome(updated: Option<bool>) -> (r: Result<(), ApiError>)
    ensures
        updated is None ==> r == Err::<(), ApiError>(ApiError::BadRequest),
        updated == Some(false) ==> r == Err::<(), ApiError>(ApiError::NotFound),
        updated == Some(true) ==> r is Ok,
{
    match updated {
        None => Err(ApiError::BadRequest),
        Some(false) => Err(ApiError::NotFound),
        Some(true) => Ok(()),
    }
}

/// Answer to the check that the caller may assign the user: `Forbidden` when they may not.
pub fn assignment_outcome(assignable: bool) -> (r: Result<(), ApiError>)
    ensures
        !assignable ==> r == Err::<(), ApiError>(ApiError::Forbidden),
        assignable ==> r is Ok,
{
    if assignable {
        Ok(())
    } else {
        Err(ApiError::Forbidden)
    }
}

/// Answer to the insertion of a member: a failed insertion is a member already assigned
/// (unique index on the event and the user), `Conflict`.
pub fn insertion_outcome(inserted: bool) -> (r: Result<(), ApiError>)
    ensures
        !inserted ==> r == Err::<(), ApiError>(ApiError::Conflict),
        inserted ==> r is Ok,
{
    if inserted {
        Ok(())
    } else {
        Err(ApiError::Conflict)
    }
}

/// Answer to the removal of a member, from the rows it removed: `NotFound` when none.
pub fn removal_outcome(removed: &Vec<i32>) -> (r: Result<(), ApiError>)
    ensures
        removed@.len() == 0 ==> r == Err::<(), ApiError>(ApiError::NotFound),
        removed@.len() > 0 ==> r is Ok,
{
    if removed.len() == 0 {
        Err(ApiError::NotFound)
    } else {
        Ok(())
    }
}

} // verus!
